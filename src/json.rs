//! JSON text as this library writes and reads it, and the calls into
//! serde_json that produce or inspect it.
use vstd::prelude::*;

verus! {

#[verifier::external_type_specification]
#[verifier::external_body]
pub struct ExValue(serde_json::Value);

#[verifier::external_type_specification]
#[verifier::external_body]
pub struct ExJsonError(serde_json::Error);

/// Relies on the derived `Clone` of serde_json::Value: the copy equals the
/// value it was made from. The derived `Clone` of this library's messages
/// clones their `Value` fields through it.
pub assume_specification[ <serde_json::Value as Clone>::clone ](v: &serde_json::Value) -> (r: serde_json::Value)
    ensures
        r == *v,
;

/// Relies on serde_json's `Default` for `Value`: the JSON null.
pub assume_specification[ <serde_json::Value as Default>::default ]() -> serde_json::Value;

/// Lower-case hexadecimal digit for a value below sixteen.
pub open spec fn hex_digit(n: u32) -> char {
    if n == 0 { '0' } else if n == 1 { '1' } else if n == 2 { '2' } else if n == 3 { '3' }
    else if n == 4 { '4' } else if n == 5 { '5' } else if n == 6 { '6' } else if n == 7 { '7' }
    else if n == 8 { '8' } else if n == 9 { '9' } else if n == 10 { 'a' } else if n == 11 { 'b' }
    else if n == 12 { 'c' } else if n == 13 { 'd' } else if n == 14 { 'e' } else { 'f' }
}

/// How one character appears inside a JSON string literal: the quote, the
/// backslash and the control characters are escaped, everything else stands
/// as it is.
pub open spec fn escape_char(c: char) -> Seq<char> {
    if c == '"' {
        seq!['\\', '"']
    } else if c == '\\' {
        seq!['\\', '\\']
    } else if c == '\u{08}' {
        seq!['\\', 'b']
    } else if c == '\t' {
        seq!['\\', 't']
    } else if c == '\n' {
        seq!['\\', 'n']
    } else if c == '\u{0c}' {
        seq!['\\', 'f']
    } else if c == '\r' {
        seq!['\\', 'r']
    } else if (c as u32) < 0x20 {
        seq!['\\', 'u', '0', '0', hex_digit((c as u32) / 16), hex_digit((c as u32) % 16)]
    } else {
        seq![c]
    }
}

/// The body of a JSON string literal for `s`.
pub open spec fn escaped(s: Seq<char>) -> Seq<char>
    decreases s.len(),
{
    if s.len() == 0 {
        Seq::empty()
    } else {
        escape_char(s[0]) + escaped(s.drop_first())
    }
}

/// The JSON string literal for `s`, quotes included.
pub open spec fn json_string(s: Seq<char>) -> Seq<char> {
    seq!['"'] + escaped(s) + seq!['"']
}

/// Relies on serde_json::to_string for a `str`: it writes a quote, each run of
/// characters with the quote, the backslash and the characters below U+0020
/// escaped as its escape table gives them (short forms for \b \t \n \f \r,
/// `\u00xx` in lower-case hex for the others), and a closing quote. Writing
/// into its own buffer cannot fail.
#[verifier::external_body]
pub(crate) fn json_string_literal(s: &str) -> (r: Result<String, serde_json::Error>)
    ensures
        r is Ok,
        r matches Ok(t) ==> t@ == json_string(s@),
{
    serde_json::to_string(s)
}

/// Relies on serde_json::to_string for a `Value`: the compact JSON text of the
/// value. It writes into its own buffer, and a `Value` holds only string map
/// keys and finite numbers, so it cannot fail.
#[verifier::external_body]
pub(crate) fn value_text(v: &serde_json::Value) -> (r: Result<String, serde_json::Error>)
    ensures
        r is Ok,
{
    serde_json::to_string(v)
}

proof fn lemma_hex_digit_injective(a: u32, b: u32)
    requires
        a < 16,
        b < 16,
        hex_digit(a) == hex_digit(b),
    ensures
        a == b,
{
}

/// An escaped character never starts with a quote, and a quote inside it
/// follows a backslash.
proof fn lemma_escape_char_shape(c: char)
    ensures
        escape_char(c).len() >= 1,
        escape_char(c)[0] != '"',
        forall|k: int| 0 <= k < escape_char(c).len() && #[trigger] escape_char(c)[k] == '"' ==> k
            > 0 && escape_char(c)[k - 1] == '\\',
{
    if (c as u32) < 0x20 && c != '\u{08}' && c != '\t' && c != '\n' && c != '\u{0c}' && c != '\r' {
        let e = escape_char(c);
        assert(e[4] == hex_digit((c as u32) / 16));
        assert(e[5] == hex_digit((c as u32) % 16));
    }
}

/// No escaped character is a proper prefix of another: an escaped
/// character followed by more text is read back unambiguously.
proof fn lemma_escape_char_prefix(c1: char, c2: char, t1: Seq<char>, t2: Seq<char>)
    requires
        escape_char(c1) + t1 == escape_char(c2) + t2,
    ensures
        c1 == c2,
        t1 == t2,
{
    let e1 = escape_char(c1);
    let e2 = escape_char(c2);
    let x = e1 + t1;
    assert(x[0] == e1[0] && x[0] == e2[0]);
    if e1.len() >= 2 && e2.len() >= 2 {
        assert(x[1] == e1[1] && x[1] == e2[1]);
    }
    if e1.len() == 6 && e2.len() == 6 {
        assert(x[4] == e1[4] && x[4] == e2[4]);
        assert(x[5] == e1[5] && x[5] == e2[5]);
        lemma_hex_digit_injective((c1 as u32) / 16, (c2 as u32) / 16);
        lemma_hex_digit_injective((c1 as u32) % 16, (c2 as u32) % 16);
        assert((c1 as u32) == (c2 as u32));
    }
    assert(e1 == e2);
    assert(t1 =~= x.subrange(e1.len() as int, x.len() as int));
    assert(t2 =~= x.subrange(e2.len() as int, x.len() as int));
}

/// A quote inside an escaped body follows a backslash, and the body never
/// starts with one.
pub proof fn lemma_escaped_quotes(s: Seq<char>)
    ensures
        forall|k: int| 0 <= k < escaped(s).len() && #[trigger] escaped(s)[k] == '"' ==> k > 0
            && escaped(s)[k - 1] == '\\',
    decreases s.len(),
{
    if s.len() > 0 {
        let e = escape_char(s[0]);
        let rest = escaped(s.drop_first());
        lemma_escape_char_shape(s[0]);
        lemma_escaped_quotes(s.drop_first());
        assert(escaped(s) == e + rest);
        assert forall|k: int| 0 <= k < escaped(s).len() && #[trigger] escaped(s)[k] == '"' implies k
            > 0 && escaped(s)[k - 1] == '\\' by {
            if k < e.len() {
                assert(e[k] == '"');
            } else {
                assert(rest[k - e.len()] == '"');
                if k - e.len() == 0 {
                    assert(false);
                }
                assert(escaped(s)[k - 1] == rest[k - 1 - e.len()]);
            }
        }
    }
}

/// The body of a string literal ends at its first unescaped quote: what
/// precedes and what follows that quote are determined by the text.
pub proof fn lemma_escaped_prefix(s1: Seq<char>, s2: Seq<char>, r1: Seq<char>, r2: Seq<char>)
    requires
        escaped(s1) + seq!['"'] + r1 == escaped(s2) + seq!['"'] + r2,
    ensures
        s1 == s2,
        r1 == r2,
    decreases s1.len(),
{
    let x = escaped(s1) + seq!['"'] + r1;
    if s1.len() == 0 {
        if s2.len() > 0 {
            lemma_escape_char_shape(s2[0]);
            assert(x[0] == escape_char(s2[0])[0]);
        }
        assert(s2.len() == 0);
        assert(r1 =~= x.drop_first());
        assert(r2 =~= x.drop_first());
        assert(s1 =~= s2);
    } else {
        lemma_escape_char_shape(s1[0]);
        if s2.len() == 0 {
            assert(x[0] == escape_char(s1[0])[0]);
            assert(false);
        }
        let t1 = escaped(s1.drop_first()) + seq!['"'] + r1;
        let t2 = escaped(s2.drop_first()) + seq!['"'] + r2;
        assert(x =~= escape_char(s1[0]) + t1);
        assert(x =~= escape_char(s2[0]) + t2);
        lemma_escape_char_prefix(s1[0], s2[0], t1, t2);
        lemma_escaped_prefix(s1.drop_first(), s2.drop_first(), r1, r2);
        assert(s1 =~= seq![s1[0]] + s1.drop_first());
        assert(s2 =~= seq![s2[0]] + s2.drop_first());
    }
}

} // verus!
