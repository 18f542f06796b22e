//! JSON-RPC 2.0 messages exchanged with the worker, and the request lines
//! written to its standard input.
use vstd::prelude::*;

use crate::error::SidecarError;
use crate::json::{
    escaped, json_string, json_string_literal, lemma_escaped_prefix, lemma_escaped_quotes, value_text,
};
use serde_json::Value;

verus! {

/// A request for the worker to run `method` on `params`.
#[derive(Debug, Clone)]
pub struct RpcRequest {
    pub jsonrpc: String,
    pub method: String,
    pub params: Value,
    pub id: String,
}

/// The worker's answer to the request with the same `id`.
#[derive(Debug, Clone)]
pub struct RpcResponse {
    pub jsonrpc: String,
    pub result: Option<Value>,
    pub error: Option<RpcError>,
    pub id: String,
}

/// A failure that the worker reports for a method.
#[derive(Debug, Clone)]
pub struct RpcError {
    pub code: i32,
    pub message: String,
    pub data: Option<Value>,
}

/// Telemetry the worker sends without being asked; it carries no identifier.
#[derive(Debug, Clone)]
pub struct ProgressEvent {
    pub event: String,
    pub data: Value,
}

/// The protocol version tag of every message.
pub open spec fn version_tag() -> Seq<char> {
    seq!['2', '.', '0']
}

/// The identifier that notifications carry; nothing is matched against it.
pub open spec fn notify_id() -> Seq<char> {
    seq!['n', 'o', 't', 'i', 'f', 'y']
}

/// One request line, without its terminator: the members in the order
/// `jsonrpc`, `method`, `params`, `id`, with no white space.
pub open spec fn request_line(
    jsonrpc: Seq<char>,
    method: Seq<char>,
    params_text: Seq<char>,
    id: Seq<char>,
) -> Seq<char> {
    "{\"jsonrpc\":"@ + json_string(jsonrpc) + ",\"method\":"@ + json_string(method)
        + ",\"params\":"@ + params_text + ",\"id\":"@ + json_string(id) + "}"@
}

/// `line` is the request line with these members, for some text of the
/// parameters.
pub open spec fn is_request_line(
    line: Seq<char>,
    jsonrpc: Seq<char>,
    method: Seq<char>,
    id: Seq<char>,
) -> bool {
    exists|p: Seq<char>| line == request_line(jsonrpc, method, p, id)
}

/// Relies on uuid::Uuid::new_v4 and its text, the lower-case hyphenated form
/// of 36 characters: a random, collision-resistant identifier.
#[verifier::external_body]
fn fresh_request_id() -> (r: String)
    ensures
        r@.len() == 36,
{
    uuid::Uuid::new_v4().to_string()
}

pub(crate) fn version_string() -> (r: String)
    ensures
        r@ == version_tag(),
{
    let mut s = String::new();
    s.append("2.0");
    proof {
        reveal_strlit("2.0");
    }
    assert(s@ =~= version_tag());
    s
}

impl RpcRequest {
    /// A request for `method` with a fresh random identifier, a UUID in its
    /// 36-character hyphenated form.
    pub fn new(method: String, params: Value) -> (r: RpcRequest)
        ensures
            r.jsonrpc@ == version_tag(),
            r.method == method,
            r.params == params,
            r.id@.len() == 36,
    {
        RpcRequest { jsonrpc: version_string(), method, params, id: fresh_request_id() }
    }

    /// A request for `method` carrying the identifier `id`.
    pub fn with_id(method: String, params: Value, id: String) -> (r: RpcRequest)
        ensures
            r.jsonrpc@ == version_tag(),
            r.method == method,
            r.params == params,
            r.id == id,
    {
        RpcRequest { jsonrpc: version_string(), method, params, id }
    }
}

/// Writes the request line for the given members, the parameters already
/// rendered as JSON text.
pub fn frame_request(jsonrpc: &str, method: &str, params_text: &str, id: &str) -> (r: String)
    ensures
        r@ == request_line(jsonrpc@, method@, params_text@, id@),
{
    let mut line = String::new();
    line.append("{\"jsonrpc\":");
    match json_string_literal(jsonrpc) {
        Ok(t) => line.append(t.as_str()),
        Err(_) => {},
    }
    line.append(",\"method\":");
    match json_string_literal(method) {
        Ok(t) => line.append(t.as_str()),
        Err(_) => {},
    }
    line.append(",\"params\":");
    line.append(params_text);
    line.append(",\"id\":");
    match json_string_literal(id) {
        Ok(t) => line.append(t.as_str()),
        Err(_) => {},
    }
    line.append("}");
    assert(line@ =~= request_line(jsonrpc@, method@, params_text@, id@));
    line
}

/// Serialises `req` to one line of JSON text, without its terminator.
pub fn encode_request(req: &RpcRequest) -> (r: Result<String, SidecarError>)
    ensures
        r is Ok,
        r matches Ok(line) ==> is_request_line(line@, req.jsonrpc@, req.method@, req.id@),
{
    match value_text(&req.params) {
        Ok(params_text) => {
            let line = frame_request(
                req.jsonrpc.as_str(),
                req.method.as_str(),
                params_text.as_str(),
                req.id.as_str(),
            );
            assert(line@ == request_line(req.jsonrpc@, req.method@, params_text@, req.id@));
            Ok(line)
        },
        Err(e) => Err(SidecarError::ProtocolError(e.to_string())),
    }
}

/// What follows the parameters in a request line.
spec fn id_tail(id: Seq<char>) -> Seq<char> {
    ",\"id\":"@ + json_string(id) + "}"@
}

/// What follows the method in a request line.
spec fn params_tail(params_text: Seq<char>, id: Seq<char>) -> Seq<char> {
    ",\"params\":"@ + (params_text + id_tail(id))
}

/// What follows the version tag in a request line.
spec fn method_tail(method: Seq<char>, params_text: Seq<char>, id: Seq<char>) -> Seq<char> {
    ",\"method\":"@ + (seq!['"'] + escaped(method) + seq!['"'] + params_tail(params_text, id))
}

proof fn lemma_request_line_shape(
    jsonrpc: Seq<char>,
    method: Seq<char>,
    params_text: Seq<char>,
    id: Seq<char>,
)
    ensures
        request_line(jsonrpc, method, params_text, id) == "{\"jsonrpc\":"@ + (seq!['"'] + escaped(
            jsonrpc,
        ) + seq!['"'] + method_tail(method, params_text, id)),
{
    assert(request_line(jsonrpc, method, params_text, id) =~= "{\"jsonrpc\":"@ + (seq!['"']
        + escaped(jsonrpc) + seq!['"'] + method_tail(method, params_text, id)));
}

proof fn lemma_strip_prefix(pre: Seq<char>, a: Seq<char>, b: Seq<char>)
    requires
        pre + a == pre + b,
    ensures
        a == b,
{
    assert(a =~= (pre + a).subrange(pre.len() as int, (pre + a).len() as int));
    assert(b =~= (pre + b).subrange(pre.len() as int, (pre + b).len() as int));
}

/// A string literal at the start of a text is read back with what follows.
proof fn lemma_literal_prefix(s1: Seq<char>, r1: Seq<char>, s2: Seq<char>, r2: Seq<char>)
    requires
        seq!['"'] + escaped(s1) + seq!['"'] + r1 == seq!['"'] + escaped(s2) + seq!['"'] + r2,
    ensures
        s1 == s2,
        r1 == r2,
{
    let x = seq!['"'] + escaped(s1) + seq!['"'] + r1;
    assert(x.drop_first() =~= escaped(s1) + seq!['"'] + r1);
    assert(x.drop_first() =~= escaped(s2) + seq!['"'] + r2);
    lemma_escaped_prefix(s1, s2, r1, r2);
}

/// Parameter texts of different lengths cannot be followed by identifier
/// tails that make the same line: a tail can only start where a quote
/// follows a comma, which never happens inside an escaped body.
proof fn lemma_id_tail_not_shorter(text_a: Seq<char>, i1: Seq<char>, text_b: Seq<char>, i2: Seq<char>)
    requires
        text_a + id_tail(i1) == text_b + id_tail(i2),
    ensures
        text_a.len() >= text_b.len(),
{
    reveal_strlit(",\"id\":");
    reveal_strlit("}");
    if text_a.len() < text_b.len() {
        let x1 = id_tail(i1);
        let x2 = id_tail(i2);
        let line = text_a + x1;
        let d = text_b.len() - text_a.len();
        let e1 = escaped(i1);
        let head = seq![',', '"', 'i', 'd', '"', ':', '"'];
        assert(x1 =~= head + e1 + seq!['"', '}']);
        assert(x2 =~= head + escaped(i2) + seq!['"', '}']);
        assert(line.subrange(text_b.len() as int, line.len() as int) =~= x2);
        assert(line.subrange(text_b.len() as int, line.len() as int) =~= x1.subrange(
            d,
            x1.len() as int,
        ));
        assert(x2[0] == ',' && x2[1] == '"');
        assert(x1[d] == ',');
        assert(x1[d + 1] == '"');
        if d < 7 {
            assert(x1[d] == head[d]);
        } else {
            lemma_escaped_quotes(i1);
            let k = d - 6;
            assert(x1[d + 1] == e1[k]);
            assert(x1[d] == e1[k - 1]);
        }
    }
}

proof fn lemma_id_tail_determines(text_a: Seq<char>, i1: Seq<char>, text_b: Seq<char>, i2: Seq<char>)
    requires
        text_a + id_tail(i1) == text_b + id_tail(i2),
    ensures
        text_a == text_b,
        i1 == i2,
{
    reveal_strlit(",\"id\":");
    reveal_strlit("}");
    lemma_id_tail_not_shorter(text_a, i1, text_b, i2);
    lemma_id_tail_not_shorter(text_b, i2, text_a, i1);
    let line = text_a + id_tail(i1);
    assert(text_a =~= line.subrange(0, text_a.len() as int));
    assert(text_b =~= line.subrange(0, text_b.len() as int));
    lemma_strip_prefix(text_a, id_tail(i1), id_tail(i2));
    let head = ",\"id\":"@;
    assert(id_tail(i1) =~= head + (seq!['"'] + escaped(i1) + seq!['"'] + "}"@));
    assert(id_tail(i2) =~= head + (seq!['"'] + escaped(i2) + seq!['"'] + "}"@));
    lemma_strip_prefix(
        head,
        seq!['"'] + escaped(i1) + seq!['"'] + "}"@,
        seq!['"'] + escaped(i2) + seq!['"'] + "}"@,
    );
    lemma_literal_prefix(i1, "}"@, i2, "}"@);
}

/// A request line determines its members: equal lines carry the same
/// version tag, method, parameter text and identifier, so reading a line
/// back recovers exactly what was framed into it.
pub proof fn lemma_request_line_determines_members(
    jsonrpc1: Seq<char>,
    method1: Seq<char>,
    params1: Seq<char>,
    id1: Seq<char>,
    jsonrpc2: Seq<char>,
    method2: Seq<char>,
    params2: Seq<char>,
    id2: Seq<char>,
)
    requires
        request_line(jsonrpc1, method1, params1, id1) == request_line(
            jsonrpc2,
            method2,
            params2,
            id2,
        ),
    ensures
        jsonrpc1 == jsonrpc2,
        method1 == method2,
        params1 == params2,
        id1 == id2,
{
    lemma_request_line_shape(jsonrpc1, method1, params1, id1);
    lemma_request_line_shape(jsonrpc2, method2, params2, id2);
    lemma_strip_prefix(
        "{\"jsonrpc\":"@,
        seq!['"'] + escaped(jsonrpc1) + seq!['"'] + method_tail(method1, params1, id1),
        seq!['"'] + escaped(jsonrpc2) + seq!['"'] + method_tail(method2, params2, id2),
    );
    lemma_literal_prefix(
        jsonrpc1,
        method_tail(method1, params1, id1),
        jsonrpc2,
        method_tail(method2, params2, id2),
    );
    lemma_strip_prefix(
        ",\"method\":"@,
        seq!['"'] + escaped(method1) + seq!['"'] + params_tail(params1, id1),
        seq!['"'] + escaped(method2) + seq!['"'] + params_tail(params2, id2),
    );
    lemma_literal_prefix(method1, params_tail(params1, id1), method2, params_tail(params2, id2));
    lemma_strip_prefix(",\"params\":"@, params1 + id_tail(id1), params2 + id_tail(id2));
    lemma_id_tail_determines(params1, id1, params2, id2);
}

/// An encoded request is read back unambiguously: a line that
/// `encode_request` may produce for two requests gives both the same version
/// tag, method and identifier.
pub proof fn lemma_encoded_line_determines_request(
    line: Seq<char>,
    jsonrpc1: Seq<char>,
    method1: Seq<char>,
    id1: Seq<char>,
    jsonrpc2: Seq<char>,
    method2: Seq<char>,
    id2: Seq<char>,
)
    requires
        is_request_line(line, jsonrpc1, method1, id1),
        is_request_line(line, jsonrpc2, method2, id2),
    ensures
        jsonrpc1 == jsonrpc2,
        method1 == method2,
        id1 == id2,
{
    let text_a = choose|p: Seq<char>| line == request_line(jsonrpc1, method1, p, id1);
    let text_b = choose|p: Seq<char>| line == request_line(jsonrpc2, method2, p, id2);
    lemma_request_line_determines_members(jsonrpc1, method1, text_a, id1, jsonrpc2, method2, text_b, id2);
}

} // verus!
