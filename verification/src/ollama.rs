//! Handling of the local model server's responses: the strict single-key
//! embedding payload check, assembly of the newline-delimited JSON
//! generation stream, and the classification of transport and status
//! failures into the exact user-facing messages.
//!
//! The library never talks to the network itself: callers hand it the reply
//! they received as plain values, and every decision taken on that reply is
//! verified.  Only the per-line JSON reading is delegated to `serde_json`,
//! behind trusted wrappers whose results are named.

use vstd::prelude::*;
use vstd::string::StringExecFns;

use crate::text::{is_blank, spec_is_blank, spec_split_lines, spec_strip_after_marker, split_lines,
    strip_after_marker};
use crate::types::spec_opt_seq;

verus! {

/// What one generation-stream line carries: its `response` text fragment
/// and its `error` field, either of which may be absent.  A line that is
/// not a JSON document carries neither.  The result depends on the line's
/// characters alone.
pub uninterp spec fn stream_line_fields(line: Seq<char>) -> (Option<Seq<char>>, Option<Seq<char>>);

/// Relies on `serde_json::from_str::<Value>`: parses one stream line and
/// reads its `response` and `error` string fields; an unparseable line
/// yields neither field, matching a parser that skips such lines.
#[verifier::external_body]
fn parse_stream_line(line: &str) -> (r: (Option<String>, Option<String>))
    ensures
        spec_opt_seq(r.0) == stream_line_fields(line@).0,
        spec_opt_seq(r.1) == stream_line_fields(line@).1,
{
    match serde_json::from_str::<serde_json::Value>(line) {
        Ok(v) => (
            v.get("response").and_then(|x| x.as_str()).map(|s| s.to_string()),
            v.get("error").and_then(|x| x.as_str()).map(|s| s.to_string()),
        ),
        Err(_) => (None, None),
    }
}

/// Whether an embedding response body is an object whose only key is
/// `embedding`; `Err` carries the parser's message when the body is not a
/// JSON document at all.  The result depends on the body's characters
/// alone.
pub uninterp spec fn embedding_payload_of(body: Seq<char>) -> Result<bool, Seq<char>>;

/// Relies on `serde_json::from_str::<Value>`: checks that the embedding
/// response is a JSON object with `embedding` as its single key — the
/// strictness that keeps an error payload from being read as data.
#[verifier::external_body]
fn embedding_payload_shape(body: &str) -> (r: Result<bool, String>)
    ensures
        match r {
            Ok(b) => embedding_payload_of(body@) == Ok::<bool, Seq<char>>(b),
            Err(e) => embedding_payload_of(body@) matches Err(m) && m == e@,
        },
{
    match serde_json::from_str::<serde_json::Value>(body) {
        Ok(v) => Ok(
            v.get("embedding").is_some() && v.as_object().map_or(0, |o| o.len()) == 1,
        ),
        Err(e) => Err(e.to_string()),
    }
}

/// The `response` fragment of a line, or nothing.
pub open spec fn spec_line_resp(line: Seq<char>) -> Seq<char> {
    match stream_line_fields(line).0 {
        Some(t) => t,
        None => Seq::empty(),
    }
}

/// The concatenation of the `response` fragments of a sequence of lines.
pub open spec fn spec_resp_concat(lines: Seq<Seq<char>>) -> Seq<char>
    decreases lines.len(),
{
    if lines.len() == 0 {
        Seq::empty()
    } else {
        spec_line_resp(lines[0]) + spec_resp_concat(lines.drop_first())
    }
}

/// The assembled generation text, or the first mid-stream error: a line
/// carrying an `error` field aborts assembly and discards every fragment.
pub open spec fn spec_assemble(lines: Seq<Seq<char>>) -> Result<Seq<char>, Seq<char>>
    decreases lines.len(),
{
    if lines.len() == 0 {
        Ok(Seq::empty())
    } else if stream_line_fields(lines[0]).1 is Some {
        Err(stream_line_fields(lines[0]).1->Some_0)
    } else {
        match spec_assemble(lines.drop_first()) {
            Err(e) => Err(e),
            Ok(rest) => Ok(spec_line_resp(lines[0]) + rest),
        }
    }
}

proof fn lemma_assemble_split(lines: Seq<Seq<char>>, i: int)
    requires
        0 <= i <= lines.len(),
        forall|j: int| 0 <= j < i ==> (#[trigger] stream_line_fields(lines[j])).1 is None,
    ensures
        spec_assemble(lines) == match spec_assemble(lines.skip(i)) {
            Err(e) => Err::<Seq<char>, Seq<char>>(e),
            Ok(rest) => Ok(spec_resp_concat(lines.take(i)) + rest),
        },
    decreases i,
{
    if i == 0 {
        assert(lines.skip(0) =~= lines);
        assert(lines.take(0) =~= Seq::<Seq<char>>::empty());
        match spec_assemble(lines) {
            Err(e) => {},
            Ok(rest) => {
                assert(spec_resp_concat(lines.take(0)) + rest =~= rest);
            },
        }
    } else {
        let t = lines.drop_first();
        assert(t =~= lines.skip(1));
        assert(stream_line_fields(lines[0]).1 is None);
        assert forall|j: int| 0 <= j < i - 1 implies (#[trigger] stream_line_fields(
            t[j],
        )).1 is None by {
            assert(t[j] == lines[j + 1]);
        }
        lemma_assemble_split(t, i - 1);
        assert(t.skip(i - 1) =~= lines.skip(i));
        assert(t.take(i - 1) =~= lines.take(i).drop_first());
        assert(lines.take(i)[0] == lines[0]);
        match spec_assemble(lines.skip(i)) {
            Err(e) => {},
            Ok(rest) => {
                assert(spec_resp_concat(lines.take(i)) == spec_line_resp(lines[0])
                    + spec_resp_concat(t.take(i - 1)));
                assert(spec_line_resp(lines[0]) + (spec_resp_concat(t.take(i - 1)) + rest)
                    =~= spec_resp_concat(lines.take(i)) + rest);
            },
        }
    }
}

/// Assembles the generation text from a newline-delimited JSON body:
/// concatenates the `response` fragments in line order, aborts on the first
/// line carrying an `error` field (discarding all fragments), and treats a
/// blank assembled text as an explicit failure rather than empty success.
pub fn assemble_generation(body: &str) -> (r: Result<String, String>)
    ensures
        ({
            let lines = spec_split_lines(body@);
            match spec_assemble(lines) {
                Err(e) => r is Err && r->Err_0@ == "Ollama error: "@ + e,
                Ok(text) => if spec_is_blank(text) {
                    r is Err && r->Err_0@
                        == "Model generated empty response. Try a different prompt or model."@
                } else {
                    r is Ok && r->Ok_0@ == text
                },
            }
        }),
{
    let lines = split_lines(body);
    let ghost lv = spec_split_lines(body@);
    let mut acc = String::new();
    let mut i: usize = 0;
    proof {
        assert(acc@ =~= spec_resp_concat(lv.take(0)));
    }
    while i < lines.len()
        invariant
            i <= lines@.len(),
            lines@.len() == lv.len(),
            lv == spec_split_lines(body@),
            forall|k: int| 0 <= k < lines@.len() ==> (#[trigger] lines@[k])@ == lv[k],
            acc@ == spec_resp_concat(lv.take(i as int)),
            forall|j: int| 0 <= j < i ==> (#[trigger] stream_line_fields(lv[j])).1 is None,
        decreases lines@.len() - i,
    {
        let (resp, err) = parse_stream_line(lines[i].as_str());
        proof {
            assert(lines@[i as int]@ == lv[i as int]);
        }
        if let Some(e) = err {
            let mut msg = "Ollama error: ".to_owned();
            msg.append(e.as_str());
            proof {
                lemma_assemble_split(lv, i as int);
                assert(lv.skip(i as int).len() > 0);
                assert(lv.skip(i as int)[0] == lv[i as int]);
                assert(spec_assemble(lv.skip(i as int)) == Err::<Seq<char>, Seq<char>>(e@));
                assert(spec_assemble(lv) == Err::<Seq<char>, Seq<char>>(e@));
            }
            return Err(msg);
        }
        if let Some(t) = resp {
            acc.append(t.as_str());
        }
        proof {
            assert(lv.take(i + 1) =~= lv.take(i as int).push(lv[i as int]));
            lemma_resp_concat_push(lv.take(i as int), lv[i as int]);
            assert(acc@ =~= spec_resp_concat(lv.take(i as int)) + spec_line_resp(lv[i as int]));
        }
        i = i + 1;
    }
    proof {
        assert(lv.take(lv.len() as int) =~= lv);
        lemma_assemble_split(lv, lv.len() as int);
        assert(lv.skip(lv.len() as int) =~= Seq::<Seq<char>>::empty());
        assert(spec_assemble(lv) == Ok::<Seq<char>, Seq<char>>(
            spec_resp_concat(lv) + Seq::<char>::empty(),
        ));
        assert(spec_resp_concat(lv) + Seq::<char>::empty() =~= spec_resp_concat(lv));
    }
    if is_blank(acc.as_str()) {
        Err("Model generated empty response. Try a different prompt or model.".to_owned())
    } else {
        Ok(acc)
    }
}

proof fn lemma_resp_concat_push(lines: Seq<Seq<char>>, x: Seq<char>)
    ensures
        spec_resp_concat(lines.push(x)) == spec_resp_concat(lines) + spec_line_resp(x),
    decreases lines.len(),
{
    let p = lines.push(x);
    if lines.len() == 0 {
        assert(p[0] == x);
        assert(p.drop_first() =~= Seq::<Seq<char>>::empty());
        assert(spec_resp_concat(p) == spec_line_resp(x) + spec_resp_concat(
            Seq::<Seq<char>>::empty(),
        ));
        assert(spec_resp_concat(p) =~= spec_resp_concat(lines) + spec_line_resp(x));
    } else {
        assert(p[0] == lines[0]);
        assert(p.drop_first() =~= lines.drop_first().push(x));
        lemma_resp_concat_push(lines.drop_first(), x);
        assert(spec_resp_concat(p) == spec_line_resp(lines[0]) + (spec_resp_concat(
            lines.drop_first(),
        ) + spec_line_resp(x)));
        assert(spec_resp_concat(p) =~= spec_resp_concat(lines) + spec_line_resp(x));
    }
}

/// How a network call failed, as classified by the transport.
#[derive(Clone, Copy, Debug, PartialEq, Eq, Structural)]
pub enum TransportKind {
    /// The request timed out.
    Timeout,
    /// The connection could not be established.
    ConnectFailed,
    /// Any other transport failure; the caller carries its description.
    Other,
}

/// The message shown when an embedding request fails in transport.
pub open spec fn spec_embed_transport_msg(k: TransportKind, detail: Seq<char>) -> Seq<char> {
    match k {
        TransportKind::Timeout =>
            "Request to Ollama timed out. Check if Ollama is running and responsive."@,
        TransportKind::ConnectFailed =>
            "Failed to connect to Ollama. Make sure it's running on the correct URL."@,
        TransportKind::Other => "Failed to connect to Ollama: "@ + detail,
    }
}

/// Renders the transport-failure message for an embedding request.
pub fn embed_transport_message(k: TransportKind, detail: &str) -> (r: String)
    ensures
        r@ == spec_embed_transport_msg(k, detail@),
{
    match k {
        TransportKind::Timeout => "Request to Ollama timed out. Check if Ollama is running and responsive.".to_owned(),
        TransportKind::ConnectFailed => "Failed to connect to Ollama. Make sure it's running on the correct URL.".to_owned(),
        TransportKind::Other => {
            let mut m = "Failed to connect to Ollama: ".to_owned();
            m.append(detail);
            m
        },
    }
}

/// The message shown when a generation request fails in transport.
pub open spec fn spec_gen_transport_msg(k: TransportKind, detail: Seq<char>) -> Seq<char> {
    match k {
        TransportKind::Timeout =>
            "Request to Ollama timed out. The model might be large or the server is overloaded."@,
        TransportKind::ConnectFailed =>
            "Failed to connect to Ollama. Make sure it's running on the correct URL."@,
        TransportKind::Other => "Error connecting to Ollama: "@ + detail,
    }
}

/// Renders the transport-failure message for a generation request.
pub fn gen_transport_message(k: TransportKind, detail: &str) -> (r: String)
    ensures
        r@ == spec_gen_transport_msg(k, detail@),
{
    match k {
        TransportKind::Timeout => "Request to Ollama timed out. The model might be large or the server is overloaded.".to_owned(),
        TransportKind::ConnectFailed => "Failed to connect to Ollama. Make sure it's running on the correct URL.".to_owned(),
        TransportKind::Other => {
            let mut m = "Error connecting to Ollama: ".to_owned();
            m.append(detail);
            m
        },
    }
}

/// A status of 2xx is success.
pub open spec fn spec_status_ok(code: u16) -> bool {
    200 <= code < 300
}

/// Checks whether a status code means success.
pub fn status_ok(code: u16) -> (r: bool)
    ensures
        r == spec_status_ok(code),
{
    200 <= code && code < 300
}

/// The remediation message for a missing model: a 404 from the model server
/// means the model has not been pulled.
pub open spec fn spec_model_not_found_msg(model: Seq<char>) -> Seq<char> {
    "Model '"@ + model + "' not found. Try: ollama pull "@ + model
}

/// Renders the missing-model remediation message.
pub fn model_not_found_message(model: &str) -> (r: String)
    ensures
        r@ == spec_model_not_found_msg(model@),
{
    let mut m = "Model '".to_owned();
    m.append(model);
    m.append("' not found. Try: ollama pull ");
    m.append(model);
    m
}

/// The message shown when the model server answers an embedding request
/// with a non-success status: a 404 is surfaced as a missing model, any
/// other status with the status line and the body.
pub open spec fn spec_embed_status_msg(
    code: u16,
    code_text: Seq<char>,
    body: Seq<char>,
    model: Seq<char>,
) -> Seq<char> {
    if code == 404 {
        spec_model_not_found_msg(model)
    } else {
        "Ollama returned error status "@ + code_text + ": "@ + body
    }
}

/// Renders the non-success status message for an embedding request.
pub fn embed_status_message(code: u16, code_text: &str, body: &str, model: &str) -> (r: String)
    ensures
        r@ == spec_embed_status_msg(code, code_text@, body@, model@),
{
    if code == 404 {
        model_not_found_message(model)
    } else {
        let mut m = "Ollama returned error status ".to_owned();
        m.append(code_text);
        m.append(": ");
        m.append(body);
        m
    }
}

/// The message shown when the model server answers a generation request
/// with a non-success status.
pub open spec fn spec_gen_status_msg(
    code: u16,
    code_text: Seq<char>,
    body: Seq<char>,
    model: Seq<char>,
) -> Seq<char> {
    if code == 404 {
        spec_model_not_found_msg(model)
    } else {
        "Ollama server returned error status: "@ + code_text + "\n"@ + body
    }
}

/// Renders the non-success status message for a generation request.
pub fn gen_status_message(code: u16, code_text: &str, body: &str, model: &str) -> (r: String)
    ensures
        r@ == spec_gen_status_msg(code, code_text@, body@, model@),
{
    if code == 404 {
        model_not_found_message(model)
    } else {
        let mut m = "Ollama server returned error status: ".to_owned();
        m.append(code_text);
        m.append("\n");
        m.append(body);
        m
    }
}

/// What a successful-status embedding response body means: acceptance, or
/// the exact complaint.  An empty body, an unparseable body and a body of
/// any other shape than the single-key `embedding` object each get their
/// own message.
pub open spec fn spec_embed_body_outcome(body: Seq<char>) -> Result<(), Seq<char>> {
    if body.len() == 0 {
        Err("Received empty response from Ollama"@)
    } else {
        match embedding_payload_of(body) {
            Err(e) => Err("Failed to parse Ollama response: "@ + e),
            Ok(true) => Ok(()),
            Ok(false) => Err("Unexpected embedding response format: "@ + body),
        }
    }
}

/// Checks a successful-status embedding response body: accepts exactly the
/// single-key `embedding` object.
pub fn embedding_body_outcome(body: &str) -> (r: Result<(), String>)
    ensures
        match r {
            Ok(()) => spec_embed_body_outcome(body@) is Ok,
            Err(m) => spec_embed_body_outcome(body@) matches Err(e) && m@ == e,
        },
{
    if body.is_empty() {
        return Err("Received empty response from Ollama".to_owned());
    }
    match embedding_payload_shape(body) {
        Err(e) => {
            let mut m = "Failed to parse Ollama response: ".to_owned();
            m.append(e.as_str());
            Err(m)
        },
        Ok(true) => Ok(()),
        Ok(false) => {
            let mut m = "Unexpected embedding response format: ".to_owned();
            m.append(body);
            Err(m)
        },
    }
}

/// A network reply, as the caller observed it: either the transport failed,
/// or a status and a body arrived.
#[derive(Debug, Clone)]
pub enum HttpReply {
    Transport { kind: TransportKind, detail: String },
    Status { code: u16, code_text: String, body: String },
}

/// What an embedding reply means: acceptance, or the exact complaint — a
/// transport message, a status message, or a body-shape message.
pub open spec fn spec_embed_outcome(r: HttpReply, model: Seq<char>) -> Result<(), Seq<char>> {
    match r {
        HttpReply::Transport { kind, detail } => Err(spec_embed_transport_msg(kind, detail@)),
        HttpReply::Status { code, code_text, body } => if !spec_status_ok(code) {
            Err(spec_embed_status_msg(code, code_text@, body@, model))
        } else {
            spec_embed_body_outcome(body@)
        },
    }
}

/// Classifies an embedding reply into acceptance or its exact complaint.
pub fn embedding_outcome(reply: &HttpReply, model: &str) -> (r: Result<(), String>)
    ensures
        match r {
            Ok(()) => spec_embed_outcome(*reply, model@) is Ok,
            Err(m) => spec_embed_outcome(*reply, model@) matches Err(e) && m@ == e,
        },
{
    match reply {
        HttpReply::Transport { kind, detail } => Err(
            embed_transport_message(*kind, detail.as_str()),
        ),
        HttpReply::Status { code, code_text, body } => {
            if !status_ok(*code) {
                Err(embed_status_message(*code, code_text.as_str(), body.as_str(), model))
            } else {
                embedding_body_outcome(body.as_str())
            }
        },
    }
}

/// What a generation reply means: the assembled text, or the exact
/// complaint — a transport message, a status message, an empty-body
/// message, or an assembly failure.
pub open spec fn spec_gen_outcome(r: HttpReply, model: Seq<char>) -> Result<Seq<char>, Seq<char>> {
    match r {
        HttpReply::Transport { kind, detail } => Err(spec_gen_transport_msg(kind, detail@)),
        HttpReply::Status { code, code_text, body } => if !spec_status_ok(code) {
            Err(spec_gen_status_msg(code, code_text@, body@, model))
        } else if body@.len() == 0 {
            Err("Received empty response from Ollama"@)
        } else {
            match spec_assemble(spec_split_lines(body@)) {
                Err(e) => Err("Ollama error: "@ + e),
                Ok(text) => if spec_is_blank(text) {
                    Err("Model generated empty response. Try a different prompt or model."@)
                } else {
                    Ok(text)
                },
            }
        },
    }
}

/// Classifies a generation reply into its assembled text or its exact
/// complaint.
pub fn generation_outcome(reply: &HttpReply, model: &str) -> (r: Result<String, String>)
    ensures
        match r {
            Ok(t) => spec_gen_outcome(*reply, model@) matches Ok(e) && t@ == e,
            Err(m) => spec_gen_outcome(*reply, model@) matches Err(e) && m@ == e,
        },
{
    match reply {
        HttpReply::Transport { kind, detail } => Err(gen_transport_message(*kind, detail.as_str())),
        HttpReply::Status { code, code_text, body } => {
            if !status_ok(*code) {
                Err(gen_status_message(*code, code_text.as_str(), body.as_str(), model))
            } else if body.as_str().is_empty() {
                Err("Received empty response from Ollama".to_owned())
            } else {
                assemble_generation(body.as_str())
            }
        },
    }
}

/// The text surfaced to the user: everything after a `</think>` reasoning
/// marker, trimmed; the whole text, trimmed, when no marker is present.
pub open spec fn spec_strip_reasoning(s: Seq<char>) -> Seq<char> {
    spec_strip_after_marker(s, "</think>"@)
}

/// Strips a reasoning preamble: cuts everything up to and including the
/// first `</think>` marker and trims the rest; absent the marker, only
/// trims.
pub fn strip_reasoning(s: &str) -> (r: String)
    ensures
        r@ == spec_strip_reasoning(s@),
{
    proof {
        reveal_strlit("</think>");
    }
    strip_after_marker(s, "</think>")
}

} // verus!
