//! Canonical request digests: the JSON text that identifies the intent of a command or
//! a job page. `serde_json` rewrites a command's text canonically and writes strings;
//! the library decides which fields make up a digest and writes the objects.

use vstd::prelude::*;

use crate::errors::ApplicationError;
use crate::idempotency::RequestDigest;
use crate::ports::PageRequest;
use crate::text::decimal;

verus! {

/// The error `serde_json` reports when a text does not parse or a value cannot be written;
/// the library only carries it.
#[verifier::external_type_specification]
#[verifier::external_body]
pub struct ExJsonError(serde_json::Error);

/// The actor a command runs for, with its kind and origin by their serialized names.
#[derive(Clone, Debug)]
pub struct ActorContext {
    pub actor_id: String,
    pub actor_kind: String,
    pub delegated_by: Option<String>,
    pub role_refs: Vec<String>,
    pub request_origin: String,
}

/// The canonical JSON text of a command's JSON text, as `serde_json` writes the value
/// the text parses to (compact, object keys sorted); `None` when the text does not parse.
pub uninterp spec fn canonical_json(text: Seq<char>) -> Option<Seq<char>>;

/// The views of an optional text.
pub open spec fn opt_view(text: Option<String>) -> Option<Seq<char>> {
    match text {
        Some(t) => Some(t@),
        None => None,
    }
}

/// The views of a list of texts.
pub open spec fn texts_view(texts: Seq<String>) -> Seq<Seq<char>> {
    texts.map_values(|t: String| t@)
}

/// Rewrites a command's JSON text canonically.
///
/// Trusted: parses the text with `serde_json::from_str` into a `serde_json::Value` and
/// writes that value back with `serde_json::to_string`. The contract names the text
/// written, or the failure to parse, as a function of the input text alone; writing a
/// parsed value cannot fail, so an error means the text did not parse.
#[verifier::external_body]
fn canonical_command_text(text: &str) -> (r: Result<String, serde_json::Error>)
    ensures
        match r {
            Ok(canonical) => canonical_json(text@) == Some(canonical@),
            Err(_) => canonical_json(text@) is None,
        },
{
    let value: serde_json::Value = serde_json::from_str(text)?;
    serde_json::to_string(&value)
}

/// Writes a text as a JSON string.
///
/// Trusted: calls `serde_json::to_string` on the text. The contract states what
/// `serde_json`'s source writes for a string (`format_escaped_str` with the compact
/// formatter: quotes around it, quote, backslash and control characters escaped by its
/// escape table, lowercase `\u00XX` for the rest of them), and that writing a string to
/// memory does not fail.
#[verifier::external_body]
fn json_string_text(text: &str) -> (r: Result<String, serde_json::Error>)
    ensures
        r is Ok,
        r->Ok_0@ == json_string(text@),
{
    serde_json::to_string(text)
}

/// Texts written as JSON strings and separated by commas.
pub open spec fn json_string_list(texts: Seq<Seq<char>>) -> Seq<char>
    decreases texts.len(),
{
    if texts.len() == 0 {
        Seq::empty()
    } else if texts.len() == 1 {
        json_string(texts[0])
    } else {
        json_string_list(texts.drop_last()) + ","@ + json_string(texts.last())
    }
}

/// An optional text written as a JSON string, `null` when absent.
pub open spec fn json_optional_string(text: Option<Seq<char>>) -> Seq<char> {
    match text {
        Some(t) => json_string(t),
        None => "null"@,
    }
}

/// The digest text of a command: an object of the operation, the actor's id, kind,
/// delegate, roles and request origin, and the canonical command, with its keys in
/// sorted order and no spaces, as `serde_json` writes such an object.
pub open spec fn command_digest_json(
    operation: Seq<char>,
    actor_id: Seq<char>,
    actor_kind: Seq<char>,
    delegated_by: Option<Seq<char>>,
    role_refs: Seq<Seq<char>>,
    request_origin: Seq<char>,
    command: Seq<char>,
) -> Seq<char> {
    "{\"actor_id\":"@ + json_string(actor_id)
        + ",\"actor_kind\":"@ + json_string(actor_kind)
        + ",\"command\":"@ + command
        + ",\"delegated_by\":"@ + json_optional_string(delegated_by)
        + ",\"operation\":"@ + json_string(operation)
        + ",\"request_origin\":"@ + json_string(request_origin)
        + ",\"role_refs\":["@ + json_string_list(role_refs) + "]}"@
}

/// The digest text of a command, when its JSON text parses.
pub open spec fn command_digest_of(operation: Seq<char>, actor: ActorContext, command_json: Seq<char>) -> Option<Seq<char>> {
    match canonical_json(command_json) {
        Some(command) => Some(command_digest_json(
            operation,
            actor.actor_id@,
            actor.actor_kind@,
            opt_view(actor.delegated_by),
            texts_view(actor.role_refs@),
            actor.request_origin@,
            command,
        )),
        None => None,
    }
}

/// Appends a text written as a JSON string.
fn push_json_string(out: &mut String, text: &str)
    ensures
        final(out)@ == old(out)@ + json_string(text@),
{
    match json_string_text(text) {
        Ok(written) => out.append(written.as_str()),
        Err(_) => {},
    }
}

/// Appends an optional text written as a JSON string, or `null`.
fn push_json_optional_string(out: &mut String, text: &Option<String>)
    ensures
        final(out)@ == old(out)@ + json_optional_string(opt_view(*text)),
{
    match text {
        Some(t) => push_json_string(out, t.as_str()),
        None => {
            proof {
                reveal_strlit("null");
            }
            out.append("null");
        },
    }
}

/// Appends texts written as JSON strings and separated by commas.
fn push_json_string_list(out: &mut String, texts: &Vec<String>)
    ensures
        final(out)@ == old(out)@ + json_string_list(texts_view(texts@)),
{
    let ghost start = out@;
    let ghost all = texts_view(texts@);
    let mut i: usize = 0;
    while i < texts.len()
        invariant
            i <= texts@.len(),
            all == texts_view(texts@),
            all.len() == texts@.len(),
            out@ == start + json_string_list(all.take(i as int)),
        decreases texts.len() - i,
    {
        proof {
            reveal_strlit(",");
            assert(all.take(i + 1).drop_last() =~= all.take(i as int));
            assert(all.take(i + 1).last() == texts@[i as int]@);
        }
        if i > 0 {
            out.append(",");
        } else {
            assert(all.take(0) =~= Seq::<Seq<char>>::empty());
            assert(all.take(1)[0] == all.take(1).last());
        }
        push_json_string(out, texts[i].as_str());
        proof {
            assert(out@ =~= start + json_string_list(all.take(i + 1)));
        }
        i = i + 1;
    }
    proof {
        assert(all.take(texts@.len() as int) =~= all);
    }
}

impl RequestDigest {
    /// Builds a canonical command digest from stable business input only: the operation,
    /// the actor's id, kind, delegate, roles and request origin, and the command's JSON
    /// text rewritten canonically. A command text that does not parse has no digest.
    pub fn from_canonical_command_input(operation: &String, actor: &ActorContext, command_json: &String) -> (r: Result<RequestDigest, serde_json::Error>)
        ensures
            match r {
                Ok(digest) => command_digest_of(operation@, *actor, command_json@) == Some(digest.0@),
                Err(_) => command_digest_of(operation@, *actor, command_json@) is None,
            },
    {
        let command = match canonical_command_text(command_json.as_str()) {
            Ok(command) => command,
            Err(error) => return Err(error),
        };
        proof {
            reveal_strlit("{\"actor_id\":");
            reveal_strlit(",\"actor_kind\":");
            reveal_strlit(",\"command\":");
            reveal_strlit(",\"delegated_by\":");
            reveal_strlit(",\"operation\":");
            reveal_strlit(",\"request_origin\":");
            reveal_strlit(",\"role_refs\":[");
            reveal_strlit("]}");
        }
        let mut text = String::from_str("{\"actor_id\":");
        push_json_string(&mut text, actor.actor_id.as_str());
        text.append(",\"actor_kind\":");
        push_json_string(&mut text, actor.actor_kind.as_str());
        text.append(",\"command\":");
        text.append(command.as_str());
        text.append(",\"delegated_by\":");
        push_json_optional_string(&mut text, &actor.delegated_by);
        text.append(",\"operation\":");
        push_json_string(&mut text, operation.as_str());
        text.append(",\"request_origin\":");
        push_json_string(&mut text, actor.request_origin.as_str());
        text.append(",\"role_refs\":[");
        push_json_string_list(&mut text, &actor.role_refs);
        text.append("]}");
        proof {
            assert(text@ =~= command_digest_json(
                operation@,
                actor.actor_id@,
                actor.actor_kind@,
                opt_view(actor.delegated_by),
                texts_view(actor.role_refs@),
                actor.request_origin@,
                command@,
            ));
        }
        Ok(RequestDigest(text))
    }
}

/// A command whose digest cannot be written is an invalid request.
pub fn command_digest(digest: Result<RequestDigest, serde_json::Error>) -> (r: Result<RequestDigest, ApplicationError>)
    ensures
        digest is Ok ==> r is Ok && r->Ok_0 == digest->Ok_0,
        digest is Err ==> r == Err::<RequestDigest, ApplicationError>(ApplicationError::InvalidRequest),
{
    match digest {
        Ok(digest) => Ok(digest),
        Err(_) => Err(ApplicationError::InvalidRequest),
    }
}

/// The lowercase hexadecimal digit of `d` (below sixteen).
pub open spec fn hex_digit(d: int) -> char {
    seq!['0', '1', '2', '3', '4', '5', '6', '7', '8', '9', 'a', 'b', 'c', 'd', 'e', 'f'][d]
}

/// How `serde_json` writes one character inside a JSON string: quote, backslash and
/// the control characters are escaped, the short forms where JSON has one.
pub open spec fn escaped_char(c: char) -> Seq<char> {
    let u = c as u32;
    if c == '"' {
        seq!['\\', '"']
    } else if c == '\\' {
        seq!['\\', '\\']
    } else if u == 0x08 {
        seq!['\\', 'b']
    } else if u == 0x09 {
        seq!['\\', 't']
    } else if u == 0x0A {
        seq!['\\', 'n']
    } else if u == 0x0C {
        seq!['\\', 'f']
    } else if u == 0x0D {
        seq!['\\', 'r']
    } else if u < 0x20 {
        seq!['\\', 'u', '0', '0', hex_digit((u / 16) as int), hex_digit((u % 16) as int)]
    } else {
        seq![c]
    }
}

/// A text written as a JSON string.
pub open spec fn json_string(s: Seq<char>) -> Seq<char> {
    seq!['"'] + s.map_values(|c: char| escaped_char(c)).flatten() + seq!['"']
}

/// The digest text of a job page: `{"operation":…,"page_limit":…,"page_token":…}`,
/// compact, the token `null` when absent.
pub open spec fn job_digest_json(operation: Seq<char>, limit: u32, token: Option<Seq<char>>) -> Seq<char> {
    "{\"operation\":"@ + json_string(operation) + ",\"page_limit\":"@ + decimal(limit as nat)
        + ",\"page_token\":"@ + match token {
        Some(t) => json_string(t),
        None => "null"@,
    } + "}"@
}

/// Writes the digest text of a job page: its operation, page limit and token.
pub(crate) fn job_digest_text(operation: &str, page: &PageRequest) -> (r: String)
    ensures
        r@ == job_digest_json(operation@, page.limit, opt_view(page.page_token)),
{
    proof {
        reveal_strlit("{\"operation\":");
        reveal_strlit(",\"page_limit\":");
        reveal_strlit(",\"page_token\":");
        reveal_strlit("}");
    }
    let mut text = String::from_str("{\"operation\":");
    push_json_string(&mut text, operation);
    text.append(",\"page_limit\":");
    text.append(crate::text::u64_to_decimal(page.limit as u64).as_str());
    text.append(",\"page_token\":");
    push_json_optional_string(&mut text, &page.page_token);
    text.append("}");
    proof {
        assert(text@ =~= job_digest_json(operation@, page.limit, opt_view(page.page_token)));
    }
    text
}

} // verus!
