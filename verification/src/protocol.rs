//! The line protocol between the pool and a worker process: one JSON value
//! per line in each direction, after a ready line at start-up.

use crate::error::PoolError;
use crate::error::PoolErrorView;
use crate::json::has_no_line_break;
use crate::json::json_document;
use crate::json::json_flag;
use crate::json::json_member;
use crate::json::json_quoted;
use crate::json::json_text;
use crate::json::member;
use crate::json::parse;
use crate::json::quote;
use std::string::FromUtf8Error;
use vstd::prelude::*;
use vstd::utf8::decode_utf8;
use vstd::utf8::valid_utf8;

verus! {

/// `std::string::FromUtf8Error`: the bytes were not UTF-8.
#[verifier::external_type_specification]
#[verifier::external_body]
pub struct ExFromUtf8Error(FromUtf8Error);

/// A line feed or a carriage return.
pub open spec fn is_line_end(byte: u8) -> bool {
    byte == 10 || byte == 13
}

/// `line` without the line feeds and carriage returns at its end.
pub open spec fn stripped(line: Seq<u8>) -> Seq<u8>
    decreases line.len(),
{
    if line.len() > 0 && is_line_end(line.last()) {
        stripped(line.drop_last())
    } else {
        line
    }
}

/// The ready token that a worker writes once it accepts queries: `done`.
pub open spec fn ready_token() -> Seq<u8> {
    seq![100u8, 111u8, 110u8, 101u8]
}

/// The request for `query`, as it goes to the worker: a JSON object with the
/// task and the query, and the line feed that ends it.
pub open spec fn request_text(query: Seq<char>) -> Seq<char> {
    "{\"task\":\"query\",\"query\":"@ + json_quoted(query) + "}\n"@
}

/// What a reply line says once it is parsed: the `reply` text and the `ok`
/// flag of a JSON object. `None` where the text is no JSON, no object, or
/// lacks one of the two with the right kind of value.
pub open spec fn decoded_reply(text: Seq<char>) -> Option<(Seq<char>, bool)> {
    match json_document(text) {
        None => None,
        Some(document) => match (json_member(document, "reply"@), json_member(document, "ok"@)) {
            (Some(reply), Some(ok)) => match (json_text(reply), json_flag(ok)) {
                (Some(text), Some(flag)) => Some((text, flag)),
                _ => None,
            },
            _ => None,
        },
    }
}

/// What a decoded reply means for the caller: the reply text where the
/// worker said `ok`, the worker's own message as an error where it did not.
pub open spec fn reply_meaning(decoded: Option<(Seq<char>, bool)>) -> Result<
    Seq<char>,
    PoolErrorView,
> {
    match decoded {
        None => Err(PoolErrorView::MalformedJson),
        Some((reply, ok)) => if ok {
            Ok(reply)
        } else {
            Err(PoolErrorView::WorkerReportedError(reply))
        },
    }
}

/// What a line read from the worker means, from the raw bytes on.
pub open spec fn reply_outcome(raw: Seq<u8>) -> Result<Seq<char>, PoolErrorView> {
    let line = stripped(raw);
    if !valid_utf8(line) {
        Err(PoolErrorView::InvalidUtf8)
    } else {
        reply_meaning(decoded_reply(decode_utf8(line)))
    }
}

/// The view of a `Result` that carries a text or a failure.
pub open spec fn outcome_view(outcome: Result<String, PoolError>) -> Result<
    Seq<char>,
    PoolErrorView,
> {
    match outcome {
        Ok(text) => Ok(text@),
        Err(error) => Err(error@),
    }
}

/// `String::from_utf8`: the text that the bytes encode, or an error where
/// they are not UTF-8.
#[verifier::external_body]
fn text_of(bytes: Vec<u8>) -> (outcome: Result<String, FromUtf8Error>)
    ensures
        match outcome {
            Ok(text) => valid_utf8(bytes@) && text@ == decode_utf8(bytes@),
            Err(_) => !valid_utf8(bytes@),
        },
{
    String::from_utf8(bytes)
}

/// Removes the line feeds and carriage returns at the end of `line`.
pub fn strip_line_end(line: &mut Vec<u8>)
    ensures
        final(line)@ == stripped(old(line)@),
{
    while line.len() > 0 && (line[line.len() - 1] == 10 || line[line.len() - 1] == 13)
        invariant
            stripped(line@) == stripped(old(line)@),
        decreases line.len(),
    {
        let ghost before = line@;
        line.pop();
        assert(line@ =~= before.drop_last());
    }
}

/// What `stripped` keeps is the longest beginning of the line that does not
/// end in a line feed or a carriage return: it is a beginning of the line,
/// it does not end in either, and all that was removed is line feeds and
/// carriage returns. Stripping twice changes nothing more.
pub proof fn lemma_stripped(line: Seq<u8>)
    ensures
        stripped(line).len() <= line.len(),
        stripped(line) == line.take(stripped(line).len() as int),
        stripped(line).len() > 0 ==> !is_line_end(stripped(line).last()),
        forall|i: int| stripped(line).len() <= i < line.len() ==> is_line_end(line[i]),
        stripped(stripped(line)) == stripped(line),
    decreases line.len(),
{
    if line.len() > 0 && is_line_end(line.last()) {
        let front = line.drop_last();
        lemma_stripped(front);
        assert(front.take(stripped(front).len() as int) =~= line.take(
            stripped(front).len() as int,
        ));
        assert forall|i: int| stripped(line).len() <= i < line.len() implies is_line_end(
            line[i],
        ) by {
            if i < front.len() {
                assert(line[i] == front[i]);
            }
        }
    } else {
        assert(line.take(line.len() as int) =~= line);
    }
}

/// Whether `line`, already without its line ending, is the ready token.
pub fn is_ready_token(line: &Vec<u8>) -> (ready: bool)
    ensures
        ready == (line@ == ready_token()),
{
    let ready = line.len() == 4 && line[0] == 100 && line[1] == 111 && line[2] == 110 && line[3]
        == 101;
    assert(ready == (line@ =~= ready_token()));
    ready
}

/// The line to write for `query`.
pub fn request_line(query: &str) -> (line: String)
    ensures
        line@ == request_text(query@),
        line@.len() > 0,
        line@.last() == '\n',
        has_no_line_break(line@.drop_last()),
{
    let literal = quote(query);
    let line = String::from_str("{\"task\":\"query\",\"query\":").concat(literal.as_str()).concat(
        "}\n",
    );
    proof {
        reveal_strlit("{\"task\":\"query\",\"query\":");
        reveal_strlit("}\n");
        let head = "{\"task\":\"query\",\"query\":"@;
        let tail = "}\n"@;
        assert(has_no_line_break(head));
        assert(line@ =~= head + literal@ + tail);
        assert forall|i: int| 0 <= i < line@.drop_last().len() implies line@.drop_last()[i] != '\n'
            && line@.drop_last()[i] != '\r' by {
            if i < head.len() {
            } else if i < head.len() + literal@.len() {
                assert(line@.drop_last()[i] == literal@[i - head.len()]);
            } else {
                assert(line@.drop_last()[i] == tail[0]);
            }
        }
    }
    line
}

/// Parses a reply line: its `reply` text and its `ok` flag.
pub fn decode_reply(text: &str) -> (decoded: Option<(String, bool)>)
    ensures
        match decoded {
            Some((reply, ok)) => decoded_reply(text@) == Some((reply@, ok)),
            None => decoded_reply(text@).is_none(),
        },
{
    match parse(text) {
        Err(_) => None,
        Ok(document) => {
            let reply = match member(&document, "reply") {
                Some(inner) => inner.as_str(),
                None => None,
            };
            let ok = match member(&document, "ok") {
                Some(inner) => inner.as_bool(),
                None => None,
            };
            match (reply, ok) {
                (Some(reply), Some(ok)) => Some((reply.to_owned(), ok)),
                _ => None,
            }
        },
    }
}

/// Says what a decoded reply means for the caller.
pub fn interpret_reply(decoded: Option<(String, bool)>) -> (outcome: Result<String, PoolError>)
    ensures
        outcome_view(outcome) == reply_meaning(
            match decoded {
                Some((reply, ok)) => Some((reply@, ok)),
                None => None,
            },
        ),
{
    match decoded {
        None => Err(PoolError::MalformedJson),
        Some((reply, ok)) => if ok {
            Ok(reply)
        } else {
            Err(PoolError::WorkerReportedError(reply))
        },
    }
}

/// Reads a reply from the bytes of one line: strips the line ending, decodes
/// the text, parses it and says what it means.
pub fn parse_reply(raw: Vec<u8>) -> (outcome: Result<String, PoolError>)
    ensures
        outcome_view(outcome) == reply_outcome(raw@),
{
    let mut line = raw;
    strip_line_end(&mut line);
    match text_of(line) {
        Err(_) => Err(PoolError::InvalidUtf8),
        Ok(text) => interpret_reply(decode_reply(text.as_str())),
    }
}

} // verus!
