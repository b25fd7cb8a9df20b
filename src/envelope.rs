use vstd::prelude::*;

use crate::error::Error;
use crate::json::{field, find_field, lemma_field_at, lemma_field_none, Json};

verus! {

/// `j` is the string `text`.
pub open spec fn is_text(j: Json, text: Seq<char>) -> bool {
    j is Str && j->Str_0@ == text
}

/// A field that is there and not `null`.
pub open spec fn present(v: Option<Json>) -> Option<Json> {
    match v {
        Some(Json::Null) => None,
        other => other,
    }
}

/// What a response envelope says: `Some(Ok(result))` for `"stat": "ok"` with
/// a result and neither message nor code; `Some(Err((message, code)))` for
/// `"stat": "fail"` with a message and a code and no result; `None` where the
/// document does not have the envelope's shape (not an object, an unknown or
/// missing status, a missing result, message or code, a result beside a
/// failure or a message or code beside a success, a message that is not a
/// string or a code that is not an integer). A `null` field counts as absent.
pub open spec fn envelope_of(doc: Json) -> Option<Result<Json, (String, i64)>> {
    match doc {
        Json::Object(fields) => {
            let stat = field(fields@, "stat"@);
            let result = present(field(fields@, "result"@));
            let message = present(field(fields@, "message"@));
            let code = present(field(fields@, "code"@));
            if !(message is None || message->0 is Str) || !(code is None || code->0 is Int) {
                None
            } else if stat is Some && is_text(stat->0, "ok"@) {
                if message is Some || code is Some {
                    None
                } else {
                    match result {
                        Some(v) => Some(Ok(v)),
                        None => None,
                    }
                }
            } else if stat is Some && is_text(stat->0, "fail"@) {
                if result is None && message is Some && code is Some {
                    Some(Err((message->0->Str_0, code->0->Int_0)))
                } else {
                    None
                }
            } else {
                None
            }
        },
        _ => None,
    }
}

/// `doc` is a success envelope that carries `result`.
pub open spec fn is_ok_envelope(doc: Json, result: Json) -> bool {
    doc is Object && {
        let fields = doc->Object_0@;
        &&& fields.len() == 2
        &&& fields[0].0@ == "stat"@
        &&& is_text(fields[0].1, "ok"@)
        &&& fields[1].0@ == "result"@
        &&& fields[1].1 == result
    }
}

/// The position of the field `key` where it is there and not `null`.
fn find_present(fields: &Vec<(String, Json)>, key: &str) -> (r: Option<usize>)
    ensures
        present(field(fields@, key@)) == match r {
            Some(i) => Some(fields@[i as int].1),
            None => None::<Json>,
        },
        r is Some ==> r->0 < fields@.len(),
{
    match find_field(fields, &key.to_owned()) {
        Some(i) => match &fields[i].1 {
            Json::Null => None,
            _ => Some(i),
        },
        None => None,
    }
}

/// Whether `j` is the string `text`.
fn has_text(j: &Json, text: &str) -> (r: bool)
    ensures
        r == is_text(*j, text@),
{
    match j {
        Json::Str(s) => *s == text.to_owned(),
        _ => false,
    }
}

/// Reads a response envelope: the result of a success, `ApiFailure` with
/// the message and code of a failure, `SerializationError` for a document
/// without the envelope's shape.
pub fn decode_envelope(doc: Json) -> (r: Result<Json, Error>)
    ensures
        match envelope_of(doc) {
            None => r is Err && r->Err_0 is SerializationError,
            Some(Ok(v)) => r == Ok::<Json, Error>(v),
            Some(Err((message, code))) => r == Err::<Json, Error>(Error::ApiFailure { message, code }),
        },
{
    let mut fields = match doc {
        Json::Object(fields) => fields,
        _ => {
            return Err(Error::SerializationError("response is not a JSON object".to_owned()));
        },
    };
    let message = find_present(&fields, "message");
    if let Some(i) = message {
        if !matches!(fields[i].1, Json::Str(_)) {
            return Err(Error::SerializationError("message is not a string".to_owned()));
        }
    }
    let code: Option<i64> = match find_present(&fields, "code") {
        Some(i) => match &fields[i].1 {
            Json::Int(n) => Some(*n),
            _ => {
                return Err(Error::SerializationError("code is not an integer".to_owned()));
            },
        },
        None => None,
    };
    let stat = find_field(&fields, &"stat".to_owned());
    let (is_ok, is_fail) = match stat {
        Some(i) => (has_text(&fields[i].1, "ok"), has_text(&fields[i].1, "fail")),
        None => (false, false),
    };
    if is_ok {
        if message.is_some() || code.is_some() {
            return Err(Error::SerializationError("success with a message or a code".to_owned()));
        }
        match find_present(&fields, "result") {
            Some(i) => {
                let (_, result) = fields.swap_remove(i);
                Ok(result)
            },
            None => Err(Error::SerializationError("success without a result".to_owned())),
        }
    } else if is_fail {
        if find_present(&fields, "result").is_some() {
            return Err(Error::SerializationError("failure with a result".to_owned()));
        }
        match (message, code) {
            (Some(i), Some(n)) => match fields.swap_remove(i).1 {
                Json::Str(text) => Err(Error::ApiFailure { message: text, code: n }),
                _ => Err(Error::SerializationError("message is not a string".to_owned())),
            },
            _ => Err(Error::SerializationError("failure without a message and a code".to_owned())),
        }
    } else {
        Err(Error::SerializationError("unknown response status".to_owned()))
    }
}

/// Wraps `result` in a success envelope.
pub fn encode_ok_envelope(result: Json) -> (r: Json)
    ensures
        is_ok_envelope(r, result),
{
    let mut fields: Vec<(String, Json)> = Vec::new();
    fields.push(("stat".to_owned(), Json::Str("ok".to_owned())));
    fields.push(("result".to_owned(), result));
    Json::Object(fields)
}

/// Decoding a success envelope gives back the value it carries, for every
/// value but `null`, which the envelope reads as a missing result.
pub proof fn lemma_ok_envelope_round_trip(doc: Json, result: Json)
    requires
        is_ok_envelope(doc, result),
        !(result is Null),
    ensures
        envelope_of(doc) == Some(Ok::<Json, (String, i64)>(result)),
{
    reveal_strlit("stat");
    reveal_strlit("result");
    reveal_strlit("message");
    reveal_strlit("code");
    let fields = doc->Object_0@;
    assert("message"@.len() != "stat"@.len());
    assert("message"@.len() != "result"@.len());
    assert("code"@[0] != "stat"@[0]);
    assert("code"@.len() != "result"@.len());
    assert("stat"@.len() != "result"@.len());
    assert(fields[0].0@ != "result"@);
    lemma_field_at(fields, "stat"@, 0);
    lemma_field_at(fields, "result"@, 1);
    lemma_field_none(fields, "message"@);
    lemma_field_none(fields, "code"@);
}

} // verus!
