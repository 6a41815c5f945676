//! A plain model of the JSON values that the service replies with, and the
//! probe that tells an error reply from a value reply.
use vstd::prelude::*;

use crate::error::Error;
use vstd::string::StringExecFns;

verus! {

/// A JSON value; numbers keep their decimal text so that no precision is
/// lost, and object members keep their order.
#[derive(Debug)]
pub enum JsonValue {
    Null,
    Bool(bool),
    Number(String),
    Str(String),
    Array(Vec<JsonValue>),
    Object(Vec<(String, JsonValue)>),
}

} // verus!

verus! {

/// The message of the first member named `error` of an object's members,
/// when that member's value is a string.
pub open spec fn member_error(fields: Seq<(String, JsonValue)>) -> Option<Seq<char>>
    decreases fields.len(),
{
    if fields.len() == 0 {
        None
    } else if fields[0].0@ == "error"@ {
        match fields[0].1 {
            JsonValue::Str(m) => Some(m@),
            _ => None,
        }
    } else {
        member_error(fields.drop_first())
    }
}

/// The error message that a reply carries, if it has the error shape: an
/// object whose `error` member is a string.
pub open spec fn reply_error(v: JsonValue) -> Option<Seq<char>> {
    match v {
        JsonValue::Object(fields) => member_error(fields@),
        _ => None,
    }
}

/// Probes a reply for the error shape and returns its message.
pub fn api_error_message(value: &JsonValue) -> (r: Option<String>)
    ensures
        r is Some <==> reply_error(*value) is Some,
        r matches Some(m) ==> reply_error(*value) == Some(m@),
{
    match value {
        JsonValue::Object(fields) => {
            let key = String::from_str("error");
            proof {
                reveal_strlit("error");
            }
            let n = fields.len();
            assert(fields@.subrange(0, n as int) =~= fields@);
            assert(reply_error(*value) == member_error(fields@));
            for i in 0..n
                invariant
                    n == fields@.len(),
                    reply_error(*value) == member_error(fields@),
                    key@ == "error"@,
                    member_error(fields@) == member_error(fields@.subrange(i as int, n as int)),
            {
                proof {
                    assert(fields@.subrange(i as int, n as int).drop_first() =~= fields@.subrange(
                        i + 1,
                        n as int,
                    ));
                    assert(fields@.subrange(i as int, n as int)[0] == fields@[i as int]);
                }
                if fields[i].0 == key {
                    return match &fields[i].1 {
                        JsonValue::Str(m) => Some(m.clone()),
                        _ => None,
                    };
                }
            }
            assert(fields@.subrange(n as int, n as int).len() == 0);
            None
        },
        _ => None,
    }
}

/// What a reply resolves to: the service's error message if the reply has
/// the error shape, else the decoded value, else the decoding failure.
pub open spec fn reply_outcome<T>(value: JsonValue, decoded: Result<T, String>, r: Result<T, Error>) -> bool {
    match reply_error(value) {
        Some(m) => r matches Err(Error::JupiterApi(msg)) && msg@ == m,
        None => match decoded {
            Ok(t) => r == Ok::<T, Error>(t),
            Err(why) => r == Err::<T, Error>(Error::SerdeJson(why)),
        },
    }
}

/// Resolves a reply that is either an error message or a value: the error
/// shape is probed first and wins; only otherwise does the decoding of the
/// expected shape (`decoded`, made from the same reply) count.
pub fn maybe_jupiter_api_error<T>(value: &JsonValue, decoded: Result<T, String>) -> (r: Result<T, Error>)
    ensures
        reply_outcome(*value, decoded, r),
{
    match api_error_message(value) {
        Some(m) => Err(Error::JupiterApi(m)),
        None => match decoded {
            Ok(t) => Ok(t),
            Err(why) => Err(Error::SerdeJson(why)),
        },
    }
}

} // verus!
