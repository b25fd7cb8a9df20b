use vstd::prelude::*;

use crate::credentials::Credentials;
use crate::json::{field, keyed, lemma_with_field, set_field, with_key, Json};

verus! {

/// The fields a request body starts from: those of the caller's object, or
/// none where the caller gives no body; `None` where the caller's body is not
/// an object.
pub open spec fn base_fields(body: Option<Json>) -> Option<Seq<(String, Json)>> {
    match body {
        None => Some(seq![]),
        Some(Json::Object(fields)) => Some(fields@),
        Some(_) => None,
    }
}

/// What a body field holds after a credential field is merged: the
/// credential's text where it is present, else what the field held before.
pub open spec fn merged_value(credential: Option<String>, before: Option<Json>) -> Option<Json> {
    match credential {
        Some(s) => Some(Json::Str(s)),
        None => before,
    }
}

/// The fields after a credential field is merged under `key`: set to the
/// credential's text where it is present, unchanged where it is absent.
pub open spec fn with_credential(fields: Seq<(Seq<char>, Json)>, key: Seq<char>, credential: Option<String>) -> Seq<
    (Seq<char>, Json),
> {
    match credential {
        Some(s) => with_key(fields, key, Json::Str(s)),
        None => fields,
    }
}

/// `r` is the body sent for `body` under the credentials `c`: an object body
/// (an empty one where none is given) gets `syncTime` and `userAuthToken`
/// from the credentials where they are present (in place where the field is
/// there, else at the end) and keeps every other field; a body that is not
/// an object goes out as it is.
pub open spec fn is_authenticated_body(body: Option<Json>, c: Credentials, r: Json) -> bool {
    match base_fields(body) {
        None => r == body->0,
        Some(before) => r is Object && {
            let after = r->Object_0@;
            &&& keyed(after) == with_credential(
                with_credential(keyed(before), "syncTime"@, c.sync_time),
                "userAuthToken"@,
                c.user_auth_token,
            )
            &&& field(after, "syncTime"@) == merged_value(c.sync_time, field(before, "syncTime"@))
            &&& field(after, "userAuthToken"@) == merged_value(
                c.user_auth_token,
                field(before, "userAuthToken"@),
            )
            &&& forall|k: Seq<char>|
                k != "syncTime"@ && k != "userAuthToken"@ ==> #[trigger] field(after, k) == field(before, k)
        },
    }
}

/// Sets the field `name` to the credential's text where it is present.
fn merge_credential(fields: &mut Vec<(String, Json)>, name: &str, credential: &Option<String>)
    ensures
        field(final(fields)@, name@) == merged_value(*credential, field(old(fields)@, name@)),
        forall|k: Seq<char>| k != name@ ==> #[trigger] field(final(fields)@, k) == field(old(fields)@, k),
        keyed(final(fields)@) == with_credential(keyed(old(fields)@), name@, *credential),
{
    if let Some(s) = credential {
        let ghost start = fields@;
        let key = name.to_owned();
        let value = Json::Str(s.clone());
        set_field(fields, key, value);
        proof {
            lemma_with_field(start, key, value, name@);
            assert forall|k: Seq<char>| k != name@ implies #[trigger] field(fields@, k) == field(start, k) by {
                lemma_with_field(start, key, value, k);
            }
        }
    }
}

/// The body sent with a call: the caller's body, or an empty object, with
/// `syncTime` and `userAuthToken` set from the credentials where they are
/// present. A body that is not an object is left as it is.
pub fn authenticate_body(body: Option<Json>, credentials: &Credentials) -> (r: Json)
    ensures
        is_authenticated_body(body, *credentials, r),
{
    let start = match body {
        Some(b) => b,
        None => Json::Object(Vec::new()),
    };
    match start {
        Json::Object(fields) => {
            let mut fields = fields;
            merge_credential(&mut fields, "syncTime", &credentials.sync_time);
            merge_credential(&mut fields, "userAuthToken", &credentials.user_auth_token);
            proof {
                reveal_strlit("syncTime");
                reveal_strlit("userAuthToken");
                assert("syncTime"@.len() != "userAuthToken"@.len());
            }
            Json::Object(fields)
        },
        other => other,
    }
}

} // verus!
