use vstd::prelude::*;
use vstd::string::StrSliceExecFns;

use crate::credentials::Credentials;
use crate::error::Error;

verus! {

/// The base URL of the production service.
pub const DEFAULT_ENDPOINT: &'static str = "https://tuner.pandora.com/services/json/";

/// The most characters a URL is built from: the endpoint and every name and
/// value of its query together. The URL parser keeps positions in 32 bits
/// and panics on a URL beyond them; a character takes at most 12 bytes once
/// percent-encoded, so this bound keeps every URL well within that.
pub const MAX_URL_TEXT_LEN: usize = 100_000_000;

/// The longest endpoint accepted, in characters. The host of an endpoint
/// goes through IDNA's punycode encoder, whose running count is a `u32` and
/// overflows (a panic where overflow is checked) on a host long enough: one
/// character maps to at most 18, and each step adds at most the widest code
/// point gap, 1,114,113, so `18 * 200 * 1_114_113` stays below `u32::MAX`.
pub const MAX_ENDPOINT_LEN: usize = 200;

/// The characters of the query pairs, with a separator and an `=` for each.
pub open spec fn params_len(q: Seq<(Seq<char>, Seq<char>)>) -> int
    decreases q.len(),
{
    if q.len() == 0 {
        0
    } else {
        params_len(q.drop_last()) + q.last().0.len() + q.last().1.len() + 2
    }
}

/// The characters a URL is built from: the base and its query pairs.
pub open spec fn url_text_len(base: Seq<char>, q: Seq<(Seq<char>, Seq<char>)>) -> int {
    base.len() + params_len(q)
}

/// The error of `url::Url::parse_with_params`, carried through opaque and
/// mapped to `Error::MalformedEndpoint`.
#[verifier::external_type_specification]
#[verifier::external_body]
pub struct ExParseError(url::ParseError);

/// The text of the URL that `base` gives once `pairs` are appended to its
/// query, form-urlencoded and in order; `None` where `base` does not parse.
pub uninterp spec fn url_with_params(base: Seq<char>, pairs: Seq<(Seq<char>, Seq<char>)>) -> Option<Seq<char>>;

/// The pairs of strings, as text.
pub open spec fn pair_views(pairs: Seq<(String, String)>) -> Seq<(Seq<char>, Seq<char>)> {
    pairs.map_values(|p: (String, String)| (p.0@, p.1@))
}

/// Relies on `url::Url::parse_with_params` (then `Url::into_string`): it
/// parses `base` and, only where that succeeds, appends the pairs to the
/// query; so whether it fails depends on `base` alone.
#[verifier::external_body]
fn parse_with_params(base: &str, pairs: &Vec<(String, String)>) -> (r: Result<String, url::ParseError>)
    requires
        base@.len() <= MAX_ENDPOINT_LEN,
        url_text_len(base@, pair_views(pairs@)) <= MAX_URL_TEXT_LEN,
    ensures
        url_with_params(base@, pair_views(pairs@)) == match r {
            Ok(u) => Some(u@),
            Err(_) => None::<Seq<char>>,
        },
        r is Ok <==> url_with_params(base@, seq![]) is Some,
{
    match url::Url::parse_with_params(base, pairs.iter()) {
        Ok(u) => Ok(u.into_string()),
        Err(e) => Err(e),
    }
}

/// The query parameter `name` for an optional credential field: one pair
/// where the field is present, none where it is absent.
pub open spec fn optional_param(name: Seq<char>, value: Option<String>) -> Seq<(Seq<char>, Seq<char>)> {
    match value {
        Some(v) => seq![(name, v@)],
        None => seq![],
    }
}

/// The query of a call: the method name, then `auth_token`, `partner_id`
/// and `user_id`, each only where the credentials hold it.
pub open spec fn query_of(method: Seq<char>, c: Credentials) -> Seq<(Seq<char>, Seq<char>)> {
    seq![("method"@, method)] + optional_param("auth_token"@, c.auth_token) + optional_param(
        "partner_id"@,
        c.partner_id,
    ) + optional_param("user_id"@, c.user_id)
}

fn push_optional(pairs: &mut Vec<(String, String)>, name: &str, value: &Option<String>)
    ensures
        pair_views(final(pairs)@) == pair_views(old(pairs)@) + optional_param(name@, *value),
{
    let ghost start = pairs@;
    if let Some(v) = value {
        pairs.push((name.to_owned(), v.clone()));
        assert(pair_views(pairs@) =~= pair_views(start) + optional_param(name@, *value));
    } else {
        assert(pair_views(pairs@) =~= pair_views(start) + optional_param(name@, *value));
    }
}

/// The query parameters of a call, in the order they are sent.
pub fn query_pairs(method: &str, credentials: &Credentials) -> (r: Vec<(String, String)>)
    ensures
        pair_views(r@) == query_of(method@, *credentials),
{
    let mut pairs: Vec<(String, String)> = Vec::new();
    pairs.push(("method".to_owned(), method.to_owned()));
    assert(pair_views(pairs@) =~= seq![("method"@, method@)]);
    push_optional(&mut pairs, "auth_token", &credentials.auth_token);
    push_optional(&mut pairs, "partner_id", &credentials.partner_id);
    push_optional(&mut pairs, "user_id", &credentials.user_id);
    pairs
}

/// The URL of a call: the endpoint with the query of `query_of`. It fails
/// with `MalformedEndpoint`, holding the endpoint, exactly where the
/// endpoint does not parse as a URL.
pub fn build_url(endpoint: &str, method: &str, credentials: &Credentials) -> (r: Result<String, Error>)
    requires
        endpoint@.len() <= MAX_ENDPOINT_LEN,
        url_text_len(endpoint@, query_of(method@, *credentials)) <= MAX_URL_TEXT_LEN,
    ensures
        match url_with_params(endpoint@, query_of(method@, *credentials)) {
            Some(u) => r is Ok && r->Ok_0@ == u,
            None => r is Err && r->Err_0 is MalformedEndpoint && r->Err_0->MalformedEndpoint_0@ == endpoint@,
        },
        r is Ok <==> url_with_params(endpoint@, seq![]) is Some,
{
    let pairs = query_pairs(method, credentials);
    match parse_with_params(endpoint, &pairs) {
        Ok(u) => Ok(u),
        Err(_) => Err(Error::MalformedEndpoint(endpoint.to_owned())),
    }
}

/// Whether a call of `method` at `endpoint` stays within the endpoint's
/// bound and the characters a URL may be built from, so that `build_url`
/// may be called.
pub fn fits_url_limit(endpoint: &str, method: &str, credentials: &Credentials) -> (r: bool)
    ensures
        r == (endpoint@.len() <= MAX_ENDPOINT_LEN && url_text_len(endpoint@, query_of(method@, *credentials))
            <= MAX_URL_TEXT_LEN),
{
    let pairs = query_pairs(method, credentials);
    let ghost q = pair_views(pairs@);
    let base = endpoint.unicode_len();
    if base > MAX_ENDPOINT_LEN {
        return false;
    }
    let mut total: usize = base;
    let mut i: usize = 0;
    while i < pairs.len()
        invariant
            q == pair_views(pairs@),
            q == query_of(method@, *credentials),
            i <= pairs@.len(),
            total <= MAX_URL_TEXT_LEN,
            total == endpoint@.len() + params_len(q.take(i as int)),
        decreases pairs@.len() - i,
    {
        let name = pairs[i].0.as_str().unicode_len();
        let value = pairs[i].1.as_str().unicode_len();
        proof {
            assert(q.take(i + 1).drop_last() =~= q.take(i as int));
            assert(q.take(i + 1).last() == q[i as int]);
            assert(q[i as int] == (pairs@[i as int].0@, pairs@[i as int].1@));
            assert(params_len(q.take(i + 1)) == params_len(q.take(i as int)) + name + value + 2);
        }
        if name > MAX_URL_TEXT_LEN - total || value > MAX_URL_TEXT_LEN - total - name || 2 > MAX_URL_TEXT_LEN
            - total - name - value {
            proof {
                lemma_params_len_grows(q, i as int + 1);
            }
            return false;
        }
        total = total + name + value + 2;
        i = i + 1;
    }
    assert(q.take(i as int) =~= q);
    true
}

/// A longer prefix of the query has at least as many characters.
proof fn lemma_params_len_grows(q: Seq<(Seq<char>, Seq<char>)>, n: int)
    requires
        0 <= n <= q.len(),
    ensures
        params_len(q.take(n)) <= params_len(q),
    decreases q.len() - n,
{
    if n < q.len() {
        lemma_params_len_grows(q, n + 1);
        assert(q.take(n + 1).drop_last() =~= q.take(n));
    } else {
        assert(q.take(n) =~= q);
    }
}

/// Whether the query has a parameter called `name`.
pub open spec fn has_param(q: Seq<(Seq<char>, Seq<char>)>, name: Seq<char>) -> bool {
    exists|i: int| 0 <= i < q.len() && #[trigger] q[i].0 == name
}

/// The query starts with the method; a credential field has a parameter
/// exactly where it is present, carrying its value; the parameters come in
/// the order `auth_token`, `partner_id`, `user_id`, with nothing between.
pub proof fn lemma_query_lists_present_fields(method: Seq<char>, c: Credentials)
    ensures
        ({
            let q = query_of(method, c);
            let a: int = if c.auth_token is Some { 1 } else { 0 };
            let p: int = if c.partner_id is Some { 1 } else { 0 };
            let u: int = if c.user_id is Some { 1 } else { 0 };
            &&& q.len() == 1 + a + p + u
            &&& q[0] == ("method"@, method)
            &&& has_param(q, "auth_token"@) <==> c.auth_token is Some
            &&& has_param(q, "partner_id"@) <==> c.partner_id is Some
            &&& has_param(q, "user_id"@) <==> c.user_id is Some
            &&& c.auth_token is Some ==> q[1] == ("auth_token"@, c.auth_token->0@)
            &&& c.partner_id is Some ==> q[1 + a] == ("partner_id"@, c.partner_id->0@)
            &&& c.user_id is Some ==> q[1 + a + p] == ("user_id"@, c.user_id->0@)
        }),
{
    reveal_strlit("method");
    reveal_strlit("auth_token");
    reveal_strlit("partner_id");
    reveal_strlit("user_id");
    assert("auth_token"@[0] != "partner_id"@[0]);
    assert("auth_token"@ != "partner_id"@);
    assert("auth_token"@.len() != "user_id"@.len());
    assert("auth_token"@.len() != "method"@.len());
    assert("partner_id"@.len() != "user_id"@.len());
    assert("partner_id"@.len() != "method"@.len());
    assert("user_id"@.len() != "method"@.len());
    let q = query_of(method, c);
    let a: int = if c.auth_token is Some { 1 } else { 0 };
    let p: int = if c.partner_id is Some { 1 } else { 0 };
    let q0 = seq![("method"@, method)];
    let q1 = q0 + optional_param("auth_token"@, c.auth_token);
    let q2 = q1 + optional_param("partner_id"@, c.partner_id);
    assert(q == q2 + optional_param("user_id"@, c.user_id));
    assert(q[0] == q0[0]);
    if c.auth_token is Some {
        assert(q[1] == q1[1]);
        assert(q[1].0 == "auth_token"@);
    }
    if c.partner_id is Some {
        assert(q[1 + a] == q2[1 + a]);
        assert(q[1 + a].0 == "partner_id"@);
    }
    if c.user_id is Some {
        assert(q[1 + a + p].0 == "user_id"@);
    }
    assert forall|i: int| 0 <= i < q.len() implies
        (q[i].0 == "method"@ && i == 0)
        || (q[i].0 == "auth_token"@ && c.auth_token is Some)
        || (q[i].0 == "partner_id"@ && c.partner_id is Some)
        || (q[i].0 == "user_id"@ && c.user_id is Some) by {
        if i >= q2.len() {
            assert(q[i] == optional_param("user_id"@, c.user_id)[i - q2.len()]);
        } else if i >= q1.len() {
            assert(q[i] == q2[i]);
            assert(q2[i] == optional_param("partner_id"@, c.partner_id)[i - q1.len()]);
        } else if i >= 1 {
            assert(q[i] == q2[i]);
            assert(q2[i] == q1[i]);
            assert(q1[i] == optional_param("auth_token"@, c.auth_token)[i - 1]);
        } else {
            assert(q[i] == q1[i]);
        }
    }
}

} // verus!
