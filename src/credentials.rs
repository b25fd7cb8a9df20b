use vstd::prelude::*;

verus! {

/// The identity and session fields sent with a call. A field that is `None`
/// is left out of the request.
#[derive(Clone, Debug, PartialEq)]
pub struct Credentials {
    pub auth_token: Option<String>,
    pub partner_id: Option<String>,
    pub user_id: Option<String>,
    pub user_auth_token: Option<String>,
    pub sync_time: Option<String>,
}

impl Credentials {
    /// Credentials of an anonymous call: every field absent.
    pub open spec fn is_anonymous(&self) -> bool {
        &&& self.auth_token is None
        &&& self.partner_id is None
        &&& self.user_id is None
        &&& self.user_auth_token is None
        &&& self.sync_time is None
    }
}

impl Default for Credentials {
    fn default() -> (r: Credentials)
        ensures
            r.is_anonymous(),
    {
        Credentials { auth_token: None, partner_id: None, user_id: None, user_auth_token: None, sync_time: None }
    }
}

} // verus!
