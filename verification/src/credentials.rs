use vstd::prelude::*;

verus! {

/// The credential store: the two long-lived credentials are fixed for
/// the life of the process, the short-lived access key is replaced in
/// place by a refresh, and the user id is resolved once at startup.
pub struct Credentials {
    pub api_key: String,
    pub refresh_token: String,
    pub access_key: String,
    pub user_id: String,
}

impl Credentials {
    /// The long-lived credentials a store may be built from.
    pub open spec fn wf(self) -> bool {
        self.api_key@.len() > 0 && self.refresh_token@.len() > 0
    }

    pub fn new(api_key: String, refresh_token: String) -> (r: Credentials)
        requires
            api_key@.len() > 0,
            refresh_token@.len() > 0,
        ensures
            r.wf(),
            r.api_key@ == api_key@,
            r.refresh_token@ == refresh_token@,
            r.access_key@.len() == 0,
            r.user_id@.len() == 0,
    {
        Credentials { api_key, refresh_token, access_key: String::new(), user_id: String::new() }
    }

    /// A successful token exchange replaces the access key in place;
    /// nothing else changes.
    pub fn apply_refresh(&mut self, access_key: String)
        ensures
            final(self).access_key@ == access_key@,
            final(self).api_key == old(self).api_key,
            final(self).refresh_token == old(self).refresh_token,
            final(self).user_id == old(self).user_id,
            old(self).wf() ==> final(self).wf(),
    {
        self.access_key = access_key;
    }

    /// The user id is written once at startup; nothing else changes.
    pub fn apply_user_id(&mut self, user_id: String)
        ensures
            final(self).user_id@ == user_id@,
            final(self).api_key == old(self).api_key,
            final(self).refresh_token == old(self).refresh_token,
            final(self).access_key == old(self).access_key,
            old(self).wf() ==> final(self).wf(),
    {
        self.user_id = user_id;
    }
}

} // verus!
