//! Credentials for HTTP basic authentication.
use vstd::prelude::*;

verus! {

/// A user name and an optional password.
#[derive(Clone, Debug)]
pub struct SolrBasicAuth {
    pub username: String,
    pub password: Option<String>,
}

impl SolrBasicAuth {
    /// Credentials holding copies of `username` and `password`.
    pub fn new(username: &str, password: Option<&str>) -> (r: SolrBasicAuth)
        ensures
            r.username@ == username@,
            r.password is Some <==> password is Some,
            password is Some ==> r.password->Some_0@ == password->Some_0@,
    {
        let password = match password {
            Some(p) => Some(p.to_string()),
            None => None,
        };
        SolrBasicAuth { username: username.to_string(), password }
    }
}

} // verus!
