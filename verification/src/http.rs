use vstd::prelude::*;

pub use crate::html::{Link, list_to_str};

verus! {

/// The stored login of the reader, where one was remembered.
#[derive(Debug, Clone, PartialEq, Eq)]
pub struct Credentials {
    pub username: Option<String>,
    pub password: Option<String>,
}

impl Default for Credentials {
    fn default() -> (r: Credentials)
        ensures
            r.username is Some && r.username->0@ == ""@,
            r.password is Some && r.password->0@ == ""@,
    {
        Credentials { username: Some("".to_owned()), password: Some("".to_owned()) }
    }
}

impl Credentials {
    /// Whether both halves of a login are present and non-empty.
    pub fn is_complete(&self) -> (r: bool)
        ensures
            r == (self.username is Some && self.username->0@.len() > 0 && self.password is Some
                && self.password->0@.len() > 0),
    {
        let user_ok = match &self.username {
            Some(u) => !u.as_str().is_empty(),
            None => false,
        };
        let pass_ok = match &self.password {
            Some(p) => !p.as_str().is_empty(),
            None => false,
        };
        user_ok && pass_ok
    }
}

} // verus!
