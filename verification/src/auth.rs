//! Credentials for the feed's login, and the checks on what the login
//! endpoints answer.  The HTTP session itself is handled outside; the
//! tokens it yields are validated here.

use vstd::prelude::*;

use crate::api::Holland2StayError;

verus! {

/// A username and password for the feed.
pub struct Auth {
    username: String,
    password: String,
}

impl Auth {
    pub closed spec fn spec_username(self) -> Seq<char> {
        self.username@
    }

    pub closed spec fn spec_password(self) -> Seq<char> {
        self.password@
    }

    pub fn new(username: String, password: String) -> (r: Auth)
        ensures
            r.spec_username() == username@,
            r.spec_password() == password@,
    {
        Auth { username, password }
    }

    pub fn username(&self) -> (r: &String)
        ensures
            r@ == self.spec_username(),
    {
        &self.username
    }

    pub fn password(&self) -> (r: &String)
        ensures
            r@ == self.spec_password(),
    {
        &self.password
    }
}

/// The token an authentication answer carried, or the conversion error
/// naming what could not be read.
pub fn token_or_conversion_error(token: Option<String>, context: &str) -> (r: Result<
    String,
    Holland2StayError,
>)
    ensures
        match token {
            Some(t) => r matches Ok(t2) && t2 == t,
            None => r matches Err(Holland2StayError::ConversionError(m)) && m@ == context@,
        },
{
    match token {
        Some(t) => Ok(t),
        None => Err(Holland2StayError::ConversionError(context.to_owned())),
    }
}

} // verus!
