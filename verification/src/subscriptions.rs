//! The forms of the subscription service.

use vstd::prelude::*;
use vstd::string::StringExecFns;

verus! {

/// What a subscriber sends: an address and a name.
#[derive(Debug)]
pub struct FormData {
    email: String,
    user_name: String,
}

/// What a subscription is asked for by: an address.
#[derive(Debug)]
pub struct Info {
    email: String,
}

impl FormData {
    pub closed spec fn spec_email(&self) -> Seq<char> {
        self.email@
    }

    pub closed spec fn spec_user_name(&self) -> Seq<char> {
        self.user_name@
    }

    pub fn new(email: &str, user_name: &str) -> (r: FormData)
        ensures
            r.spec_email() == email@,
            r.spec_user_name() == user_name@,
    {
        FormData { email: String::from_str(email), user_name: String::from_str(user_name) }
    }

    /// The address of the subscriber.
    pub fn email(&self) -> (r: &str)
        ensures
            r@ == self.spec_email(),
    {
        self.email.as_str()
    }

    /// The name of the subscriber.
    pub fn user_name(&self) -> (r: &str)
        ensures
            r@ == self.spec_user_name(),
    {
        self.user_name.as_str()
    }
}

impl Info {
    pub closed spec fn spec_email(&self) -> Seq<char> {
        self.email@
    }

    pub fn new(email: &str) -> (r: Info)
        ensures
            r.spec_email() == email@,
    {
        Info { email: String::from_str(email) }
    }

    /// The address that is asked for.
    pub fn email(&self) -> (r: &str)
        ensures
            r@ == self.spec_email(),
    {
        self.email.as_str()
    }
}

} // verus!
