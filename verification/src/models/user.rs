//! A registered user.

use crate::ident::{hyphenated, parsed_uuid, uuid_to_text};
use crate::models::Identified;
use crate::text::{lowercased, to_lowercase};
use vstd::prelude::*;

verus! {

/// A user as the engine hands it out: the password hash stays in the store.
#[derive(Debug, PartialEq, Eq)]
pub struct User {
    pub id: u128,
    /// Unique among users; held in lower case.
    pub email: String,
}

/// A user, as a mathematical value.
pub struct UserView {
    pub id: u128,
    pub email: Seq<char>,
}

impl View for User {
    type V = UserView;

    open spec fn view(&self) -> UserView {
        UserView { id: self.id, email: self.email@ }
    }
}

impl Clone for User {
    fn clone(&self) -> (copy: Self)
        ensures
            copy == *self,
    {
        User { id: self.id, email: self.email.clone() }
    }
}

impl Identified for User {
    open spec fn ident(&self) -> u128 {
        self.id
    }

    fn key(&self) -> (k: u128) {
        self.id
    }
}

/// The form in which an email is kept: lower case, so that two spellings of
/// one address are one email.
pub fn normalized_email(email: &str) -> (normal: String)
    ensures
        normal@ == lowercased(email@),
{
    to_lowercase(email)
}

impl User {
    pub fn id(&self) -> (text: String)
        ensures
            text@ == hyphenated(self.id),
            parsed_uuid(text@) == Some(self.id),
    {
        uuid_to_text(self.id)
    }

    pub fn email(&self) -> (email: &str)
        ensures
            email@ == self.email@,
    {
        self.email.as_str()
    }
}

} // verus!
