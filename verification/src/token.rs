//! The bearer credential.

use vstd::prelude::*;

verus! {

/// An opaque bearer credential. It has no identity beyond its text.
#[derive(Debug)]
pub struct Token(String);

impl View for Token {
    type V = Seq<char>;

    closed spec fn view(&self) -> Seq<char> {
        self.0@
    }
}

impl Token {
    /// Wraps the text of a credential.
    pub fn new(data: String) -> (token: Self)
        ensures
            token@ == data@,
    {
        Self(data)
    }

    /// The text of the credential, as it is sent in a header.
    pub fn as_str(&self) -> (text: &str)
        ensures
            text@ == self@,
    {
        self.0.as_str()
    }

    /// Gives the text of the credential back.
    pub fn into_string(self) -> (text: String)
        ensures
            text@ == self@,
    {
        self.0
    }
}

impl core::ops::Deref for Token {
    type Target = str;

    /// The text of the credential.
    fn deref(&self) -> (text: &str)
        ensures
            text@ == self@,
    {
        self.0.as_str()
    }
}

impl Clone for Token {
    /// A credential with the same text.
    fn clone(&self) -> (copy: Self)
        ensures
            copy@ == self@,
    {
        Token(self.0.clone())
    }
}

impl Default for Token {
    /// The credential with no text.
    fn default() -> (token: Self)
        ensures
            token@ == Seq::<char>::empty(),
    {
        Token(String::new())
    }
}

impl PartialEq for Token {
    fn eq(&self, other: &Self) -> (same: bool) {
        self.0 == other.0
    }
}

impl vstd::std_specs::cmp::PartialEqSpecImpl for Token {
    open spec fn obeys_eq_spec() -> bool {
        true
    }

    open spec fn eq_spec(&self, other: &Self) -> bool {
        self@ == other@
    }
}

} // verus!
