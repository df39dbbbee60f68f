use vstd::prelude::*;
use vstd::string::StringExecFns;

verus! {

/// The text of an optional string.
pub open spec fn option_text(text: Option<String>) -> Option<Seq<char>> {
    match text {
        Some(s) => Some(s@),
        None => None,
    }
}

/// The text of an optional string slice.
pub open spec fn option_str_text(text: Option<&str>) -> Option<Seq<char>> {
    match text {
        Some(s) => Some(s@),
        None => None,
    }
}

/// The mathematical value of a [`ClientOptions`].
pub struct ClientOptionsView {
    pub domain: Seq<char>,
    pub secure: bool,
    pub jwt: Option<Seq<char>>,
}

/// Options for instantiating a client.
#[derive(Debug, Clone, PartialEq, Eq)]
pub struct ClientOptions {
    /// Domain of the instance the client sends requests to, without a scheme.
    pub domain: String,
    /// If true, use HTTPS. If false, use HTTP.
    pub secure: bool,
    /// The token used with every request that does not bring its own.
    pub jwt: Option<String>,
}

impl View for ClientOptions {
    type V = ClientOptionsView;

    open spec fn view(&self) -> ClientOptionsView {
        ClientOptionsView {
            domain: self.domain@,
            secure: self.secure,
            jwt: option_text(self.jwt),
        }
    }
}

impl ClientOptions {
    /// Creates options for `domain` with no default token.
    pub fn new(domain: &str, secure: bool) -> (options: Self)
        ensures
            options@.domain == domain@,
            options@.secure == secure,
            options@.jwt is None,
    {
        ClientOptions { domain: String::from_str(domain), secure, jwt: None }
    }

    /// Sets the default token, replacing any earlier one.
    pub fn with_jwt(&mut self, jwt: String)
        ensures
            final(self)@.domain == old(self)@.domain,
            final(self)@.secure == old(self)@.secure,
            final(self)@.jwt == Some(jwt@),
    {
        self.jwt = Some(jwt);
    }
}

} // verus!
