use vstd::prelude::*;

verus! {

#[verifier::external_type_specification]
#[verifier::external_body]
pub struct ExUrlParseError(url::ParseError);

#[verifier::external_type_specification]
#[verifier::external_body]
pub struct ExIdParseError(ruma::IdParseError);

/// Errors of the library
#[derive(Debug)]
pub enum Error {
    /// A text could not be parsed as a URL
    UrlParsing { url: String, err: url::ParseError },
    /// A localpart or server name is not a valid Matrix identifier
    IdParsing { id: String, cause: ruma::IdParseError },
    /// The TLS identity could not be generated
    Certificate(rcgen::RcgenError),
    /// A URL names no host
    MissingHost { url: String },
    /// The requested user has not yet been registered/set up
    UnregisteredUser(String),
}

impl Error {
    pub fn url_parsing(url: String, err: url::ParseError) -> (r: Error)
        ensures
            r == (Error::UrlParsing { url, err }),
    {
        Error::UrlParsing { url, err }
    }

    /// Whether this is the error for a user without an identity record.
    pub open spec fn is_unregistered(&self, localpart: Seq<char>) -> bool {
        match self {
            Error::UnregisteredUser(l) => l@ == localpart,
            _ => false,
        }
    }
}

} // verus!
