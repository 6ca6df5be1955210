use vstd::prelude::*;
use vstd::string::*;
use crate::error::Error;

verus! {

/// The character of the standard base64 alphabet for a value below 64.
pub open spec fn base64_char(v: int) -> char {
    seq!['A', 'B', 'C', 'D', 'E', 'F', 'G', 'H', 'I', 'J', 'K', 'L', 'M', 'N', 'O', 'P', 'Q', 'R', 'S', 'T', 'U', 'V', 'W', 'X', 'Y', 'Z', 'a', 'b', 'c', 'd', 'e', 'f', 'g', 'h', 'i', 'j', 'k', 'l', 'm', 'n', 'o', 'p', 'q', 'r', 's', 't', 'u', 'v', 'w', 'x', 'y', 'z', '0', '1', '2', '3', '4', '5', '6', '7', '8', '9', '+', '/'][v]
}

/// The standard base64 encoding (with padding) of some bytes: each group of
/// three bytes gives four characters, a last group of one or two bytes is
/// padded with `=`.
pub open spec fn base64_of(b: Seq<u8>) -> Seq<char>
    decreases b.len(),
{
    if b.len() == 0 {
        Seq::<char>::empty()
    } else {
        let x0 = b[0] as int;
        if b.len() == 1 {
            seq![base64_char(x0 / 4), base64_char((x0 % 4) * 16), '=', '=']
        } else {
            let x1 = b[1] as int;
            if b.len() == 2 {
                seq![base64_char(x0 / 4), base64_char((x0 % 4) * 16 + x1 / 16), base64_char((x1 % 16) * 4), '=']
            } else {
                let x2 = b[2] as int;
                seq![
                    base64_char(x0 / 4),
                    base64_char((x0 % 4) * 16 + x1 / 16),
                    base64_char((x1 % 16) * 4 + x2 / 64),
                    base64_char(x2 % 64),
                ] + base64_of(b.subrange(3, b.len() as int))
            }
        }
    }
}

/// Base64 makes four characters of every three bytes or part of three.
pub proof fn lemma_base64_len(b: Seq<u8>)
    ensures
        base64_of(b).len() == 4 * ((b.len() + 2) / 3),
    decreases b.len(),
{
    if b.len() >= 3 {
        lemma_base64_len(b.subrange(3, b.len() as int));
    }
}

/// Relies on genrs_lib::generate_key: `length` bytes from the operating
/// system's secure random source.
#[verifier::external_body]
fn random_bytes(length: usize) -> (r: Vec<u8>)
    ensures
        r@.len() == length,
{
    genrs_lib::generate_key(length)
}

/// Relies on genrs_lib::encode_key with `EncodingFormat::Base64`, which
/// always returns `Ok` with the standard base64 form of the bytes: four
/// characters for every three bytes or part of three, with padding.
#[verifier::external_body]
fn encode_base64(bytes: Vec<u8>) -> (r: Result<String, String>)
    ensures
        r is Ok,
        r is Ok ==> r->Ok_0@ == base64_of(bytes@),
{
    genrs_lib::encode_key(bytes, genrs_lib::EncodingFormat::Base64)
}

/// Whether ruma's ServerName::parse accepts a text as a server name.
pub uninterp spec fn server_name_accepted(s: Seq<char>) -> bool;

/// Whether ruma's UserId::parse accepts a text as a full user id.
pub uninterp spec fn full_user_id_accepted(s: Seq<char>) -> bool;

/// Whether a user id is made of `localpart` on `server_name`: the server
/// name must be valid; a localpart that starts with `@` must be a valid full
/// user id, any other one must hold neither `:` nor NUL.
pub open spec fn user_id_accepted(localpart: Seq<char>, server_name: Seq<char>) -> bool {
    &&& server_name_accepted(server_name)
    &&& if starts_with_at(localpart) {
        full_user_id_accepted(localpart)
    } else {
        forall|i: int| 0 <= i < localpart.len() ==> #[trigger] localpart[i] != ':' && localpart[i] != '\0'
    }
}

/// Relies on ruma's ServerName::parse and UserId::parse_with_server_name: for
/// a localpart that does not start with `@` the id is
/// `@localpart:server_name`, accepted where the localpart holds neither `:`
/// nor NUL; one that starts with `@` is parsed as a full id and kept as it
/// is. Neither parser rewrites its text.
#[verifier::external_body]
fn parse_user_id(localpart: &str, server_name: &str) -> (r: Result<String, ruma::IdParseError>)
    ensures
        r is Ok <==> (server_name_accepted(server_name@) && if starts_with_at(localpart@) {
            full_user_id_accepted(localpart@)
        } else {
            forall|i: int| 0 <= i < localpart@.len() ==> #[trigger] localpart@[i] != ':' && localpart@[i] != '\0'
        }),
        r is Ok && !starts_with_at(localpart@) ==> r->Ok_0@ == full_user_id(localpart@, server_name@),
        r is Ok && starts_with_at(localpart@) ==> r->Ok_0@ == localpart@,
{
    ruma::ServerName::parse(server_name)
        .and_then(|s| ruma::UserId::parse_with_server_name(localpart, &s))
        .map(|u| u.to_string())
}

/// Relies on ruma's ServerName::parse and UserId::new: a user id with a
/// random localpart of 12 characters on the given server.
#[verifier::external_body]
fn random_user_id(server_name: &str) -> (r: Result<String, ruma::IdParseError>)
    ensures
        r is Ok <==> server_name_accepted(server_name@),
        r is Ok ==> exists|l: Seq<char>| l.len() == 12 && r->Ok_0@ == full_user_id(l, server_name@),
{
    ruma::ServerName::parse(server_name).map(|s| ruma::UserId::new(&s).to_string())
}

/// Relies on ruma's DeviceId::new: a random device id of 10 alphanumeric
/// characters.
#[verifier::external_body]
pub(crate) fn random_device_id() -> (r: String)
    ensures
        r@.len() == 10,
{
    ruma::DeviceId::new().to_string()
}

pub open spec fn starts_with_at(s: Seq<char>) -> bool {
    s.len() > 0 && s[0] == '@'
}

/// The full Matrix id of a localpart on a server: `@localpart:server`.
pub open spec fn full_user_id(localpart: Seq<char>, server_name: Seq<char>) -> Seq<char> {
    seq!['@'] + localpart + seq![':'] + server_name
}

/// `@localpart:server`, as in `full_user_id`.
pub fn format_user_id(localpart: &str, server_name: &str) -> (r: String)
    ensures
        r@ == full_user_id(localpart@, server_name@),
{
    let mut s = String::from_str("@");
    s.append(localpart);
    s.append(":");
    s.append(server_name);
    proof {
        reveal_strlit("@");
        reveal_strlit(":");
    }
    assert(s@ =~= full_user_id(localpart@, server_name@));
    s
}

/// The full id of `localpart` on `server_name`; fails where either is not a
/// valid Matrix identifier.
pub fn user_id_of(localpart: &str, server_name: &str) -> (r: Result<String, Error>)
    ensures
        r is Ok <==> user_id_accepted(localpart@, server_name@),
        r is Ok && !starts_with_at(localpart@) ==> r->Ok_0@ == full_user_id(localpart@, server_name@),
        r is Ok && starts_with_at(localpart@) ==> r->Ok_0@ == localpart@,
        r is Err ==> (r->Err_0 matches Error::IdParsing { id, .. } && id@ == localpart@),
{
    match parse_user_id(localpart, server_name) {
        Ok(u) => Ok(u),
        Err(cause) => Err(Error::IdParsing { id: localpart.to_string(), cause }),
    }
}

/// Generate a secure random key: `length` random bytes in base64.
pub fn generate_key(length: usize) -> (r: String)
    ensures
        exists|b: Seq<u8>| b.len() == length && r@ == base64_of(b),
        r@.len() == 4 * ((length + 2) / 3),
{
    let bytes = random_bytes(length);
    proof {
        lemma_base64_len(bytes@);
    }
    encode_base64(bytes).unwrap()
}

/// An appservice-managed user
#[derive(Debug)]
pub struct UserRecord {
    /// Proxy access token
    pub token: String,
    /// Matrix user id
    pub user_id: String,
    /// Matrix device id
    pub device_id: String,
}

impl UserRecord {
    /// Creates a new user with a random localpart, a random token of 128
    /// bytes and a random device id; fails where the server name is invalid.
    pub fn new(server_name: &str) -> (r: Result<UserRecord, Error>)
        ensures
            r is Ok <==> server_name_accepted(server_name@),
            r is Ok ==> exists|l: Seq<char>| l.len() == 12 && r->Ok_0.user_id@ == full_user_id(l, server_name@),
            r is Ok ==> exists|b: Seq<u8>| b.len() == 128 && r->Ok_0.token@ == base64_of(b),
            r is Ok ==> r->Ok_0.token@.len() == 172 && r->Ok_0.device_id@.len() == 10,
            r is Err ==> (r->Err_0 matches Error::IdParsing { id, .. } && id@ == server_name@),
    {
        match random_user_id(server_name) {
            Ok(user_id) => Ok(UserRecord { token: generate_key(128), user_id, device_id: random_device_id() }),
            Err(err) => Err(Error::IdParsing { id: server_name.to_string(), cause: err }),
        }
    }

    /// Creates a new user with a pre-set localpart, a random token of 128
    /// bytes and a random device id; fails where the localpart or server name
    /// is invalid.
    pub fn new_with_id(localpart: &str, server_name: &str) -> (r: Result<UserRecord, Error>)
        ensures
            r is Ok <==> user_id_accepted(localpart@, server_name@),
            r is Ok && !starts_with_at(localpart@) ==> r->Ok_0.user_id@ == full_user_id(localpart@, server_name@),
            r is Ok && starts_with_at(localpart@) ==> r->Ok_0.user_id@ == localpart@,
            r is Ok ==> exists|b: Seq<u8>| b.len() == 128 && r->Ok_0.token@ == base64_of(b),
            r is Ok ==> r->Ok_0.token@.len() == 172 && r->Ok_0.device_id@.len() == 10,
            r is Err ==> (r->Err_0 matches Error::IdParsing { id, .. } && id@ == localpart@),
    {
        match parse_user_id(localpart, server_name) {
            Ok(user_id) => Ok(UserRecord { token: generate_key(128), user_id, device_id: random_device_id() }),
            Err(err) => Err(Error::IdParsing { id: localpart.to_string(), cause: err }),
        }
    }

    /// The proxy access token
    pub fn token(&self) -> (r: String)
        ensures
            r == self.token,
    {
        self.token.clone()
    }

    /// The Matrix user id
    pub fn user_id(&self) -> (r: String)
        ensures
            r == self.user_id,
    {
        self.user_id.clone()
    }

    /// The Matrix device id
    pub fn device_id(&self) -> (r: String)
        ensures
            r == self.device_id,
    {
        self.device_id.clone()
    }
}

} // verus!
