use vstd::prelude::*;
use vstd::string::*;
use crate::text::has_prefix;

verus! {

/// A URL held as the components that the proxy reads and rewrites. Requests
/// reach the proxy without credentials or fragment, so these are all of it.
#[derive(Debug)]
pub struct RequestUrl {
    pub scheme: String,
    pub host: Option<String>,
    pub port: Option<u16>,
    pub path: String,
    pub query: Option<String>,
}

pub open spec fn opt_view(o: Option<String>) -> Option<Seq<char>> {
    match o {
        Some(s) => Some(s@),
        None => None,
    }
}

/// What the URL parser makes of a text: `None` where it rejects the text.
pub uninterp spec fn parsed_url(s: Seq<char>) -> Option<(Seq<char>, Option<Seq<char>>, Option<u16>, Seq<char>, Option<Seq<char>>)>;

/// The UTF-8 encoding of one character.
pub open spec fn utf8_char(c: char) -> Seq<u8> {
    let v = c as u32;
    if v < 0x80 {
        seq![v as u8]
    } else if v < 0x800 {
        seq![(0xC0 + v / 64) as u8, (0x80 + v % 64) as u8]
    } else if v < 0x10000 {
        seq![(0xE0 + v / 4096) as u8, (0x80 + (v / 64) % 64) as u8, (0x80 + v % 64) as u8]
    } else {
        seq![
            (0xF0 + v / 262144) as u8,
            (0x80 + (v / 4096) % 64) as u8,
            (0x80 + (v / 64) % 64) as u8,
            (0x80 + v % 64) as u8,
        ]
    }
}

/// The UTF-8 encoding of a text.
pub open spec fn utf8(s: Seq<char>) -> Seq<u8>
    decreases s.len(),
{
    if s.len() == 0 {
        Seq::<u8>::empty()
    } else {
        utf8(s.drop_last()) + utf8_char(s.last())
    }
}

/// A byte that urlencoding keeps as it is: `*`, `-`, `.`, `_`, digits and
/// ASCII letters.
pub open spec fn byte_kept(b: u8) -> bool {
    b == 0x2A || b == 0x2D || b == 0x2E || b == 0x5F || (0x30 <= b && b <= 0x39)
        || (0x41 <= b && b <= 0x5A) || (0x61 <= b && b <= 0x7A)
}

pub open spec fn hex_digit(d: u8) -> char {
    seq!['0', '1', '2', '3', '4', '5', '6', '7', '8', '9', 'A', 'B', 'C', 'D', 'E', 'F'][d as int]
}

/// One byte urlencoded: kept, `+` for a space, else `%` and two upper-case
/// hex digits.
pub open spec fn encoded_byte(b: u8) -> Seq<char> {
    if byte_kept(b) {
        seq![b as char]
    } else if b == 0x20 {
        seq!['+']
    } else {
        seq!['%', hex_digit(b / 16), hex_digit(b % 16)]
    }
}

pub open spec fn encoded_bytes(b: Seq<u8>) -> Seq<char>
    decreases b.len(),
{
    if b.len() == 0 {
        Seq::<char>::empty()
    } else {
        encoded_bytes(b.drop_last()) + encoded_byte(b.last())
    }
}

/// The application/x-www-form-urlencoded serialisation of a text's UTF-8 bytes.
pub open spec fn form_encoded(s: Seq<char>) -> Seq<char> {
    encoded_bytes(utf8(s))
}

/// Relies on url::Url::parse (a function of the text alone) and on its
/// accessors scheme, host_str, port (`None` for the scheme's default), path
/// and query. A text that starts with `https://` has the special scheme
/// `https`, whose URLs always have a host.
#[verifier::external_body]
fn parse_url_parts(s: &str) -> (r: Result<RequestUrl, url::ParseError>)
    ensures
        match r {
            Ok(u) => parsed_url(s@) == Some(u.parts()),
            Err(_) => parsed_url(s@) is None,
        },
        r is Ok && has_prefix(s@, "https://"@) ==> r->Ok_0.scheme@ == "https"@ && r->Ok_0.host is Some,
{
    url::Url::parse(s).map(|u| RequestUrl {
        scheme: u.scheme().to_string(),
        host: u.host_str().map(|h| h.to_string()),
        port: u.port(),
        path: u.path().to_string(),
        query: u.query().map(|q| q.to_string()),
    })
}

/// Relies on url::form_urlencoded::Serializer: `append_pair` on a
/// serializer over `query` adds `&` after a non-empty query, then the key,
/// `=` and the value, both urlencoded by `byte_serialize`.
#[verifier::external_body]
fn append_pair(query: String, key: &str, value: &str) -> (r: String)
    ensures
        r@ == (if query@.len() == 0 { query@ } else { query@ + seq!['&'] }) + form_encoded(key@) + seq!['=']
            + form_encoded(value@),
{
    url::form_urlencoded::Serializer::new(query).append_pair(key, value).finish()
}

pub fn clone_opt_string(o: &Option<String>) -> (r: Option<String>)
    ensures
        r == *o,
{
    match o {
        Some(s) => Some(s.clone()),
        None => None,
    }
}

/// The decimal digits of `n`, most significant first.
pub open spec fn decimal(n: nat) -> Seq<char>
    decreases n,
{
    if n < 10 {
        seq![digit_char(n)]
    } else {
        decimal(n / 10) + seq![digit_char(n % 10)]
    }
}

pub open spec fn digit_char(d: nat) -> char {
    if d == 0 { '0' }
    else if d == 1 { '1' }
    else if d == 2 { '2' }
    else if d == 3 { '3' }
    else if d == 4 { '4' }
    else if d == 5 { '5' }
    else if d == 6 { '6' }
    else if d == 7 { '7' }
    else if d == 8 { '8' }
    else { '9' }
}

fn digit_str(d: u16) -> (r: &'static str)
    requires
        d < 10,
    ensures
        r@ == seq![digit_char(d as nat)],
{
    proof {
        reveal_strlit("0");
        reveal_strlit("1");
        reveal_strlit("2");
        reveal_strlit("3");
        reveal_strlit("4");
        reveal_strlit("5");
        reveal_strlit("6");
        reveal_strlit("7");
        reveal_strlit("8");
        reveal_strlit("9");
    }
    if d == 0 { "0" }
    else if d == 1 { "1" }
    else if d == 2 { "2" }
    else if d == 3 { "3" }
    else if d == 4 { "4" }
    else if d == 5 { "5" }
    else if d == 6 { "6" }
    else if d == 7 { "7" }
    else if d == 8 { "8" }
    else { "9" }
}

/// Appends the decimal form of `n` to `out`.
fn push_decimal(out: &mut String, n: u16)
    ensures
        final(out)@ == old(out)@ + decimal(n as nat),
    decreases n,
{
    if n < 10 {
        out.append(digit_str(n));
    } else {
        push_decimal(out, n / 10);
        out.append(digit_str(n % 10));
        assert(final(out)@ =~= old(out)@ + decimal(n as nat));
    }
}

/// The text after the key in a query to which a key and value were appended:
/// an `&` separates them from a non-empty query.
pub open spec fn query_with_pair(q: Option<Seq<char>>, key: Seq<char>, value: Seq<char>) -> Seq<char> {
    let prefix = match q {
        Some(q) => if q.len() == 0 { q } else { q + seq!['&'] },
        None => Seq::<char>::empty(),
    };
    prefix + form_encoded(key) + seq!['='] + form_encoded(value)
}

impl RequestUrl {
    pub open spec fn parts(&self) -> (Seq<char>, Option<Seq<char>>, Option<u16>, Seq<char>, Option<Seq<char>>) {
        (self.scheme@, opt_view(self.host), self.port, self.path@, opt_view(self.query))
    }

    /// The text form: `scheme://host[:port]path[?query]`.
    pub open spec fn serialized(&self) -> Seq<char> {
        let host = match self.host {
            Some(h) => h@,
            None => Seq::<char>::empty(),
        };
        let port = match self.port {
            Some(p) => seq![':'] + decimal(p as nat),
            None => Seq::<char>::empty(),
        };
        let query = match self.query {
            Some(q) => seq!['?'] + q@,
            None => Seq::<char>::empty(),
        };
        self.scheme@ + seq![':', '/', '/'] + host + port + self.path@ + query
    }

    /// Parses a URL; the error carries the text and the parser's reason.
    pub fn parse(s: &str) -> (r: Result<RequestUrl, crate::error::Error>)
        ensures
            match r {
                Ok(u) => parsed_url(s@) == Some(u.parts()),
                Err(e) => parsed_url(s@) is None && (e matches crate::error::Error::UrlParsing { url, .. } && url@ == s@),
            },
            r is Ok && has_prefix(s@, "https://"@) ==> r->Ok_0.scheme@ == "https"@ && r->Ok_0.host is Some,
    {
        match parse_url_parts(s) {
            Ok(u) => Ok(u),
            Err(e) => Err(crate::error::Error::url_parsing(s.to_string(), e)),
        }
    }

    pub fn duplicate(&self) -> (r: RequestUrl)
        ensures
            r == *self,
    {
        RequestUrl {
            scheme: self.scheme.clone(),
            host: clone_opt_string(&self.host),
            port: self.port,
            path: self.path.clone(),
            query: clone_opt_string(&self.query),
        }
    }

    pub fn to_url_string(&self) -> (r: String)
        ensures
            r@ == self.serialized(),
    {
        let mut out = self.scheme.clone();
        out.append("://");
        match &self.host {
            Some(h) => out.append(h.as_str()),
            None => {},
        }
        match self.port {
            Some(p) => {
                out.append(":");
                push_decimal(&mut out, p);
            },
            None => {},
        }
        out.append(self.path.as_str());
        match &self.query {
            Some(q) => {
                out.append("?");
                out.append(q.as_str());
            },
            None => {},
        }
        proof {
            reveal_strlit("://");
            reveal_strlit(":");
            reveal_strlit("?");
        }
        assert(out@ =~= self.serialized());
        out
    }

    /// Appends `key=value`, both urlencoded, to the query.
    pub fn with_query_pair(self, key: &str, value: &str) -> (r: RequestUrl)
        ensures
            r.scheme == self.scheme,
            r.host == self.host,
            r.port == self.port,
            r.path == self.path,
            r.query is Some && r.query->0@ == query_with_pair(opt_view(self.query), key@, value@),
    {
        let RequestUrl { scheme, host, port, path, query } = self;
        let q = match query {
            Some(q) => q,
            None => String::new(),
        };
        let ghost before = q@;
        let q = append_pair(q, key, value);
        assert(query_with_pair(Some(before), key@, value@) =~= query_with_pair(opt_view(query), key@, value@));
        RequestUrl { scheme, host, port, path, query: Some(q) }
    }
}

} // verus!
