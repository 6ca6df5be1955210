use vstd::prelude::*;
use vstd::string::*;
use crate::error::Error;
use crate::headers::{
    HeaderField, header_text, header_value, lookup, lookup_from, name_eq,
    has_prefix_ignore_case, names_equal, starts_with_ignore_case, char_eq_ignore_case,
};
use crate::url_parts::{RequestUrl, opt_view, parsed_url, query_with_pair};
use crate::user::{UserRecord, full_user_id, format_user_id};

verus! {

/// The caller that a proxied request was verified to come from.
#[derive(Debug)]
pub enum ProxiedEntity {
    Service { authorization: String },
    Bot { authorization: String, user_id: String },
}

impl ProxiedEntity {
    /// `None` for the service identity, the masqueraded user id for a bot.
    pub open spec fn caller(&self) -> Option<Seq<char>> {
        match self {
            ProxiedEntity::Service { .. } => None,
            ProxiedEntity::Bot { user_id, .. } => Some(user_id@),
        }
    }

    /// The credential that is sent upstream.
    pub open spec fn credential(&self) -> Seq<char> {
        match self {
            ProxiedEntity::Service { authorization } => authorization@,
            ProxiedEntity::Bot { authorization, .. } => authorization@,
        }
    }
}

/// What the proxy knows of the service it fronts.
#[derive(Debug)]
pub struct ProxyContext {
    /// The secret of this process that every virtual client sends
    pub proxy_token: String,
    /// The master secret that the homeserver accepts
    pub appservice_token: String,
    /// The homeserver's name, the server part of every user id
    pub server_name: String,
    /// The homeserver's URL
    pub homeserver: RequestUrl,
}

/// A request received by the proxy: method, target URL and headers. The
/// body is streamed through untouched and is not held here.
#[derive(Debug)]
pub struct ProxiedRequest {
    pub method: String,
    pub url: RequestUrl,
    pub headers: Vec<HeaderField>,
}

/// A response that the proxy makes itself.
#[derive(Debug)]
pub struct ProxyResponse {
    pub status: u16,
    pub body: String,
}

/// What the proxy does with a request.
#[derive(Debug)]
pub enum ProxyAction {
    /// Send this request upstream and stream the answer back
    Forward(ProxiedRequest),
    /// Answer at once, without any outbound call
    Respond(ProxyResponse),
}

pub open spec fn record_token(record: Option<&UserRecord>) -> Option<Seq<char>> {
    match record {
        Some(r) => Some(r.token@),
        None => None,
    }
}

/// Who sent the headers `h`: `None` where they do not authenticate,
/// `Some(None)` for the service identity, `Some(Some(u))` for the bot with
/// user id `u`. `record_token` is the secret of the identity record stored
/// for the localpart that `x-proxy-bot-user` names, if there is one.
pub open spec fn classify(
    h: Seq<HeaderField>,
    proxy_token: Seq<char>,
    server_name: Seq<char>,
    record_token: Option<Seq<char>>,
) -> Option<Option<Seq<char>>> {
    let token_ok = header_text(h, "x-proxy-token"@) == Some(proxy_token);
    let bot_token = header_text(h, "x-proxy-bot-token"@);
    let bot_user = header_text(h, "x-proxy-bot-user"@);
    match header_text(h, "x-proxy-role"@) {
        Some(role) => if role == "SERVICE"@ {
            if token_ok { Some(None) } else { None }
        } else if role == "BOT"@ {
            if token_ok && bot_token is Some && bot_user is Some && record_token is Some
                && bot_token->0 == record_token->0 {
                Some(Some(full_user_id(bot_user->0, server_name)))
            } else {
                None
            }
        } else {
            None
        },
        None => None,
    }
}

/// A header of the internal proxy protocol: its name starts with `x-proxy-`.
pub open spec fn is_internal(name: Seq<char>) -> bool {
    has_prefix_ignore_case(name, "x-proxy-"@)
}

/// A header that does not go upstream: an internal one, and where the
/// credential is replaced, any `authorization` header.
pub open spec fn is_dropped(name: Seq<char>, replace_auth: bool) -> bool {
    is_internal(name) || (replace_auth && name_eq(name, "authorization"@))
}

/// The headers among the first `n` of `h` that go upstream, in order.
pub open spec fn kept(h: Seq<HeaderField>, n: int, replace_auth: bool) -> Seq<HeaderField>
    decreases n,
{
    if n <= 0 {
        Seq::<HeaderField>::empty()
    } else if is_dropped(h[n - 1].name@, replace_auth) {
        kept(h, n - 1, replace_auth)
    } else {
        kept(h, n - 1, replace_auth).push(h[n - 1])
    }
}

pub open spec fn kept_headers(h: Seq<HeaderField>, replace_auth: bool) -> Seq<HeaderField> {
    kept(h, h.len() as int, replace_auth)
}

/// `r` is `h` re-authorised with `credential`: the headers that go upstream,
/// then `authorization: Bearer <credential>`.
pub open spec fn authorized_headers(r: Seq<HeaderField>, h: Seq<HeaderField>, credential: Seq<char>) -> bool {
    let k = kept_headers(h, true);
    &&& r.len() == k.len() + 1
    &&& r.subrange(0, k.len() as int) == k
    &&& r[k.len() as int].name@ == "authorization"@
    &&& r[k.len() as int].value@ == "Bearer "@ + credential
}

/// The target is the homeserver: both hosts are known and equal.
pub open spec fn targets_homeserver(u: RequestUrl, homeserver: RequestUrl) -> bool {
    u.host is Some && homeserver.host is Some && u.host->0@ == homeserver.host->0@
}

/// The URL that is forwarded for a request to `u` from `caller` (see
/// `ProxiedEntity::caller`).
pub open spec fn forwarded_url(out: RequestUrl, u: RequestUrl, homeserver: RequestUrl, caller: Option<Seq<char>>) -> bool {
    if targets_homeserver(u, homeserver) {
        &&& out.scheme@ == homeserver.scheme@
        &&& out.host == u.host
        &&& out.port == u.port
        &&& out.path == u.path
        &&& match caller {
            None => out.query == u.query,
            Some(user) => out.query is Some
                && out.query->0@ == query_with_pair(opt_view(u.query), "user_id"@, user),
        }
    } else {
        out == u
    }
}

/// What the proxy does with `req`: answer `401` where it does not
/// authenticate; else forward it, re-authorised with the master secret
/// where it targets the homeserver, passed through otherwise, and never with
/// an internal header.
pub open spec fn handled(req: ProxiedRequest, ctx: ProxyContext, record_token: Option<Seq<char>>, r: ProxyAction) -> bool {
    match classify(req.headers@, ctx.proxy_token@, ctx.server_name@, record_token) {
        None => r is Respond && r->Respond_0.status == 401 && r->Respond_0.body@ == "proxy.unauthorized"@,
        Some(caller) => r is Forward && {
            let out = r->Forward_0;
            &&& out.method == req.method
            &&& forwarded_url(out.url, req.url, ctx.homeserver, caller)
            &&& if targets_homeserver(req.url, ctx.homeserver) {
                authorized_headers(out.headers@, req.headers@, ctx.appservice_token@)
            } else {
                out.headers@ == kept_headers(req.headers@, false)
            }
        },
    }
}

fn opt_equals(o: &Option<String>, s: &String) -> (r: bool)
    ensures
        r == (opt_view(*o) == Some(s@)),
{
    match o {
        Some(v) => *v == *s,
        None => false,
    }
}

fn duplicate_header(f: &HeaderField) -> (r: HeaderField)
    ensures
        r == *f,
{
    HeaderField { name: f.name.clone(), value: f.value.clone() }
}

fn dropped(name: &str, replace_auth: bool) -> (r: bool)
    ensures
        r == is_dropped(name@, replace_auth),
{
    starts_with_ignore_case(name, "x-proxy-") || (replace_auth && names_equal(name, "authorization"))
}

/// The headers of `h` that go upstream, as in `kept_headers`.
fn keep_headers(h: &Vec<HeaderField>, replace_auth: bool) -> (r: Vec<HeaderField>)
    ensures
        r@ == kept_headers(h@, replace_auth),
{
    let mut out: Vec<HeaderField> = Vec::new();
    let mut i: usize = 0;
    while i < h.len()
        invariant
            i <= h@.len(),
            out@ == kept(h@, i as int, replace_auth),
        decreases h@.len() - i,
    {
        if !dropped(h[i].name.as_str(), replace_auth) {
            out.push(duplicate_header(&h[i]));
        }
        i = i + 1;
    }
    out
}

/// Replaces the scheme of a homeserver-bound URL by the homeserver's.
fn retarget(u: RequestUrl, homeserver: &RequestUrl) -> (r: RequestUrl)
    ensures
        forwarded_url(r, u, *homeserver, None),
{
    let same_host = match (&u.host, &homeserver.host) {
        (Some(a), Some(b)) => *a == *b,
        _ => false,
    };
    if same_host {
        let RequestUrl { scheme: _, host, port, path, query } = u;
        RequestUrl { scheme: homeserver.scheme.clone(), host, port, path, query }
    } else {
        u
    }
}

impl ProxiedRequest {
    /// Rebuilds a request that reached the proxy: its target is
    /// `https://` followed by the `Host` header and the request's path and
    /// query. Fails where that is not a URL.
    pub fn from_parts(method: String, host: &str, uri: &str, headers: Vec<HeaderField>) -> (r: Result<ProxiedRequest, Error>)
        ensures
            r is Ok <==> parsed_url("https://"@ + host@ + uri@) is Some,
            r is Ok ==> r->Ok_0.method == method && r->Ok_0.headers == headers
                && parsed_url("https://"@ + host@ + uri@) == Some(r->Ok_0.url.parts()),
            r is Ok ==> r->Ok_0.url.scheme@ == "https"@ && r->Ok_0.url.host is Some,
    {
        let mut target = String::from_str("https://");
        target.append(host);
        target.append(uri);
        assert(("https://"@ + host@ + uri@).subrange(0, "https://"@.len() as int) =~= "https://"@);
        match RequestUrl::parse(target.as_str()) {
            Ok(url) => Ok(ProxiedRequest { method, url, headers }),
            Err(e) => Err(e),
        }
    }

    /// The first header named `name` (ASCII case ignored) where its value is
    /// visible text.
    pub fn header(&self, name: &str) -> (r: Option<String>)
        ensures
            opt_view(r) == header_text(self.headers@, name@),
    {
        header_value(&self.headers, name)
    }

    /// The localpart that a bot request names, whose identity record the
    /// caller looks up before `verify_entity`.
    pub fn bot_localpart(&self) -> (r: Option<String>)
        ensures
            opt_view(r) == header_text(self.headers@, "x-proxy-bot-user"@),
    {
        header_value(&self.headers, "x-proxy-bot-user")
    }

    /// Verifies who sent this request; `record` is the identity record stored
    /// for the localpart that `bot_localpart` gives, if any.
    pub fn verify_entity(&self, ctx: &ProxyContext, record: Option<&UserRecord>) -> (r: Option<ProxiedEntity>)
        ensures
            match r {
                Some(e) => classify(self.headers@, ctx.proxy_token@, ctx.server_name@, record_token(record)) == Some(e.caller())
                    && e.credential() == ctx.appservice_token@,
                None => classify(self.headers@, ctx.proxy_token@, ctx.server_name@, record_token(record)) is None,
            },
    {
        let token_ok = opt_equals(&self.header("x-proxy-token"), &ctx.proxy_token);
        match self.header("x-proxy-role") {
            Some(role) => if role == String::from_str("SERVICE") {
                if token_ok {
                    Some(ProxiedEntity::Service { authorization: ctx.appservice_token.clone() })
                } else {
                    None
                }
            } else if role == String::from_str("BOT") {
                if !token_ok {
                    return None;
                }
                match (self.header("x-proxy-bot-token"), self.header("x-proxy-bot-user"), record) {
                    (Some(bot_token), Some(bot_user), Some(rec)) => if bot_token == rec.token {
                        Some(ProxiedEntity::Bot {
                            authorization: ctx.appservice_token.clone(),
                            user_id: format_user_id(bot_user.as_str(), ctx.server_name.as_str()),
                        })
                    } else {
                        None
                    },
                    _ => None,
                }
            } else {
                None
            },
            None => None,
        }
    }

    /// Re-authorises this request for the homeserver: the internal headers
    /// and any `authorization` header are dropped, `authorization: Bearer
    /// <credential>` is added, and for a bot `user_id=<its id>` is appended
    /// to the query.
    pub fn authorize(self, entity: ProxiedEntity) -> (r: ProxiedRequest)
        ensures
            r.method == self.method,
            authorized_headers(r.headers@, self.headers@, entity.credential()),
            r.url.scheme == self.url.scheme,
            r.url.host == self.url.host,
            r.url.port == self.url.port,
            r.url.path == self.url.path,
            match entity.caller() {
                None => r.url.query == self.url.query,
                Some(user) => r.url.query is Some
                    && r.url.query->0@ == query_with_pair(opt_view(self.url.query), "user_id"@, user),
            },
    {
        let (authorization, user_id) = match entity {
            ProxiedEntity::Service { authorization } => (authorization, None),
            ProxiedEntity::Bot { authorization, user_id } => (authorization, Some(user_id)),
        };
        let mut headers = keep_headers(&self.headers, true);
        let ghost k = headers@;
        let mut bearer = String::from_str("Bearer ");
        bearer.append(authorization.as_str());
        headers.push(HeaderField { name: String::from_str("authorization"), value: bearer });
        assert(headers@.subrange(0, k.len() as int) =~= k);
        let url = match user_id {
            Some(u) => self.url.with_query_pair("user_id", u.as_str()),
            None => self.url,
        };
        ProxiedRequest { method: self.method, url, headers }
    }

    /// Drops the internal headers and keeps everything else, for traffic
    /// that does not go to the homeserver.
    pub fn strip_internal(self) -> (r: ProxiedRequest)
        ensures
            r.method == self.method,
            r.url == self.url,
            r.headers@ == kept_headers(self.headers@, false),
    {
        let headers = keep_headers(&self.headers, false);
        ProxiedRequest { method: self.method, url: self.url, headers }
    }

    /// Points a homeserver-bound request at the homeserver's real scheme;
    /// any other request is left as it is.
    pub fn into_request(self, homeserver: &RequestUrl) -> (r: ProxiedRequest)
        ensures
            r.method == self.method,
            r.headers == self.headers,
            forwarded_url(r.url, self.url, *homeserver, None),
    {
        ProxiedRequest { method: self.method, url: retarget(self.url, homeserver), headers: self.headers }
    }

    /// Decides what the proxy does with this request, as `handled` states;
    /// `record` is the identity record stored for the localpart that
    /// `bot_localpart` gives, if any.
    pub fn handle(self, ctx: &ProxyContext, record: Option<&UserRecord>) -> (r: ProxyAction)
        ensures
            handled(self, *ctx, record_token(record), r),
    {
        match self.verify_entity(ctx, record) {
            None => ProxyAction::Respond(unauthorized()),
            Some(entity) => {
                let to_homeserver = match (&self.url.host, &ctx.homeserver.host) {
                    (Some(a), Some(b)) => *a == *b,
                    _ => false,
                };
                if to_homeserver {
                    let authorized = self.authorize(entity);
                    ProxyAction::Forward(authorized.into_request(&ctx.homeserver))
                } else {
                    ProxyAction::Forward(self.strip_internal())
                }
            },
        }
    }
}

/// The answer to a request that does not authenticate: `401` with a fixed
/// body.
pub fn unauthorized() -> (r: ProxyResponse)
    ensures
        r.status == 401,
        r.body@ == "proxy.unauthorized"@,
{
    ProxyResponse { status: 401, body: String::from_str("proxy.unauthorized") }
}

/// The answer where the upstream call itself failed: `500` with a short
/// diagnostic.
pub fn upstream_failure(diagnostic: &str) -> (r: ProxyResponse)
    ensures
        r.status == 500,
        r.body@ == "Internal error: "@ + diagnostic@,
{
    let mut body = String::from_str("Internal error: ");
    body.append(diagnostic);
    ProxyResponse { status: 500, body }
}

/// The name resolution installed in every virtual client: whatever the
/// host, the answer is the local proxy, so that all of a client's traffic
/// goes through it.
#[derive(Clone, Copy, Debug, PartialEq, Eq, Structural)]
pub struct ProxyResolver {
    pub port: u16,
}

impl ProxyResolver {
    pub fn new(port: u16) -> (r: ProxyResolver)
        ensures
            r.port == port,
    {
        ProxyResolver { port }
    }

    /// The address for any host name: `127.0.0.1` at the proxy's port.
    pub fn resolve(&self) -> (r: ([u8; 4], u16))
        ensures
            r == ([127u8, 0u8, 0u8, 1u8], self.port),
    {
        ([127, 0, 0, 1], self.port)
    }
}

/// What a proxy directive applies to.
#[derive(Debug)]
pub enum ProxyDirectiveTarget {
    Service { path: String },
    Bot { token: String, path: String },
}

impl ProxyDirectiveTarget {
    pub fn service(path: String) -> (r: ProxyDirectiveTarget)
        ensures
            r == (ProxyDirectiveTarget::Service { path }),
    {
        ProxyDirectiveTarget::Service { path }
    }

    pub fn bot(path: String, token: String) -> (r: ProxyDirectiveTarget)
        ensures
            r == (ProxyDirectiveTarget::Bot { token, path }),
    {
        ProxyDirectiveTarget::Bot { token, path }
    }
}

/// A directive to the proxy for a target.
#[derive(Clone, Copy, Debug, PartialEq, Eq, Structural)]
pub enum ProxyDirective {
    DoNotModify,
}

/// No header of `h` belongs to the internal proxy protocol; in particular
/// none of `x-proxy-role`, `x-proxy-token`, `x-proxy-bot-token` and
/// `x-proxy-bot-user` is there.
pub open spec fn without_internal_headers(h: Seq<HeaderField>) -> bool {
    &&& forall|i: int| 0 <= i < h.len() ==> !is_internal(#[trigger] h[i].name@)
    &&& lookup(h, "x-proxy-role"@) is None
    &&& lookup(h, "x-proxy-token"@) is None
    &&& lookup(h, "x-proxy-bot-token"@) is None
    &&& lookup(h, "x-proxy-bot-user"@) is None
}

/// The headers say who sent them in a way that the proxy accepts.
pub open spec fn authenticates(h: Seq<HeaderField>, proxy_token: Seq<char>, record_token: Option<Seq<char>>) -> bool {
    let role = header_text(h, "x-proxy-role"@);
    let bot_token = header_text(h, "x-proxy-bot-token"@);
    &&& header_text(h, "x-proxy-token"@) == Some(proxy_token)
    &&& (role == Some("SERVICE"@) || (role == Some("BOT"@) && bot_token is Some && bot_token == record_token
        && header_text(h, "x-proxy-bot-user"@) is Some))
}

proof fn lemma_kept_not_dropped(h: Seq<HeaderField>, n: int, replace_auth: bool)
    ensures
        forall|j: int| 0 <= j < kept(h, n, replace_auth).len()
            ==> !is_dropped(#[trigger] kept(h, n, replace_auth)[j].name@, replace_auth),
    decreases n,
{
    if n > 0 {
        lemma_kept_not_dropped(h, n - 1, replace_auth);
        let k = kept(h, n - 1, replace_auth);
        if !is_dropped(h[n - 1].name@, replace_auth) {
            assert forall|j: int| 0 <= j < kept(h, n, replace_auth).len()
                implies !is_dropped(#[trigger] kept(h, n, replace_auth)[j].name@, replace_auth) by {
                if j < k.len() {
                    assert(kept(h, n, replace_auth)[j] == k[j]);
                }
            }
        }
    }
}

proof fn lemma_lookup_absent(h: Seq<HeaderField>, name: Seq<char>, i: int)
    requires
        forall|j: int| i <= j < h.len() ==> !name_eq(#[trigger] h[j].name@, name),
    ensures
        lookup_from(h, name, i) is None,
    decreases h.len() - i,
{
    if 0 <= i < h.len() {
        lemma_lookup_absent(h, name, i + 1);
    }
}

proof fn lemma_lookup_last(h: Seq<HeaderField>, name: Seq<char>, i: int)
    requires
        0 <= i < h.len(),
        forall|j: int| i <= j < h.len() - 1 ==> !name_eq(#[trigger] h[j].name@, name),
        name_eq(h[h.len() - 1].name@, name),
    ensures
        lookup_from(h, name, i) == Some(h[h.len() - 1].value@),
    decreases h.len() - i,
{
    if i < h.len() - 1 {
        lemma_lookup_last(h, name, i + 1);
    }
}

/// A name equal to one of the four internal header names is internal, and
/// `authorization` is not.
proof fn lemma_internal_names(n: Seq<char>)
    ensures
        name_eq(n, "x-proxy-role"@) ==> is_internal(n),
        name_eq(n, "x-proxy-token"@) ==> is_internal(n),
        name_eq(n, "x-proxy-bot-token"@) ==> is_internal(n),
        name_eq(n, "x-proxy-bot-user"@) ==> is_internal(n),
        !is_internal("authorization"@),
        name_eq("authorization"@, "authorization"@),
{
    reveal_strlit("x-proxy-");
    reveal_strlit("x-proxy-role");
    reveal_strlit("x-proxy-token");
    reveal_strlit("x-proxy-bot-token");
    reveal_strlit("x-proxy-bot-user");
    reveal_strlit("authorization");
    let p = "x-proxy-"@;
    assert forall|full: Seq<char>| p.len() <= full.len() && full.subrange(0, 8) == p && name_eq(n, full)
        implies is_internal(n) by {
        assert forall|i: int| 0 <= i < p.len() implies char_eq_ignore_case(
            #[trigger] n.subrange(0, p.len() as int)[i], p[i]) by {
            assert(full[i] == p[i]);
            assert(char_eq_ignore_case(n[i], full[i]));
        }
    }
    assert("x-proxy-role"@.subrange(0, 8) =~= p);
    assert("x-proxy-token"@.subrange(0, 8) =~= p);
    assert("x-proxy-bot-token"@.subrange(0, 8) =~= p);
    assert("x-proxy-bot-user"@.subrange(0, 8) =~= p);
    assert(!char_eq_ignore_case("authorization"@.subrange(0, 8)[0], p[0]));
}

/// Whatever the proxy forwards carries no header of the internal protocol.
pub proof fn lemma_forwarded_without_internal_headers(
    req: ProxiedRequest,
    ctx: ProxyContext,
    record_token: Option<Seq<char>>,
    r: ProxyAction,
)
    requires
        handled(req, ctx, record_token, r),
        r is Forward,
    ensures
        without_internal_headers(r->Forward_0.headers@),
{
    let h = req.headers@;
    let out = r->Forward_0.headers@;
    if targets_homeserver(req.url, ctx.homeserver) {
        let k = kept_headers(h, true);
        lemma_kept_not_dropped(h, h.len() as int, true);
        assert forall|i: int| 0 <= i < out.len() implies !is_internal(#[trigger] out[i].name@) by {
            lemma_internal_names(out[i].name@);
            if i < k.len() {
                assert(out[i] == out.subrange(0, k.len() as int)[i]);
            }
        }
    } else {
        lemma_kept_not_dropped(h, h.len() as int, false);
    }
    assert forall|j: int| 0 <= j < out.len() implies {
        &&& !name_eq(#[trigger] out[j].name@, "x-proxy-role"@)
        &&& !name_eq(out[j].name@, "x-proxy-token"@)
        &&& !name_eq(out[j].name@, "x-proxy-bot-token"@)
        &&& !name_eq(out[j].name@, "x-proxy-bot-user"@)
    } by {
        lemma_internal_names(out[j].name@);
    }
    lemma_lookup_absent(out, "x-proxy-role"@, 0);
    lemma_lookup_absent(out, "x-proxy-token"@, 0);
    lemma_lookup_absent(out, "x-proxy-bot-token"@, 0);
    lemma_lookup_absent(out, "x-proxy-bot-user"@, 0);
}

proof fn lemma_authorization_found(out: Seq<HeaderField>, h: Seq<HeaderField>, credential: Seq<char>)
    requires
        authorized_headers(out, h, credential),
    ensures
        lookup(out, "authorization"@) == Some("Bearer "@ + credential),
{
    let k = kept_headers(h, true);
    lemma_kept_not_dropped(h, h.len() as int, true);
    lemma_internal_names(out[k.len() as int].name@);
    assert forall|j: int| 0 <= j < out.len() - 1 implies !name_eq(#[trigger] out[j].name@, "authorization"@) by {
        assert(out[j] == out.subrange(0, k.len() as int)[j]);
    }
    lemma_lookup_last(out, "authorization"@, 0);
}

/// A request from the service identity with the right proxy token, bound
/// for the homeserver, is forwarded with `authorization: Bearer <master
/// secret>` and without any internal header.
pub proof fn lemma_service_request_forwarded(
    req: ProxiedRequest,
    ctx: ProxyContext,
    record_token: Option<Seq<char>>,
    r: ProxyAction,
)
    requires
        header_text(req.headers@, "x-proxy-role"@) == Some("SERVICE"@),
        header_text(req.headers@, "x-proxy-token"@) == Some(ctx.proxy_token@),
        targets_homeserver(req.url, ctx.homeserver),
        handled(req, ctx, record_token, r),
    ensures
        r is Forward,
        lookup(r->Forward_0.headers@, "authorization"@) == Some("Bearer "@ + ctx.appservice_token@),
        without_internal_headers(r->Forward_0.headers@),
{
    lemma_authorization_found(r->Forward_0.headers@, req.headers@, ctx.appservice_token@);
    lemma_forwarded_without_internal_headers(req, ctx, record_token, r);
}

/// A request from a bot with the right proxy token and the secret stored
/// for the localpart that it names, bound for the homeserver, is forwarded
/// with `authorization: Bearer <master secret>`, with the query extended by
/// `user_id=<@localpart:server>` (urlencoded), and without any internal
/// header.
pub proof fn lemma_bot_request_forwarded(
    req: ProxiedRequest,
    ctx: ProxyContext,
    stored_secret: Seq<char>,
    localpart: Seq<char>,
    r: ProxyAction,
)
    requires
        header_text(req.headers@, "x-proxy-role"@) == Some("BOT"@),
        header_text(req.headers@, "x-proxy-token"@) == Some(ctx.proxy_token@),
        header_text(req.headers@, "x-proxy-bot-token"@) == Some(stored_secret),
        header_text(req.headers@, "x-proxy-bot-user"@) == Some(localpart),
        targets_homeserver(req.url, ctx.homeserver),
        handled(req, ctx, Some(stored_secret), r),
    ensures
        r is Forward,
        lookup(r->Forward_0.headers@, "authorization"@) == Some("Bearer "@ + ctx.appservice_token@),
        r->Forward_0.url.query is Some,
        r->Forward_0.url.query->0@ == query_with_pair(
            opt_view(req.url.query),
            "user_id"@,
            full_user_id(localpart, ctx.server_name@),
        ),
        without_internal_headers(r->Forward_0.headers@),
{
    reveal_strlit("SERVICE");
    reveal_strlit("BOT");
    assert("BOT"@ != "SERVICE"@) by {
        assert("BOT"@.len() != "SERVICE"@.len());
    }
    lemma_authorization_found(r->Forward_0.headers@, req.headers@, ctx.appservice_token@);
    lemma_forwarded_without_internal_headers(req, ctx, Some(stored_secret), r);
}

/// A request without a role, with a role other than `SERVICE` and `BOT`, or
/// with a wrong or missing secret at any step is answered `401` with the
/// fixed body, and nothing is forwarded.
pub proof fn lemma_unauthenticated_request_refused(
    req: ProxiedRequest,
    ctx: ProxyContext,
    record_token: Option<Seq<char>>,
    r: ProxyAction,
)
    requires
        !authenticates(req.headers@, ctx.proxy_token@, record_token),
        handled(req, ctx, record_token, r),
    ensures
        r is Respond,
        r->Respond_0.status == 401,
        r->Respond_0.body@ == "proxy.unauthorized"@,
{
    reveal_strlit("SERVICE");
    reveal_strlit("BOT");
    assert("BOT"@ != "SERVICE"@) by {
        assert("BOT"@.len() != "SERVICE"@.len());
    }
}

/// Forwarding keeps host, port and path. A request to any host other than
/// the homeserver's is forwarded to the very URL it named; one from the
/// service identity to the homeserver changes only in its scheme, which
/// becomes the homeserver's.
pub proof fn lemma_forwarded_target(
    req: ProxiedRequest,
    ctx: ProxyContext,
    record_token: Option<Seq<char>>,
    r: ProxyAction,
)
    requires
        handled(req, ctx, record_token, r),
        r is Forward,
    ensures
        r->Forward_0.url.host == req.url.host,
        r->Forward_0.url.port == req.url.port,
        r->Forward_0.url.path == req.url.path,
        !targets_homeserver(req.url, ctx.homeserver) ==> r->Forward_0.url == req.url,
        targets_homeserver(req.url, ctx.homeserver)
            && classify(req.headers@, ctx.proxy_token@, ctx.server_name@, record_token) == Some(None::<Seq<char>>)
            ==> r->Forward_0.url.query == req.url.query && r->Forward_0.url.scheme@ == ctx.homeserver.scheme@,
{
}

} // verus!
