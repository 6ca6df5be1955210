use vstd::prelude::*;
use vstd::string::*;
use crate::error::Error;
use crate::proxy::ProxyContext;
use crate::text::{contains, has_prefix, has_substring, starts_with};
use crate::url_parts::{RequestUrl, parsed_url};
use crate::user::{base64_of, generate_key};

verus! {

/// The version of this library, part of the default user agent.
pub const LIBRARY_VERSION: &'static str = "0.1.0";

/// The possible types of [Namespace]
#[derive(Clone, Copy, Debug, PartialEq, Eq, Structural)]
pub enum NamespaceKind {
    Alias,
    Room,
    User,
}

/// A single appservice namespace
#[derive(Debug)]
pub struct Namespace {
    /// What kind of namespace this is
    pub kind: NamespaceKind,
    /// A POSIX regular expression defining which values this namespace includes.
    pub regex: String,
    /// Whether this application service has exclusive access to events within this namespace.
    pub exclusive: bool,
}

impl Namespace {
    /// Creates a new [Namespace]
    pub fn new(kind: NamespaceKind, regex: String, exclusive: bool) -> (r: Namespace)
        ensures
            r == (Namespace { kind, regex, exclusive }),
    {
        Namespace { kind, regex, exclusive }
    }

    /// Creates a new exclusive alias [Namespace].
    pub fn alias(regex: String) -> (r: Namespace)
        ensures
            r == (Namespace { kind: NamespaceKind::Alias, regex, exclusive: true }),
    {
        Namespace { kind: NamespaceKind::Alias, regex, exclusive: true }
    }

    /// Creates a new exclusive room [Namespace].
    pub fn room(regex: String) -> (r: Namespace)
        ensures
            r == (Namespace { kind: NamespaceKind::Room, regex, exclusive: true }),
    {
        Namespace { kind: NamespaceKind::Room, regex, exclusive: true }
    }

    /// Creates a new exclusive user [Namespace].
    pub fn user(regex: String) -> (r: Namespace)
        ensures
            r == (Namespace { kind: NamespaceKind::User, regex, exclusive: true }),
    {
        Namespace { kind: NamespaceKind::User, regex, exclusive: true }
    }

    pub fn duplicate(&self) -> (r: Namespace)
        ensures
            r == *self,
    {
        Namespace { kind: self.kind, regex: self.regex.clone(), exclusive: self.exclusive }
    }
}

/// Relies on openport::pick_unused_port: the first port of the inclusive
/// range that is free on TCP and UDP when it is probed, if there is one.
#[verifier::external_body]
fn pick_unused_port(low: u16, high: u16) -> (r: Option<u16>)
    ensures
        r is Some ==> low <= r->0 <= high,
        low > high ==> r is None,
{
    openport::pick_unused_port(low..=high)
}

/// A range of ports (inclusive)
#[derive(Clone, Copy, Debug, PartialEq, Eq, Structural)]
pub struct PortRange {
    pub low: u16,
    pub high: u16,
}

impl PortRange {
    /// Gets a port of the range that is free now, if there is one.
    pub fn pick(&self) -> (r: Option<u16>)
        ensures
            r is Some ==> self.low <= r->0 <= self.high,
            self.low > self.high ==> r is None,
    {
        pick_unused_port(self.low, self.high)
    }
}

impl Default for PortRange {
    fn default() -> (r: PortRange)
        ensures
            r == (PortRange { low: 50000, high: 65000 }),
    {
        PortRange { low: 50000, high: 65000 }
    }
}

/// Global configuration for the appservice, made by [ConfigBuilder].
#[derive(Debug)]
pub struct Config {
    pub app_id: String,
    pub namespaces: Vec<Namespace>,
    pub protocols: Vec<String>,
    pub appservice_token: String,
    pub homeserver_token: String,
    pub rate_limited: bool,
    pub receive_ephemeral: bool,
    pub sender_localpart: String,
    pub url: Option<String>,
    pub local_address: ([u8; 4], u16),
    pub proxy_ports: PortRange,
    pub user_agent: String,
    pub homeserver: String,
    pub proxy: Option<String>,
    pub persist_state: Option<String>,
}

/// Builder of a [Config]; `sender_localpart` and `homeserver` must be set.
#[derive(Debug)]
pub struct ConfigBuilder {
    pub app_id: String,
    pub namespaces: Vec<Namespace>,
    pub protocols: Vec<String>,
    pub appservice_token: Option<String>,
    pub homeserver_token: Option<String>,
    pub rate_limited: bool,
    pub receive_ephemeral: bool,
    pub sender_localpart: Option<String>,
    pub url: Option<String>,
    pub local_address: ([u8; 4], u16),
    pub proxy_ports: PortRange,
    pub user_agent: String,
    pub homeserver: Option<String>,
    pub proxy: Option<String>,
    pub persist_state: Option<String>,
}

impl ConfigBuilder {
    /// Adds a single namespace to this config
    pub fn namespace(self, namespace: Namespace) -> (r: ConfigBuilder)
        ensures
            r.namespaces@ == self.namespaces@.push(namespace),
            r == (ConfigBuilder { namespaces: r.namespaces, ..self }),
    {
        let mut b = self;
        b.namespaces.push(namespace);
        b
    }

    /// Adds several namespaces to this config
    pub fn namespaces(self, namespaces: Vec<Namespace>) -> (r: ConfigBuilder)
        ensures
            r.namespaces@ == self.namespaces@ + namespaces@,
            r == (ConfigBuilder { namespaces: r.namespaces, ..self }),
    {
        let mut b = self;
        let mut more = namespaces;
        b.namespaces.append(&mut more);
        b
    }

    /// Adds a single protocol to this config
    pub fn protocol(self, protocol: String) -> (r: ConfigBuilder)
        ensures
            r.protocols@ == self.protocols@.push(protocol),
            r == (ConfigBuilder { protocols: r.protocols, ..self }),
    {
        let mut b = self;
        b.protocols.push(protocol);
        b
    }

    /// Adds several protocols to this config
    pub fn protocols(self, protocols: Vec<String>) -> (r: ConfigBuilder)
        ensures
            r.protocols@ == self.protocols@ + protocols@,
            r == (ConfigBuilder { protocols: r.protocols, ..self }),
    {
        let mut b = self;
        let mut more = protocols;
        b.protocols.append(&mut more);
        b
    }

    pub fn appservice_token(self, token: String) -> (r: ConfigBuilder)
        ensures
            r == (ConfigBuilder { appservice_token: Some(token), ..self }),
    {
        ConfigBuilder { appservice_token: Some(token), ..self }
    }

    pub fn homeserver_token(self, token: String) -> (r: ConfigBuilder)
        ensures
            r == (ConfigBuilder { homeserver_token: Some(token), ..self }),
    {
        ConfigBuilder { homeserver_token: Some(token), ..self }
    }

    pub fn rate_limited(self, rate_limited: bool) -> (r: ConfigBuilder)
        ensures
            r == (ConfigBuilder { rate_limited, ..self }),
    {
        ConfigBuilder { rate_limited, ..self }
    }

    pub fn receive_ephemeral(self, receive_ephemeral: bool) -> (r: ConfigBuilder)
        ensures
            r == (ConfigBuilder { receive_ephemeral, ..self }),
    {
        ConfigBuilder { receive_ephemeral, ..self }
    }

    pub fn sender_localpart(self, localpart: String) -> (r: ConfigBuilder)
        ensures
            r == (ConfigBuilder { sender_localpart: Some(localpart), ..self }),
    {
        ConfigBuilder { sender_localpart: Some(localpart), ..self }
    }

    pub fn url(self, url: String) -> (r: ConfigBuilder)
        ensures
            r == (ConfigBuilder { url: Some(url), ..self }),
    {
        ConfigBuilder { url: Some(url), ..self }
    }

    pub fn local_address(self, ip: [u8; 4], port: u16) -> (r: ConfigBuilder)
        ensures
            r == (ConfigBuilder { local_address: (ip, port), ..self }),
    {
        ConfigBuilder { local_address: (ip, port), ..self }
    }

    pub fn proxy_ports(self, ports: PortRange) -> (r: ConfigBuilder)
        ensures
            r == (ConfigBuilder { proxy_ports: ports, ..self }),
    {
        ConfigBuilder { proxy_ports: ports, ..self }
    }

    pub fn user_agent(self, user_agent: String) -> (r: ConfigBuilder)
        ensures
            r == (ConfigBuilder { user_agent, ..self }),
    {
        ConfigBuilder { user_agent, ..self }
    }

    pub fn homeserver(self, homeserver: String) -> (r: ConfigBuilder)
        ensures
            r == (ConfigBuilder { homeserver: Some(homeserver), ..self }),
    {
        ConfigBuilder { homeserver: Some(homeserver), ..self }
    }

    pub fn proxy(self, proxy: String) -> (r: ConfigBuilder)
        ensures
            r == (ConfigBuilder { proxy: Some(proxy), ..self }),
    {
        ConfigBuilder { proxy: Some(proxy), ..self }
    }

    pub fn persist_state(self, path: String) -> (r: ConfigBuilder)
        ensures
            r == (ConfigBuilder { persist_state: Some(path), ..self }),
    {
        ConfigBuilder { persist_state: Some(path), ..self }
    }

    /// Whether the fields without a default are set.
    pub fn is_complete(&self) -> (r: bool)
        ensures
            r == (self.sender_localpart is Some && self.homeserver is Some),
    {
        self.sender_localpart.is_some() && self.homeserver.is_some()
    }

    /// Builds the final [Config]. A secret that was not given is a fresh
    /// random key of 32 bytes; an empty user agent becomes
    /// `<app id>/matrix-app-services:<library version>`.
    pub fn build(self) -> (r: Config)
        requires
            self.sender_localpart is Some,
            self.homeserver is Some,
        ensures
            r.app_id == self.app_id,
            r.namespaces == self.namespaces,
            r.protocols == self.protocols,
            self.appservice_token is Some ==> r.appservice_token == self.appservice_token->0,
            self.appservice_token is None ==> exists|b: Seq<u8>| b.len() == 32 && r.appservice_token@ == base64_of(b),
            self.homeserver_token is Some ==> r.homeserver_token == self.homeserver_token->0,
            self.homeserver_token is None ==> exists|b: Seq<u8>| b.len() == 32 && r.homeserver_token@ == base64_of(b),
            r.rate_limited == self.rate_limited,
            r.receive_ephemeral == self.receive_ephemeral,
            r.sender_localpart == self.sender_localpart->0,
            r.url == self.url,
            r.local_address == self.local_address,
            r.proxy_ports == self.proxy_ports,
            self.user_agent@.len() > 0 ==> r.user_agent == self.user_agent,
            self.user_agent@.len() == 0 ==> r.user_agent@ == self.app_id@ + "/matrix-app-services:"@ + LIBRARY_VERSION@,
            r.homeserver == self.homeserver->0,
            r.proxy == self.proxy,
            r.persist_state == self.persist_state,
    {
        let ConfigBuilder {
            app_id, namespaces, protocols, appservice_token, homeserver_token, rate_limited,
            receive_ephemeral, sender_localpart, url, local_address, proxy_ports, user_agent,
            homeserver, proxy, persist_state,
        } = self;
        let appservice_token = match appservice_token {
            Some(t) => t,
            None => generate_key(32),
        };
        let homeserver_token = match homeserver_token {
            Some(t) => t,
            None => generate_key(32),
        };
        let user_agent = if user_agent.unicode_len() == 0 {
            let mut a = app_id.clone();
            a.append("/matrix-app-services:");
            a.append(LIBRARY_VERSION);
            a
        } else {
            user_agent
        };
        let sender_localpart = match sender_localpart {
            Some(s) => s,
            None => String::new(),
        };
        let homeserver = match homeserver {
            Some(h) => h,
            None => String::new(),
        };
        Config {
            app_id, namespaces, protocols, appservice_token, homeserver_token, rate_limited,
            receive_ephemeral, sender_localpart, url, local_address, proxy_ports, user_agent,
            homeserver, proxy, persist_state,
        }
    }
}

/// The registration document of an appservice, in the shape of the standard
/// appservice registration: namespaces grouped by kind.
#[derive(Debug)]
pub struct Registration {
    pub id: String,
    pub url: Option<String>,
    pub as_token: String,
    pub hs_token: String,
    pub sender_localpart: String,
    pub users: Vec<Namespace>,
    pub aliases: Vec<Namespace>,
    pub rooms: Vec<Namespace>,
    pub rate_limited: bool,
    pub protocols: Vec<String>,
    pub receive_ephemeral: bool,
}

/// The namespaces of `kind` among the first `n` of `ns`, in order.
pub open spec fn of_kind(ns: Seq<Namespace>, kind: NamespaceKind, n: int) -> Seq<Namespace>
    decreases n,
{
    if n <= 0 {
        Seq::<Namespace>::empty()
    } else if ns[n - 1].kind == kind {
        of_kind(ns, kind, n - 1).push(ns[n - 1])
    } else {
        of_kind(ns, kind, n - 1)
    }
}

/// The host of the URL that the parser makes of `s`, if any.
pub open spec fn parsed_host(s: Seq<char>) -> Option<Seq<char>> {
    match parsed_url(s) {
        Some((_, host, _, _, _)) => host,
        None => None,
    }
}

/// The text from which the homeserver's URL is parsed: the configured value
/// where it starts with `http` and holds `://`, else that value after
/// `https://`.
pub open spec fn homeserver_text(homeserver: Seq<char>) -> Seq<char> {
    if has_prefix(homeserver, "http"@) && has_substring(homeserver, "://"@) {
        homeserver
    } else {
        "https://"@ + homeserver
    }
}

fn clone_strings(v: &Vec<String>) -> (r: Vec<String>)
    ensures
        r@ == v@,
{
    let mut out: Vec<String> = Vec::new();
    let mut i: usize = 0;
    while i < v.len()
        invariant
            i <= v@.len(),
            out@ == v@.subrange(0, i as int),
        decreases v@.len() - i,
    {
        out.push(v[i].clone());
        assert(out@ =~= v@.subrange(0, i + 1));
        i = i + 1;
    }
    assert(out@ =~= v@);
    out
}

impl Config {
    /// Starts a builder for the appservice `app_id`.
    pub fn builder(app_id: String) -> (r: ConfigBuilder)
        ensures
            r.app_id == app_id,
            r.namespaces@.len() == 0,
            r.protocols@.len() == 0,
            r.appservice_token is None,
            r.homeserver_token is None,
            !r.rate_limited,
            !r.receive_ephemeral,
            r.sender_localpart is None,
            r.url is None,
            r.local_address == ([0u8, 0u8, 0u8, 0u8], 8080u16),
            r.proxy_ports == (PortRange { low: 50000, high: 65000 }),
            r.user_agent@.len() == 0,
            r.homeserver is None,
            r.proxy is None,
            r.persist_state is None,
    {
        ConfigBuilder {
            app_id,
            namespaces: Vec::new(),
            protocols: Vec::new(),
            appservice_token: None,
            homeserver_token: None,
            rate_limited: false,
            receive_ephemeral: false,
            sender_localpart: None,
            url: None,
            local_address: ([0, 0, 0, 0], 8080),
            proxy_ports: PortRange::default(),
            user_agent: String::new(),
            homeserver: None,
            proxy: None,
            persist_state: None,
        }
    }

    /// Generate a secure random key of `length` bytes, in base64
    pub fn generate_key(length: usize) -> (r: String)
        ensures
            exists|b: Seq<u8>| b.len() == length && r@ == base64_of(b),
    {
        generate_key(length)
    }

    /// The registration document of this appservice.
    pub fn registration(&self) -> (r: Registration)
        ensures
            r.id == self.app_id,
            r.url == self.url,
            r.as_token == self.appservice_token,
            r.hs_token == self.homeserver_token,
            r.sender_localpart == self.sender_localpart,
            r.users@ == of_kind(self.namespaces@, NamespaceKind::User, self.namespaces@.len() as int),
            r.aliases@ == of_kind(self.namespaces@, NamespaceKind::Alias, self.namespaces@.len() as int),
            r.rooms@ == of_kind(self.namespaces@, NamespaceKind::Room, self.namespaces@.len() as int),
            r.rate_limited == self.rate_limited,
            r.protocols@ == self.protocols@,
            r.receive_ephemeral == self.receive_ephemeral,
    {
        let mut users: Vec<Namespace> = Vec::new();
        let mut aliases: Vec<Namespace> = Vec::new();
        let mut rooms: Vec<Namespace> = Vec::new();
        let mut i: usize = 0;
        while i < self.namespaces.len()
            invariant
                i <= self.namespaces@.len(),
                users@ == of_kind(self.namespaces@, NamespaceKind::User, i as int),
                aliases@ == of_kind(self.namespaces@, NamespaceKind::Alias, i as int),
                rooms@ == of_kind(self.namespaces@, NamespaceKind::Room, i as int),
            decreases self.namespaces@.len() - i,
        {
            let ns = self.namespaces[i].duplicate();
            match ns.kind {
                NamespaceKind::Alias => aliases.push(ns),
                NamespaceKind::Room => rooms.push(ns),
                NamespaceKind::User => users.push(ns),
            }
            i = i + 1;
        }
        Registration {
            id: self.app_id.clone(),
            url: crate::url_parts::clone_opt_string(&self.url),
            as_token: self.appservice_token.clone(),
            hs_token: self.homeserver_token.clone(),
            sender_localpart: self.sender_localpart.clone(),
            users,
            aliases,
            rooms,
            rate_limited: self.rate_limited,
            protocols: clone_strings(&self.protocols),
            receive_ephemeral: self.receive_ephemeral,
        }
    }

    /// The homeserver's URL, parsed from `homeserver_text`.
    pub fn homeserver_url(&self) -> (r: Result<RequestUrl, Error>)
        ensures
            match r {
                Ok(u) => parsed_url(homeserver_text(self.homeserver@)) == Some(u.parts()),
                Err(e) => parsed_url(homeserver_text(self.homeserver@)) is None
                    && (e matches Error::UrlParsing { url, .. } && url@ == self.homeserver@),
            },
    {
        let h = self.homeserver.as_str();
        if starts_with(h, "http") && contains(h, "://") {
            RequestUrl::parse(h)
        } else {
            let mut text = String::from_str("https://");
            text.append(h);
            match RequestUrl::parse(text.as_str()) {
                Ok(u) => Ok(u),
                Err(Error::UrlParsing { url: _, err }) => Err(Error::url_parsing(self.homeserver.clone(), err)),
                Err(e) => Err(e),
            }
        }
    }

    /// The homeserver's name: the host of its URL.
    pub fn server_name(&self) -> (r: Result<String, Error>)
        ensures
            r is Ok <==> parsed_host(homeserver_text(self.homeserver@)) is Some,
            r is Ok ==> parsed_host(homeserver_text(self.homeserver@)) == Some(r->Ok_0@),
    {
        match self.homeserver_url() {
            Ok(u) => match u.host {
                Some(h) => Ok(h),
                None => Err(Error::MissingHost { url: self.homeserver.clone() }),
            },
            Err(e) => Err(e),
        }
    }

    /// What the proxy needs to know of this configuration, with the secret
    /// of this process.
    pub fn proxy_context(&self, proxy_token: String) -> (r: Result<ProxyContext, Error>)
        ensures
            r is Ok <==> parsed_host(homeserver_text(self.homeserver@)) is Some,
            r is Ok ==> {
                let c = r->Ok_0;
                &&& c.proxy_token == proxy_token
                &&& c.appservice_token == self.appservice_token
                &&& Some(c.homeserver.parts()) == parsed_url(homeserver_text(self.homeserver@))
                &&& c.homeserver.host is Some
                &&& c.server_name == c.homeserver.host->0
            },
    {
        match self.homeserver_url() {
            Ok(u) => match &u.host {
                Some(h) => {
                    let server_name = h.clone();
                    Ok(ProxyContext { proxy_token, appservice_token: self.appservice_token.clone(), server_name, homeserver: u })
                },
                None => Err(Error::MissingHost { url: self.homeserver.clone() }),
            },
            Err(e) => Err(e),
        }
    }

    pub fn app_id(&self) -> (r: &String)
        ensures
            r == self.app_id,
    {
        &self.app_id
    }

    pub fn namespaces(&self) -> (r: &Vec<Namespace>)
        ensures
            r == self.namespaces,
    {
        &self.namespaces
    }

    pub fn protocols(&self) -> (r: &Vec<String>)
        ensures
            r == self.protocols,
    {
        &self.protocols
    }

    pub fn appservice_token(&self) -> (r: &String)
        ensures
            r == self.appservice_token,
    {
        &self.appservice_token
    }

    pub fn homeserver_token(&self) -> (r: &String)
        ensures
            r == self.homeserver_token,
    {
        &self.homeserver_token
    }

    pub fn rate_limited(&self) -> (r: bool)
        ensures
            r == self.rate_limited,
    {
        self.rate_limited
    }

    pub fn receive_ephemeral(&self) -> (r: bool)
        ensures
            r == self.receive_ephemeral,
    {
        self.receive_ephemeral
    }

    pub fn sender_localpart(&self) -> (r: &String)
        ensures
            r == self.sender_localpart,
    {
        &self.sender_localpart
    }

    pub fn url(&self) -> (r: &Option<String>)
        ensures
            r == self.url,
    {
        &self.url
    }

    pub fn local_address(&self) -> (r: ([u8; 4], u16))
        ensures
            r == self.local_address,
    {
        self.local_address
    }

    pub fn proxy_ports(&self) -> (r: PortRange)
        ensures
            r == self.proxy_ports,
    {
        self.proxy_ports
    }

    pub fn user_agent(&self) -> (r: &String)
        ensures
            r == self.user_agent,
    {
        &self.user_agent
    }

    pub fn homeserver(&self) -> (r: &String)
        ensures
            r == self.homeserver,
    {
        &self.homeserver
    }

    pub fn proxy(&self) -> (r: &Option<String>)
        ensures
            r == self.proxy,
    {
        &self.proxy
    }

    pub fn persist_state(&self) -> (r: &Option<String>)
        ensures
            r == self.persist_state,
    {
        &self.persist_state
    }
}

} // verus!
