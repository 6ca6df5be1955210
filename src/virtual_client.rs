use vstd::prelude::*;
use vstd::string::*;
use crate::error::Error;
use crate::headers::HeaderField;
use crate::url_parts::opt_view;
use crate::user::{UserRecord, random_device_id};

verus! {

/// Whether this virtual client is a bot or the service user
#[derive(Clone, Copy, Debug, PartialEq, Eq, Structural)]
pub enum VirtualClientKind {
    /// This client is a bot user (sets user_id)
    Bot,
    /// This client is the service user (uses sender_localpart)
    Service,
}

impl Default for VirtualClientKind {
    fn default() -> (r: VirtualClientKind)
        ensures
            r == VirtualClientKind::Service,
    {
        VirtualClientKind::Service
    }
}

/// The service user is the one whose localpart is the sender localpart;
/// every other localpart is a bot.
pub fn client_kind(localpart: &str, sender_localpart: &str) -> (r: VirtualClientKind)
    ensures
        r == (if localpart@ == sender_localpart@ { VirtualClientKind::Service } else { VirtualClientKind::Bot }),
{
    if localpart.to_string() == sender_localpart.to_string() {
        VirtualClientKind::Service
    } else {
        VirtualClientKind::Bot
    }
}

/// How a virtual client gets its session.
#[derive(Debug)]
pub enum SessionSetup {
    /// Restore the session that the caller supplied, with no network call
    Restore,
    /// Log in through the appservice login flow as this localpart
    Login { localpart: String, requested_device: Option<String> },
    /// Make the session directly: the user id, a device id and the master
    /// secret as access token (the proxy puts the master secret on the wire
    /// in any case)
    Direct { user_id: String, device_id: String, access_token: String },
}

/// The options of a request for a virtual client.
#[derive(Debug)]
pub struct BuildOptions {
    pub localpart: String,
    pub device_id: Option<String>,
    pub log_in: bool,
    pub create_new: bool,
    pub restore_session: bool,
}

/// What a new virtual client is built from.
#[derive(Debug)]
pub struct BuildPlan {
    pub kind: VirtualClientKind,
    pub user_id: String,
    /// The internal headers that its transport sends with every request
    pub headers: Vec<HeaderField>,
    pub session: SessionSetup,
}

pub open spec fn field_is(f: HeaderField, name: Seq<char>, value: Seq<char>) -> bool {
    f.name@ == name && f.value@ == value
}

/// The internal headers of a service client.
pub open spec fn service_headers(h: Seq<HeaderField>, proxy_token: Seq<char>) -> bool {
    &&& h.len() == 2
    &&& field_is(h[0], "x-proxy-role"@, "SERVICE"@)
    &&& field_is(h[1], "x-proxy-token"@, proxy_token)
}

/// The internal headers of a bot client.
pub open spec fn bot_headers(h: Seq<HeaderField>, proxy_token: Seq<char>, bot_token: Seq<char>, localpart: Seq<char>) -> bool {
    &&& h.len() == 4
    &&& field_is(h[0], "x-proxy-role"@, "BOT"@)
    &&& field_is(h[1], "x-proxy-token"@, proxy_token)
    &&& field_is(h[2], "x-proxy-bot-token"@, bot_token)
    &&& field_is(h[3], "x-proxy-bot-user"@, localpart)
}

fn field(name: &str, value: &str) -> (r: HeaderField)
    ensures
        field_is(r, name@, value@),
{
    HeaderField { name: name.to_string(), value: value.to_string() }
}

/// The internal headers for a client of `kind`: a bot needs the identity
/// record stored for its localpart, and without one it is unregistered.
pub fn proxy_headers(kind: VirtualClientKind, proxy_token: &str, localpart: &str, record: Option<&UserRecord>) -> (r: Result<Vec<HeaderField>, Error>)
    ensures
        kind == VirtualClientKind::Service ==> r is Ok && service_headers(r->Ok_0@, proxy_token@),
        kind == VirtualClientKind::Bot && record is None ==> r is Err && r->Err_0.is_unregistered(localpart@),
        kind == VirtualClientKind::Bot && record is Some ==> r is Ok
            && bot_headers(r->Ok_0@, proxy_token@, record->0.token@, localpart@),
{
    match kind {
        VirtualClientKind::Service => {
            let mut h: Vec<HeaderField> = Vec::new();
            h.push(field("x-proxy-role", "SERVICE"));
            h.push(field("x-proxy-token", proxy_token));
            Ok(h)
        },
        VirtualClientKind::Bot => match record {
            Some(rec) => {
                let mut h: Vec<HeaderField> = Vec::new();
                h.push(field("x-proxy-role", "BOT"));
                h.push(field("x-proxy-token", proxy_token));
                h.push(field("x-proxy-bot-token", rec.token.as_str()));
                h.push(field("x-proxy-bot-user", localpart));
                Ok(h)
            },
            None => Err(Error::UnregisteredUser(localpart.to_string())),
        },
    }
}

/// The session of a new client: a supplied one is restored; a bot asked to
/// log in logs in; otherwise the session is made directly, with the device
/// id asked for or a random one.
pub open spec fn session_planned(s: SessionSetup, o: BuildOptions, kind: VirtualClientKind, user_id: Seq<char>, appservice_token: Seq<char>) -> bool {
    if o.restore_session {
        s is Restore
    } else if o.log_in && kind == VirtualClientKind::Bot {
        s matches SessionSetup::Login { localpart, requested_device }
            && localpart@ == o.localpart@ && opt_view(requested_device) == opt_view(o.device_id)
    } else {
        s matches SessionSetup::Direct { user_id: u, device_id, access_token }
            && u@ == user_id && access_token@ == appservice_token
            && (o.device_id is Some ==> device_id@ == o.device_id->0@)
    }
}

impl BuildOptions {
    /// Options for the client of `localpart`: no login, the cache used, no
    /// supplied session, any device id.
    pub fn new(localpart: String) -> (r: BuildOptions)
        ensures
            r.localpart == localpart,
            r.device_id is None,
            !r.log_in && !r.create_new && !r.restore_session,
    {
        BuildOptions { localpart, device_id: None, log_in: false, create_new: false, restore_session: false }
    }

    /// Set the device ID of the user
    pub fn device_id(self, device_id: Option<String>) -> (r: BuildOptions)
        ensures
            r == (BuildOptions { device_id, ..self }),
    {
        BuildOptions { device_id, ..self }
    }

    /// Log in as the user (for bots)
    pub fn login(self) -> (r: BuildOptions)
        ensures
            r == (BuildOptions { log_in: true, ..self }),
    {
        BuildOptions { log_in: true, ..self }
    }

    /// Force the creation of a new client (replaces any old client for this localpart)
    pub fn create_new(self) -> (r: BuildOptions)
        ensures
            r == (BuildOptions { create_new: true, ..self }),
    {
        BuildOptions { create_new: true, ..self }
    }

    /// A persisted session will be restored
    pub fn restored_session(self) -> (r: BuildOptions)
        ensures
            r == (BuildOptions { restore_session: true, ..self }),
    {
        BuildOptions { restore_session: true, ..self }
    }

    fn session(&self, kind: VirtualClientKind, user_id: &String, appservice_token: &str) -> (r: SessionSetup)
        ensures
            session_planned(r, *self, kind, user_id@, appservice_token@),
    {
        if self.restore_session {
            SessionSetup::Restore
        } else if self.log_in && kind == VirtualClientKind::Bot {
            SessionSetup::Login { localpart: self.localpart.clone(), requested_device: crate::url_parts::clone_opt_string(&self.device_id) }
        } else {
            let device_id = match &self.device_id {
                Some(d) => d.clone(),
                None => random_device_id(),
            };
            SessionSetup::Direct { user_id: user_id.clone(), device_id, access_token: appservice_token.to_string() }
        }
    }

    /// Plans a new client for the already resolved `user_id`: its kind, its
    /// internal headers and its session. `record` is the identity record
    /// stored for the localpart, if any; a bot without one is unregistered.
    pub fn plan(
        &self,
        user_id: String,
        sender_localpart: &str,
        proxy_token: &str,
        appservice_token: &str,
        record: Option<&UserRecord>,
    ) -> (r: Result<BuildPlan, Error>)
        ensures
            ({
                let kind = if self.localpart@ == sender_localpart@ { VirtualClientKind::Service } else { VirtualClientKind::Bot };
                &&& (kind == VirtualClientKind::Bot && record is None) <==> r is Err
                &&& r is Err ==> r->Err_0.is_unregistered(self.localpart@)
                &&& r is Ok ==> {
                    let p = r->Ok_0;
                    &&& p.kind == kind
                    &&& p.user_id == user_id
                    &&& session_planned(p.session, *self, kind, user_id@, appservice_token@)
                    &&& if kind == VirtualClientKind::Service {
                        service_headers(p.headers@, proxy_token@)
                    } else {
                        bot_headers(p.headers@, proxy_token@, record->0.token@, self.localpart@)
                    }
                }
            }),
    {
        let kind = client_kind(self.localpart.as_str(), sender_localpart);
        match proxy_headers(kind, proxy_token, self.localpart.as_str(), record) {
            Ok(headers) => {
                let session = self.session(kind, &user_id, appservice_token);
                Ok(BuildPlan { kind, user_id, headers, session })
            },
            Err(e) => Err(e),
        }
    }
}

} // verus!
