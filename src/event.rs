use vstd::prelude::*;

verus! {

/// The type of query event
#[derive(Clone, Copy, Debug, PartialEq, Eq, Structural)]
pub enum QueryKind {
    User,
    Room,
    Any,
}

/// The type of third-party event
#[derive(Clone, Copy, Debug, PartialEq, Eq, Structural)]
pub enum ThirdPartyKind {
    LocationForProtocol,
    LocationForRoomAlias,
    GetProtocol,
    UserForProtocol,
    UserForUserId,
    Any,
}

/// The type of appservice event
#[derive(Clone, Copy, Debug, PartialEq, Eq, Structural)]
pub enum AppserviceEventKind {
    Push,
    Ping,
    Query(QueryKind),
    ThirdParty(ThirdPartyKind),
}

/// Whether the filter `pattern` accepts the event kind `kind`: push and ping
/// only themselves, a query (third-party) filter the query (third-party) kind
/// it names, or every one of them when it names `Any`.
pub open spec fn kind_accepted(pattern: AppserviceEventKind, kind: AppserviceEventKind) -> bool {
    match pattern {
        AppserviceEventKind::Push => kind == AppserviceEventKind::Push,
        AppserviceEventKind::Ping => kind == AppserviceEventKind::Ping,
        AppserviceEventKind::Query(q) => match kind {
            AppserviceEventKind::Query(k) => q == QueryKind::Any || q == k,
            _ => false,
        },
        AppserviceEventKind::ThirdParty(t) => match kind {
            AppserviceEventKind::ThirdParty(k) => t == ThirdPartyKind::Any || t == k,
            _ => false,
        },
    }
}

fn accepts(pattern: AppserviceEventKind, kind: AppserviceEventKind) -> (r: bool)
    ensures
        r == kind_accepted(pattern, kind),
{
    match pattern {
        AppserviceEventKind::Push => kind == AppserviceEventKind::Push,
        AppserviceEventKind::Ping => kind == AppserviceEventKind::Ping,
        AppserviceEventKind::Query(q) => match kind {
            AppserviceEventKind::Query(k) => q == QueryKind::Any || q == k,
            _ => false,
        },
        AppserviceEventKind::ThirdParty(t) => match kind {
            AppserviceEventKind::ThirdParty(k) => t == ThirdPartyKind::Any || t == k,
            _ => false,
        },
    }
}

impl From<QueryKind> for AppserviceEventKind {
    fn from(value: QueryKind) -> (r: AppserviceEventKind)
        ensures
            r == AppserviceEventKind::Query(value),
    {
        AppserviceEventKind::Query(value)
    }
}

impl vstd::std_specs::convert::FromSpecImpl<QueryKind> for AppserviceEventKind {
    open spec fn obeys_from_spec() -> bool {
        true
    }

    open spec fn from_spec(v: QueryKind) -> AppserviceEventKind {
        AppserviceEventKind::Query(v)
    }
}

impl From<ThirdPartyKind> for AppserviceEventKind {
    fn from(value: ThirdPartyKind) -> (r: AppserviceEventKind)
        ensures
            r == AppserviceEventKind::ThirdParty(value),
    {
        AppserviceEventKind::ThirdParty(value)
    }
}

impl vstd::std_specs::convert::FromSpecImpl<ThirdPartyKind> for AppserviceEventKind {
    open spec fn obeys_from_spec() -> bool {
        true
    }

    open spec fn from_spec(v: ThirdPartyKind) -> AppserviceEventKind {
        AppserviceEventKind::ThirdParty(v)
    }
}

impl AppserviceEventKind {
    /// Check if this event matches any of a list of possible events: the
    /// result is this kind when some filter of `events` accepts it, else `None`.
    pub fn matches(&self, events: Vec<AppserviceEventKind>) -> (r: Option<AppserviceEventKind>)
        ensures
            r == (if exists|i: int| 0 <= i < events@.len() && kind_accepted(#[trigger] events@[i], *self) {
                Some(*self)
            } else {
                None::<AppserviceEventKind>
            }),
    {
        let mut i: usize = 0;
        while i < events.len()
            invariant
                0 <= i <= events@.len(),
                forall|j: int| 0 <= j < i ==> !kind_accepted(#[trigger] events@[j], *self),
            decreases events@.len() - i,
        {
            if accepts(events[i], *self) {
                return Some(*self);
            }
            i = i + 1;
        }
        None
    }
}

} // verus!
