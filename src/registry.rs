use vstd::prelude::*;

verus! {

/// The client that a request for `localpart` is answered with from the
/// cache: none when a new one is forced, else the cached one if any.
pub open spec fn cached_client<T>(m: Map<Seq<char>, T>, localpart: Seq<char>, create_new: bool) -> Option<T> {
    if !create_new && m.contains_key(localpart) {
        Some(m[localpart])
    } else {
        None
    }
}

/// The cache of constructed virtual clients: at most one per localpart.
pub struct ClientRegistry<T> {
    entries: Vec<(String, T)>,
    contents: Ghost<Map<Seq<char>, T>>,
}

impl<T> ClientRegistry<T> {
    pub closed spec fn view(&self) -> Map<Seq<char>, T> {
        self.contents@
    }

    /// Each localpart stands once, and the entries are the contents.
    pub closed spec fn wf(&self) -> bool {
        &&& forall|i: int, j: int| 0 <= i < j < self.entries@.len()
            ==> (#[trigger] self.entries@[i]).0@ != (#[trigger] self.entries@[j]).0@
        &&& forall|i: int| 0 <= i < self.entries@.len()
            ==> self.contents@.contains_key((#[trigger] self.entries@[i]).0@)
                && self.contents@[self.entries@[i].0@] == self.entries@[i].1
        &&& forall|k: Seq<char>| #[trigger] self.contents@.contains_key(k)
            ==> exists|i: int| 0 <= i < self.entries@.len() && (#[trigger] self.entries@[i]).0@ == k
    }

    pub fn new() -> (r: ClientRegistry<T>)
        ensures
            r.wf(),
            r@ == Map::<Seq<char>, T>::empty(),
    {
        ClientRegistry { entries: Vec::new(), contents: Ghost(Map::empty()) }
    }

    fn position(&self, localpart: &str) -> (r: Option<usize>)
        requires
            self.wf(),
        ensures
            match r {
                Some(i) => i < self.entries@.len() && self.entries@[i as int].0@ == localpart@,
                None => !self@.contains_key(localpart@),
            },
    {
        let mut i: usize = 0;
        while i < self.entries.len()
            invariant
                self.wf(),
                i <= self.entries@.len(),
                forall|j: int| 0 <= j < i ==> (#[trigger] self.entries@[j]).0@ != localpart@,
            decreases self.entries@.len() - i,
        {
            if self.entries[i].0 == localpart.to_string() {
                return Some(i);
            }
            i = i + 1;
        }
        None
    }

    /// The client cached for `localpart`, if any.
    pub fn retrieve_client(&self, localpart: &str) -> (r: Option<&T>)
        requires
            self.wf(),
        ensures
            match r {
                Some(c) => self@.contains_key(localpart@) && self@[localpart@] == *c,
                None => !self@.contains_key(localpart@),
            },
    {
        match self.position(localpart) {
            Some(i) => Some(&self.entries[i].1),
            None => None,
        }
    }

    /// The client that a build request answers from the cache, as
    /// `cached_client` states.
    pub fn cached(&self, localpart: &str, create_new: bool) -> (r: Option<&T>)
        requires
            self.wf(),
        ensures
            match r {
                Some(c) => cached_client(self@, localpart@, create_new) == Some(*c),
                None => cached_client(self@, localpart@, create_new) is None,
            },
    {
        if create_new {
            None
        } else {
            self.retrieve_client(localpart)
        }
    }

    /// Caches `client` for `localpart`, replacing any earlier one.
    pub fn store_client(&mut self, localpart: String, client: T)
        requires
            old(self).wf(),
        ensures
            final(self).wf(),
            final(self)@ == old(self)@.insert(localpart@, client),
    {
        let ghost key = localpart@;
        let ghost before = self.entries@;
        let ghost new_contents = self.contents@.insert(key, client);
        match self.position(localpart.as_str()) {
            Some(i) => {
                self.entries.set(i, (localpart, client));
                self.contents = Ghost(new_contents);
                assert forall|k: Seq<char>| #[trigger] self.contents@.contains_key(k)
                    implies exists|j: int| 0 <= j < self.entries@.len() && (#[trigger] self.entries@[j]).0@ == k by {
                    if k != key {
                        let j = choose|j: int| 0 <= j < before.len() && (#[trigger] before[j]).0@ == k;
                        assert(self.entries@[j] == before[j]);
                    } else {
                        assert(self.entries@[i as int].0@ == k);
                    }
                }
            },
            None => {
                self.entries.push((localpart, client));
                self.contents = Ghost(new_contents);
                assert forall|k: Seq<char>| #[trigger] self.contents@.contains_key(k)
                    implies exists|j: int| 0 <= j < self.entries@.len() && (#[trigger] self.entries@[j]).0@ == k by {
                    if k != key {
                        let j = choose|j: int| 0 <= j < before.len() && (#[trigger] before[j]).0@ == k;
                        assert(self.entries@[j] == before[j]);
                    } else {
                        assert(self.entries@[before.len() as int].0@ == k);
                    }
                }
            },
        }
    }
}

/// Asking twice for the same localpart without forcing a new client gives
/// the same client both times: the cached one, or else the one built and
/// stored on the first request. Forcing a new client skips the cache, and
/// the client then built replaces the cached one.
pub proof fn lemma_cached_client_reused<T>(m: Map<Seq<char>, T>, localpart: Seq<char>, built: T, rebuilt: T)
    ensures
        ({
            let first = match cached_client(m, localpart, false) {
                Some(c) => c,
                None => built,
            };
            let after = match cached_client(m, localpart, false) {
                Some(c) => m,
                None => m.insert(localpart, built),
            };
            cached_client(after, localpart, false) == Some(first)
        }),
        cached_client(m, localpart, true) is None,
        cached_client(m.insert(localpart, rebuilt), localpart, false) == Some(rebuilt),
{
}

} // verus!
