use vstd::prelude::*;

use crate::error::Error;
use crate::message::{Message, MessageView, Method};

verus! {

/// A service whose descriptor has been fetched.
pub struct CacheEntry {
    pub msg: Message,
    pub desc: String,
}

pub struct EntryView {
    pub msg: MessageView,
    pub desc: Seq<char>,
}

impl View for CacheEntry {
    type V = EntryView;

    open spec fn view(&self) -> EntryView {
        EntryView { msg: self.msg@, desc: self.desc@ }
    }
}

/// An element of the ready queue: a service to hand to a consumer, or the
/// end of the stream.
pub enum Ready {
    Item(String),
    Shutdown,
}

pub enum ReadyView {
    Item(Seq<char>),
    Shutdown,
}

impl View for Ready {
    type V = ReadyView;

    open spec fn view(&self) -> ReadyView {
        match self {
            Ready::Item(s) => ReadyView::Item(s@),
            Ready::Shutdown => ReadyView::Shutdown,
        }
    }
}

/// What the receive loop does with what it received.
#[derive(Clone, Copy, Debug, PartialEq, Eq, Structural)]
pub enum Action {
    /// Fetch the message's descriptor, then hand both to `fetched`.
    Fetch,
    /// Drop what was received and go on receiving.
    Ignore,
    /// The socket failed: end the loop.
    Halt,
}

/// The cache of known services and the queue of services ready for
/// consumers. Cache entries are keyed by service id, one entry per id.
pub struct Discovery {
    entries: Vec<CacheEntry>,
    queue: Vec<Ready>,
}

pub struct DiscoveryView {
    pub entries: Seq<EntryView>,
    pub queue: Seq<ReadyView>,
}

impl View for Discovery {
    type V = DiscoveryView;

    closed spec fn view(&self) -> DiscoveryView {
        DiscoveryView {
            entries: self.entries@.map_values(|e: CacheEntry| e@),
            queue: self.queue@.map_values(|q: Ready| q@),
        }
    }
}

/// The cache key of an entry: its service id.
pub open spec fn key(e: EntryView) -> Seq<char> {
    e.msg.ext.usn
}

/// No two entries share a service id.
pub open spec fn keys_unique(s: Seq<EntryView>) -> bool {
    forall|i: int, j: int| 0 <= i < j < s.len() ==> key(#[trigger] s[i]) != key(#[trigger] s[j])
}

/// The position of the entry for service `k`, or -1.
pub open spec fn index_of(s: Seq<EntryView>, k: Seq<char>) -> int {
    if exists|i: int| 0 <= i < s.len() && key(#[trigger] s[i]) == k {
        choose|i: int| 0 <= i < s.len() && key(#[trigger] s[i]) == k
    } else {
        -1
    }
}

/// The entry for service `k`, if the cache holds one.
pub open spec fn lookup(s: Seq<EntryView>, k: Seq<char>) -> Option<EntryView> {
    if index_of(s, k) >= 0 {
        Some(s[index_of(s, k)])
    } else {
        None
    }
}

/// The cache with `e` stored under its service id, replacing any entry there.
pub open spec fn updated(s: Seq<EntryView>, e: EntryView) -> Seq<EntryView> {
    if index_of(s, key(e)) >= 0 {
        s.update(index_of(s, key(e)), e)
    } else {
        s.push(e)
    }
}

/// Whether `m` calls for a descriptor fetch: no entry for its service, or
/// the entry expires strictly earlier or points elsewhere.
pub open spec fn is_stale(s: Seq<EntryView>, m: MessageView) -> bool {
    forall|i: int|
        0 <= i < s.len() && key(#[trigger] s[i]) == m.ext.usn ==> s[i].msg.ext.expires
            < m.ext.expires || s[i].msg.ext.location != m.ext.location
}

/// The entry still holds at time `now`.
pub open spec fn unexpired(e: EntryView, now: i64) -> bool {
    !(e.msg.ext.expires < now)
}

/// The cache without the entries that expired before `now`.
pub open spec fn pruned(s: Seq<EntryView>, now: i64) -> Seq<EntryView> {
    s.filter(|e: EntryView| unexpired(e, now))
}

/// What a read hands out for the front of the queue `q`: nothing at the end
/// of the stream or where the service has left the cache, else its entry.
pub open spec fn delivered(s: Seq<EntryView>, q: ReadyView) -> Option<EntryView> {
    match q {
        ReadyView::Item(k) => lookup(s, k),
        ReadyView::Shutdown => None,
    }
}

/// What the receive loop does with `received`, given the cache `s`.
pub open spec fn action_for(s: Seq<EntryView>, received: Result<Message, Error>) -> Action {
    match received {
        Err(e) => if e.is_io() {
            Action::Halt
        } else {
            Action::Ignore
        },
        Ok(m) => if m.method != Method::Msearch && is_stale(s, m@) {
            Action::Fetch
        } else {
            Action::Ignore
        },
    }
}

proof fn lemma_index_of(s: Seq<EntryView>, k: Seq<char>, i: int)
    requires
        keys_unique(s),
        0 <= i < s.len(),
        key(s[i]) == k,
    ensures
        index_of(s, k) == i,
{
    let j = choose|j: int| 0 <= j < s.len() && key(#[trigger] s[j]) == k;
    if j < i {
        assert(key(s[j]) != key(s[i]));
    } else if i < j {
        assert(key(s[i]) != key(s[j]));
    }
}

proof fn lemma_pruned(s: Seq<EntryView>, now: i64)
    requires
        keys_unique(s),
    ensures
        keys_unique(pruned(s, now)),
        forall|a: int| 0 <= a < pruned(s, now).len() ==> s.contains(#[trigger] pruned(s, now)[a]),
        forall|a: int| 0 <= a < pruned(s, now).len() ==> unexpired(#[trigger] pruned(s, now)[a], now),
    decreases s.len(),
{
    reveal(Seq::filter);
    if s.len() > 0 {
        let t = s.drop_last();
        assert forall|i: int, j: int| 0 <= i < j < t.len() implies key(#[trigger] t[i]) != key(
            #[trigger] t[j],
        ) by {
            assert(t[i] == s[i] && t[j] == s[j]);
        }
        lemma_pruned(t, now);
        let p = pruned(t, now);
        assert forall|a: int| 0 <= a < p.len() implies s.contains(#[trigger] p[a]) by {
            let j = choose|j: int| 0 <= j < t.len() && t[j] == p[a];
            assert(s[j] == p[a]);
        }
        if unexpired(s.last(), now) {
            assert(pruned(s, now) == p.push(s.last()));
            assert forall|a: int| 0 <= a < p.len() implies key(#[trigger] p[a]) != key(s.last()) by {
                let j = choose|j: int| 0 <= j < t.len() && t[j] == p[a];
                assert(s[j] == p[a]);
                assert(key(s[j]) != key(s[s.len() - 1]));
            }
        } else {
            assert(pruned(s, now) == p);
        }
    }
}

/// An announcement for a cached service that expires no later than the
/// cached entry and gives the same location is a duplicate: it triggers no
/// fetch, so the cache is not updated.
pub proof fn stale_announcement_dropped(s: Seq<EntryView>, m: Message, i: int)
    requires
        keys_unique(s),
        0 <= i < s.len(),
        key(s[i]) == m@.ext.usn,
        m@.ext.expires <= s[i].msg.ext.expires,
        m@.ext.location == s[i].msg.ext.location,
    ensures
        !is_stale(s, m@),
        action_for(s, Ok(m)) == Action::Ignore,
{
}

/// An announcement for a cached service that expires strictly later, or
/// gives another location, triggers a descriptor fetch; once it completes,
/// the service's entry is the new message and its descriptor.
pub proof fn newer_announcement_refetched(s: Seq<EntryView>, m: Message, i: int, desc: Seq<char>)
    requires
        keys_unique(s),
        0 <= i < s.len(),
        key(s[i]) == m@.ext.usn,
        m.method != Method::Msearch,
        m@.ext.expires > s[i].msg.ext.expires || m@.ext.location != s[i].msg.ext.location,
    ensures
        is_stale(s, m@),
        action_for(s, Ok(m)) == Action::Fetch,
        updated(s, EntryView { msg: m@, desc })[i] == (EntryView { msg: m@, desc }),
        updated(s, EntryView { msg: m@, desc }).len() == s.len(),
{
    assert forall|j: int| 0 <= j < s.len() && key(#[trigger] s[j]) == m@.ext.usn implies j == i by {
        lemma_index_of(s, m@.ext.usn, j);
    }
    lemma_index_of(s, m@.ext.usn, i);
}

/// A datagram that failed to parse (malformed, cut short, an unknown method
/// or a missing header) is dropped: the receive loop goes on, and the cache,
/// which the decision only reads, is left as it is.
pub proof fn malformed_packet_dropped(s: Seq<EntryView>, e: Error)
    requires
        e.failure() is Some,
    ensures
        action_for(s, Err(e)) == Action::Ignore,
{
}

/// Reads take items from the front of the ready queue one at a time: two
/// reads in turn hand out the first and the second item, and neither stays
/// queued, so no item reaches two readers.
pub proof fn reads_take_each_item_once(q0: Seq<ReadyView>, q1: Seq<ReadyView>, q2: Seq<ReadyView>)
    requires
        q0.len() >= 2,
        q1 == q0.drop_first(),
        q2 == q1.drop_first(),
    ensures
        q1[0] == q0[1],
        q2 =~= q0.skip(2),
        q2.len() == q0.len() - 2,
{
}

impl Discovery {
    /// The cache holds one entry per service id.
    pub open spec fn wf(&self) -> bool {
        keys_unique(self@.entries)
    }

    /// An empty cache and an empty queue.
    pub fn new() -> (r: Discovery)
        ensures
            r.wf(),
            r@.entries.len() == 0,
            r@.queue.len() == 0,
    {
        Discovery { entries: Vec::new(), queue: Vec::new() }
    }

    /// The position of the entry for service `usn`.
    fn position(&self, usn: &String) -> (r: Option<usize>)
        requires
            self.wf(),
        ensures
            match r {
                Some(i) => i < self@.entries.len() && index_of(self@.entries, usn@) == i,
                None => index_of(self@.entries, usn@) == -1,
            },
    {
        let mut i: usize = 0;
        while i < self.entries.len()
            invariant
                i <= self.entries@.len(),
                self.wf(),
                forall|j: int| 0 <= j < i ==> key(#[trigger] self@.entries[j]) != usn@,
            decreases self.entries.len() - i,
        {
            if self.entries[i].msg.ext.usn.eq(usn) {
                proof {
                    lemma_index_of(self@.entries, usn@, i as int);
                }
                return Some(i);
            }
            assert(key(self@.entries[i as int]) != usn@);
            i = i + 1;
        }
        None
    }

    /// Whether the cache holds an entry for service `usn`.
    pub fn contains(&self, usn: &String) -> (r: bool)
        requires
            self.wf(),
        ensures
            r == (lookup(self@.entries, usn@) is Some),
    {
        self.position(usn).is_some()
    }

    /// The number of services in the cache.
    pub fn cache_len(&self) -> (r: usize)
        ensures
            r == self@.entries.len(),
    {
        self.entries.len()
    }

    /// The number of items waiting in the ready queue.
    pub fn pending(&self) -> (r: usize)
        ensures
            r == self@.queue.len(),
    {
        self.queue.len()
    }

    /// Whether `msg` calls for a descriptor fetch: the cache holds no entry
    /// for its service, or one that expires strictly earlier or points to
    /// another location.
    pub fn has_cache_expired(&self, msg: &Message) -> (r: bool)
        requires
            self.wf(),
        ensures
            r == is_stale(self@.entries, msg@),
    {
        match self.position(&msg.ext.usn) {
            Some(i) => {
                let ce = &self.entries[i];
                let r = ce.msg.ext.expires < msg.ext.expires || !ce.msg.ext.location.eq(
                    &msg.ext.location,
                );
                proof {
                    assert forall|j: int|
                        0 <= j < self@.entries.len() && key(
                            #[trigger] self@.entries[j],
                        ) == msg@.ext.usn implies j == i by {
                        lemma_index_of(self@.entries, msg@.ext.usn, j);
                    }
                }
                r
            },
            None => true,
        }
    }

    /// What the receive loop does with `received`: a socket failure ends the
    /// loop; a datagram that failed to parse, a search probe, or an
    /// announcement that brings nothing newer is dropped; any other message
    /// has its descriptor fetched. The cache is left as it is.
    pub fn on_receive(&self, received: &Result<Message, Error>) -> (r: Action)
        requires
            self.wf(),
        ensures
            r == action_for(self@.entries, *received),
    {
        match received {
            Err(e) => if e.io_failure() {
                Action::Halt
            } else {
                Action::Ignore
            },
            Ok(m) => if m.method != Method::Msearch && self.has_cache_expired(m) {
                Action::Fetch
            } else {
                Action::Ignore
            },
        }
    }

    /// Stores `msg` and its descriptor under the message's service id,
    /// replacing any entry there.
    pub fn update_cache(&mut self, msg: Message, desc: String)
        requires
            old(self).wf(),
        ensures
            final(self).wf(),
            final(self)@.entries == updated(old(self)@.entries, EntryView { msg: msg@, desc: desc@ }),
            final(self)@.queue == old(self)@.queue,
    {
        let ghost e = EntryView { msg: msg@, desc: desc@ };
        let ghost s = self@.entries;
        let pos = self.position(&msg.ext.usn);
        match pos {
            Some(i) => {
                self.entries.set(i, CacheEntry { msg, desc });
                proof {
                    assert(self@.entries =~= s.update(i as int, e));
                    assert forall|a: int, b: int|
                        0 <= a < b < self@.entries.len() implies key(
                            #[trigger] self@.entries[a],
                        ) != key(#[trigger] self@.entries[b]) by {
                        assert(key(s[i as int]) == key(e));
                        assert(key(s[a]) != key(s[b]));
                    }
                }
            },
            None => {
                self.entries.push(CacheEntry { msg, desc });
                proof {
                    assert(self@.entries =~= s.push(e));
                    assert forall|j: int| 0 <= j < s.len() implies key(#[trigger] s[j]) != key(e) by {
                        if key(s[j]) == key(e) {
                            assert(exists|i: int| 0 <= i < s.len() && key(#[trigger] s[i]) == key(e));
                        }
                    }
                }
            },
        }
        proof {
            assert(self@.queue =~= old(self)@.queue);
        }
    }

    /// Puts service `usn` at the back of the ready queue.
    pub fn notify_read(&mut self, usn: String)
        ensures
            final(self)@.entries == old(self)@.entries,
            final(self)@.queue == old(self)@.queue.push(ReadyView::Item(usn@)),
            final(self).wf() == old(self).wf(),
    {
        self.queue.push(Ready::Item(usn));
        proof {
            assert(self@.queue =~= old(self)@.queue.push(ReadyView::Item(usn@)));
            assert(self@.entries =~= old(self)@.entries);
        }
    }

    /// A descriptor fetch for `msg` succeeded with `desc`: the cache is
    /// updated, then the service is queued for consumers.
    pub fn fetched(&mut self, msg: Message, desc: String)
        requires
            old(self).wf(),
        ensures
            final(self).wf(),
            final(self)@.entries == updated(old(self)@.entries, EntryView { msg: msg@, desc: desc@ }),
            final(self)@.queue == old(self)@.queue.push(ReadyView::Item(msg@.ext.usn)),
    {
        let usn = msg.ext.usn.clone();
        self.update_cache(msg, desc);
        self.notify_read(usn);
    }

    /// Queues the end of the stream, which wakes one waiting consumer.
    pub fn stop(&mut self)
        ensures
            final(self)@.entries == old(self)@.entries,
            final(self)@.queue == old(self)@.queue.push(ReadyView::Shutdown),
            final(self).wf() == old(self).wf(),
    {
        self.queue.push(Ready::Shutdown);
        proof {
            assert(self@.queue =~= old(self)@.queue.push(ReadyView::Shutdown));
            assert(self@.entries =~= old(self)@.entries);
        }
    }

    /// Removes every entry that expired before `now`.
    pub fn clear_cache_expired(&mut self, now: i64)
        requires
            old(self).wf(),
        ensures
            final(self).wf(),
            final(self)@.entries == pruned(old(self)@.entries, now),
            final(self)@.queue == old(self)@.queue,
    {
        let ghost s = self@.entries;
        let mut kept: Vec<CacheEntry> = Vec::new();
        let mut i: usize = 0;
        assert(s.take(0) =~= Seq::<EntryView>::empty());
        proof {
            reveal(Seq::filter);
        }
        while i < self.entries.len()
            invariant
                i <= s.len(),
                self@.entries == s,
                self.entries@.len() == s.len(),
                kept@.map_values(|e: CacheEntry| e@) =~= pruned(s.take(i as int), now),
            decreases self.entries.len() - i,
        {
            let ghost before = kept@.map_values(|e: CacheEntry| e@);
            proof {
                reveal(Seq::filter);
                assert(s.take(i as int + 1).drop_last() =~= s.take(i as int));
                assert(s[i as int] == self.entries@[i as int]@);
            }
            if !(self.entries[i].msg.ext.expires < now) {
                let e = CacheEntry { msg: self.entries[i].msg.duplicate(), desc: self.entries[i].desc.clone() };
                kept.push(e);
                assert(kept@.map_values(|e: CacheEntry| e@) =~= before.push(s[i as int]));
            }
            i = i + 1;
        }
        proof {
            assert(s.take(i as int) =~= s);
            lemma_pruned(s, now);
        }
        self.entries = kept;
        proof {
            assert(self@.queue =~= old(self)@.queue);
        }
    }

    /// Takes the service at the front of the ready queue, if any. Its cache
    /// entry is handed out (none at the end of the stream, or where the entry
    /// is gone), then every entry that expired before `now` is removed.
    /// Returns `None`, changing nothing, when the queue is empty.
    pub fn read(&mut self, now: i64) -> (r: Option<Option<(Message, String)>>)
        requires
            old(self).wf(),
        ensures
            final(self).wf(),
            old(self)@.queue.len() == 0 ==> r is None && final(self)@ == old(self)@,
            old(self)@.queue.len() > 0 ==> {
                &&& final(self)@.queue == old(self)@.queue.drop_first()
                &&& final(self)@.entries == pruned(old(self)@.entries, now)
                &&& match delivered(old(self)@.entries, old(self)@.queue[0]) {
                    Some(e) => r matches Some(Some((m, d))) && m@ == e.msg && d@ == e.desc,
                    None => r == Some(None::<(Message, String)>),
                }
            },
            r is Some ==> forall|i: int|
                0 <= i < final(self)@.entries.len() ==> unexpired(#[trigger] final(self)@.entries[i], now),
    {
        if self.queue.len() == 0 {
            return None;
        }
        let ghost q = self@.queue;
        let item = self.queue.remove(0);
        proof {
            assert(self@.queue =~= q.drop_first());
        }
        let ret = match item {
            Ready::Item(usn) => match self.position(&usn) {
                Some(i) => Some((self.entries[i].msg.duplicate(), self.entries[i].desc.clone())),
                None => None,
            },
            Ready::Shutdown => None,
        };
        let ghost s = self@.entries;
        self.clear_cache_expired(now);
        proof {
            lemma_pruned(s, now);
        }
        Some(ret)
    }

}

} // verus!
