//! The socket bridge cache: at most one native-like socket capability per
//! listener id for the lifetime of the process. The cache decides reuse;
//! binding itself is an effect the caller performs only when the cache
//! reports a miss, and release hands the cached capability back so that the
//! caller can close it.

use vstd::prelude::*;
use vstd::string::*;

use crate::text::string_eq;

verus! {

/// What a cached socket is bound to.
#[derive(Debug)]
pub enum SocketKind {
    /// A local file-socket path.
    UnixPath(String),
    /// A loopback TCP port (the fallback when the local-socket bind fails).
    TcpPort(u16),
}

/// Mathematical view of a socket kind.
pub ghost enum SocketKindView {
    UnixPath(Seq<char>),
    TcpPort(u16),
}

/// An opaque socket capability: a process-unique token plus what it is
/// bound to.
#[derive(Debug)]
pub struct SocketHandle {
    pub token: u64,
    pub kind: SocketKind,
}

pub ghost struct SocketView {
    pub token: u64,
    pub kind: SocketKindView,
}

impl View for SocketHandle {
    type V = SocketView;

    open spec fn view(&self) -> SocketView {
        SocketView {
            token: self.token,
            kind: match self.kind {
                SocketKind::UnixPath(p) => SocketKindView::UnixPath(p@),
                SocketKind::TcpPort(p) => SocketKindView::TcpPort(p),
            },
        }
    }
}

impl SocketHandle {
    /// A second capability to the same socket.
    pub fn duplicate(&self) -> (r: Self)
        ensures
            r@ == self@,
    {
        SocketHandle {
            token: self.token,
            kind: match &self.kind {
                SocketKind::UnixPath(p) => SocketKind::UnixPath(p.clone()),
                SocketKind::TcpPort(p) => SocketKind::TcpPort(*p),
            },
        }
    }
}

/// The forward target for a bound bridge socket, chosen by its domain: a
/// file socket is forwarded by path, a TCP socket by loopback port.
pub fn socket_forward_addr(kind: &SocketKind) -> (r: String)
    ensures
        match kind {
            SocketKind::UnixPath(p) => r@ == "unix:"@ + p@,
            SocketKind::TcpPort(p) => r@ == "localhost:"@ + crate::text::spec_dec(*p as nat),
        },
{
    match kind {
        SocketKind::UnixPath(p) => "unix:".to_owned().concat(p.as_str()),
        SocketKind::TcpPort(p) => "localhost:".to_owned().concat(
            crate::text::u64_to_dec(*p as u64).as_str(),
        ),
    }
}

/// Whether the cache holds an entry for `id`.
pub open spec fn cache_contains(s: Seq<(Seq<char>, SocketView)>, id: Seq<char>) -> bool {
    exists|i: int| 0 <= i < s.len() && s[i].0 == id
}

/// The first cached handle for `id`, if any.
pub open spec fn cache_lookup(s: Seq<(Seq<char>, SocketView)>, id: Seq<char>) -> Option<SocketView>
    decreases s.len(),
{
    if s.len() == 0 {
        None
    } else if s[0].0 == id {
        Some(s[0].1)
    } else {
        cache_lookup(s.drop_first(), id)
    }
}

/// The cache with the first entry for `id` removed, if any.
pub open spec fn cache_remove(s: Seq<(Seq<char>, SocketView)>, id: Seq<char>) -> Seq<
    (Seq<char>, SocketView),
>
    decreases s.len(),
{
    if s.len() == 0 {
        s
    } else if s[0].0 == id {
        s.drop_first()
    } else {
        seq![s[0]] + cache_remove(s.drop_first(), id)
    }
}

/// No two entries share an id.
pub open spec fn cache_unique(s: Seq<(Seq<char>, SocketView)>) -> bool {
    forall|i: int, j: int| 0 <= i < j < s.len() ==> s[i].0 != s[j].0
}

pub proof fn lemma_cache_lookup_characterizes(s: Seq<(Seq<char>, SocketView)>, id: Seq<char>)
    ensures
        cache_lookup(s, id) is Some <==> cache_contains(s, id),
    decreases s.len(),
{
    if s.len() == 0 {
    } else if s[0].0 == id {
    } else {
        lemma_cache_lookup_characterizes(s.drop_first(), id);
        assert(forall|j: int| 0 <= j < s.len() - 1 ==> s.drop_first()[j] == s[j + 1]);
        if cache_contains(s, id) {
            let w = choose|i: int| 0 <= i < s.len() && s[i].0 == id;
            assert(s.drop_first()[w - 1].0 == id);
            assert(cache_contains(s.drop_first(), id));
        }
    }
}

/// Single flight, first half: a freshly inserted socket is what every later
/// lookup for that id returns.
pub proof fn lemma_cache_insert_then_lookup(
    s: Seq<(Seq<char>, SocketView)>,
    id: Seq<char>,
    h: SocketView,
)
    requires
        !cache_contains(s, id),
    ensures
        cache_lookup(s.push((id, h)), id) == Some(h),
    decreases s.len(),
{
    if s.len() == 0 {
        assert(s.push((id, h))[0] == (id, h));
    } else {
        assert(s[0].0 != id);
        assert(s.push((id, h)).drop_first() =~= s.drop_first().push((id, h)));
        assert(forall|j: int| 0 <= j < s.len() - 1 ==> s.drop_first()[j] == s[j + 1]);
        assert(!cache_contains(s.drop_first(), id));
        lemma_cache_insert_then_lookup(s.drop_first(), id, h);
    }
}

/// Single flight, second half: after a release the id is gone, so the next
/// use creates a new socket.
pub proof fn lemma_cache_release_then_miss(s: Seq<(Seq<char>, SocketView)>, id: Seq<char>, i: int)
    requires
        cache_unique(s),
        0 <= i < s.len(),
        s[i].0 == id,
    ensures
        !cache_contains(s.remove(i), id),
        cache_unique(s.remove(i)),
{
    assert forall|j: int| 0 <= j < s.remove(i).len() implies s.remove(i)[j].0 != id by {
        if j < i {
            assert(s.remove(i)[j] == s[j]);
        } else {
            assert(s.remove(i)[j] == s[j + 1]);
        }
    }
}

/// Removal at the first matching index is what `cache_remove` denotes.
pub proof fn lemma_cache_remove_at(s: Seq<(Seq<char>, SocketView)>, id: Seq<char>, i: int)
    requires
        0 <= i < s.len(),
        s[i].0 == id,
        forall|j: int| 0 <= j < i ==> s[j].0 != id,
    ensures
        cache_remove(s, id) =~= s.remove(i),
    decreases s.len(),
{
    if i == 0 {
        assert(s.remove(0) =~= s.drop_first());
    } else {
        assert(forall|j: int| 0 <= j < s.len() - 1 ==> s.drop_first()[j] == s[j + 1]);
        lemma_cache_remove_at(s.drop_first(), id, i - 1);
        assert(s.remove(i) =~= seq![s[0]] + s.drop_first().remove(i - 1));
    }
}

/// Removing an absent id changes nothing.
pub proof fn lemma_cache_remove_absent(s: Seq<(Seq<char>, SocketView)>, id: Seq<char>)
    requires
        !cache_contains(s, id),
    ensures
        cache_remove(s, id) =~= s,
    decreases s.len(),
{
    if s.len() == 0 {
    } else {
        assert(s[0].0 != id);
        assert(forall|j: int| 0 <= j < s.len() - 1 ==> s.drop_first()[j] == s[j + 1]);
        assert(!cache_contains(s.drop_first(), id));
        lemma_cache_remove_absent(s.drop_first(), id);
        assert(cache_remove(s, id) =~= seq![s[0]] + s.drop_first());
    }
}

/// The per-listener socket cache.
#[derive(Debug)]
pub struct SocketCache {
    entries: Vec<(String, SocketHandle)>,
}

impl View for SocketCache {
    type V = Seq<(Seq<char>, SocketView)>;

    closed spec fn view(&self) -> Seq<(Seq<char>, SocketView)> {
        self.entries@.map_values(|e: (String, SocketHandle)| (e.0@, e.1@))
    }
}

impl SocketCache {
    pub open spec fn wf(&self) -> bool {
        cache_unique(self@)
    }

    pub fn new() -> (r: Self)
        ensures
            r@ =~= Seq::<(Seq<char>, SocketView)>::empty(),
            r.wf(),
    {
        SocketCache { entries: Vec::new() }
    }

    pub fn len(&self) -> (r: usize)
        ensures
            r == self@.len(),
    {
        self.entries.len()
    }

    fn index_of(&self, id: &String) -> (r: Option<usize>)
        ensures
            match r {
                Some(i) => i < self@.len() && self@[i as int].0 == id@ && forall|j: int|
                    0 <= j < i ==> self@[j].0 != id@,
                None => !cache_contains(self@, id@),
            },
    {
        let n = self.entries.len();
        let mut i: usize = 0;
        while i < n
            invariant
                n == self@.len(),
                0 <= i <= n,
                forall|j: int| 0 <= j < i ==> self@[j].0 != id@,
            decreases n - i,
        {
            if string_eq(&self.entries[i].0, id) {
                return Some(i);
            }
            i += 1;
        }
        None
    }

    /// The cached capability for `id`, if one exists. Callers bind a socket
    /// only when this misses.
    pub fn lookup(&self, id: &String) -> (r: Option<SocketHandle>)
        ensures
            match cache_lookup(self@, id@) {
                Some(h) => r matches Some(e) && e@ == h,
                None => r is None,
            },
    {
        proof {
            lemma_cache_lookup_characterizes(self@, id@);
        }
        match self.index_of(id) {
            Some(i) => {
                proof {
                    lemma_cache_lookup_first(self@, id@, i as int);
                }
                Some(self.entries[i].1.duplicate())
            },
            None => None,
        }
    }

    /// Return the cached capability for `id`, or cache `fresh` (the socket
    /// the caller just bound) and return it. At most one socket object per
    /// listener id ever lives in the cache.
    pub fn get_or_create_socket(&mut self, id: &String, fresh: SocketHandle) -> (r: SocketHandle)
        requires
            old(self).wf(),
        ensures
            final(self).wf(),
            match cache_lookup(old(self)@, id@) {
                Some(h) => r@ == h && final(self)@ == old(self)@,
                None => r@ == fresh@ && final(self)@ =~= old(self)@.push((id@, fresh@)) && (
                cache_lookup(final(self)@, id@) == Some(fresh@)),
            },
    {
        proof {
            lemma_cache_lookup_characterizes(self@, id@);
        }
        match self.index_of(id) {
            Some(i) => {
                proof {
                    lemma_cache_lookup_first(self@, id@, i as int);
                }
                self.entries[i].1.duplicate()
            },
            None => {
                let r = fresh.duplicate();
                proof {
                    lemma_cache_insert_then_lookup(self@, id@, fresh@);
                    assert forall|i: int, j: int|
                        0 <= i < j < self@.push((id@, fresh@)).len() implies self@.push(
                        (id@, fresh@),
                    )[i].0 != self@.push((id@, fresh@))[j].0 by {
                        if j == self@.len() {
                            assert(self@.push((id@, fresh@))[i] == self@[i]);
                        }
                    }
                }
                self.entries.push((id.clone(), fresh));
                proof {
                    assert(self@ =~= old(self)@.push((id@, fresh@)));
                }
                r
            },
        }
    }

    /// Close-out for `id`: purge the entry and hand the capability back for
    /// the caller to close. Idempotent; called from registry removal.
    pub fn release(&mut self, id: &String) -> (r: Option<SocketHandle>)
        requires
            old(self).wf(),
        ensures
            final(self).wf(),
            final(self)@ =~= cache_remove(old(self)@, id@),
            r is Some <==> cache_contains(old(self)@, id@),
            r matches Some(h) ==> cache_lookup(old(self)@, id@) == Some(h@),
            !cache_contains(final(self)@, id@),
    {
        proof {
            lemma_cache_lookup_characterizes(self@, id@);
        }
        match self.index_of(id) {
            Some(i) => {
                proof {
                    lemma_cache_lookup_first(self@, id@, i as int);
                    lemma_cache_remove_at(self@, id@, i as int);
                    lemma_cache_release_then_miss(self@, id@, i as int);
                }
                let e = self.entries.remove(i);
                proof {
                    assert(self@ =~= old(self)@.remove(i as int));
                }
                Some(e.1)
            },
            None => {
                proof {
                    lemma_cache_remove_absent(self@, id@);
                }
                None
            },
        }
    }
}

/// The first matching index holds the looked-up entry.
pub proof fn lemma_cache_lookup_first(s: Seq<(Seq<char>, SocketView)>, id: Seq<char>, i: int)
    requires
        0 <= i < s.len(),
        s[i].0 == id,
        forall|j: int| 0 <= j < i ==> s[j].0 != id,
    ensures
        cache_lookup(s, id) == Some(s[i].1),
    decreases s.len(),
{
    if i == 0 {
    } else {
        assert(forall|j: int| 0 <= j < s.len() - 1 ==> s.drop_first()[j] == s[j + 1]);
        lemma_cache_lookup_first(s.drop_first(), id, i - 1);
    }
}

} // verus!
