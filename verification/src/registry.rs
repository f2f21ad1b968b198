//! The process-wide listener registry: a map from listener id to the
//! retained resources of that listener. A record exists from the moment the
//! remote creation call succeeds until an explicit close completes; records
//! are write-once apart from the forwarding mark, and removal is driven by
//! the protocol, never by dropped caller handles.

use vstd::prelude::*;
use vstd::string::*;

use crate::text::string_eq;

verus! {

/// URL and protocol of a URL-style endpoint; absent for labeled listeners.
#[derive(Clone, Debug)]
pub struct Endpoint {
    pub url: String,
    pub proto: String,
}

/// Mathematical view of one registry record.
pub ghost struct RecordView {
    pub id: Seq<char>,
    pub forwards_to: Seq<char>,
    pub metadata: Seq<char>,
    /// `(url, proto)` for URL-style endpoints.
    pub endpoint: Option<(Seq<char>, Seq<char>)>,
    pub labels: Seq<(Seq<char>, Seq<char>)>,
    pub session_id: Seq<char>,
    pub remote_handle: u64,
    pub join_handle: Option<u64>,
    pub forwarding: bool,
}

/// The retained resources of one listener. The remote handle is an opaque
/// capability token owned exclusively by this record; the session id ties
/// the record to its owning session.
#[derive(Debug)]
pub struct ListenerRecord {
    pub id: String,
    pub forwards_to: String,
    pub metadata: String,
    pub endpoint: Option<Endpoint>,
    pub labels: Vec<(String, String)>,
    pub session_id: String,
    pub remote_handle: u64,
    pub join_handle: Option<u64>,
    /// Whether the accept loop currently holds the remote handle.
    pub forwarding: bool,
}

impl View for ListenerRecord {
    type V = RecordView;

    open spec fn view(&self) -> RecordView {
        RecordView {
            id: self.id@,
            forwards_to: self.forwards_to@,
            metadata: self.metadata@,
            endpoint: match self.endpoint {
                Some(e) => Some((e.url@, e.proto@)),
                None => None,
            },
            labels: self.labels@.map_values(|p: (String, String)| (p.0@, p.1@)),
            session_id: self.session_id@,
            remote_handle: self.remote_handle,
            join_handle: self.join_handle,
            forwarding: self.forwarding,
        }
    }
}

/// The URL of a record, when it backs a URL-style endpoint.
pub open spec fn record_url(rv: RecordView) -> Option<Seq<char>> {
    match rv.endpoint {
        Some(e) => Some(e.0),
        None => None,
    }
}

/// No two records share an id.
pub open spec fn unique_ids(s: Seq<RecordView>) -> bool {
    forall|i: int, j: int| 0 <= i < j < s.len() ==> s[i].id != s[j].id
}

/// Whether some record in `s` has id `id`.
pub open spec fn contains_id(s: Seq<RecordView>, id: Seq<char>) -> bool {
    exists|i: int| 0 <= i < s.len() && s[i].id == id
}

/// The first record in `s` with id `id`, if any.
pub open spec fn spec_lookup(s: Seq<RecordView>, id: Seq<char>) -> Option<RecordView>
    decreases s.len(),
{
    if s.len() == 0 {
        None
    } else if s[0].id == id {
        Some(s[0])
    } else {
        spec_lookup(s.drop_first(), id)
    }
}

/// `s` with the first record of id `id` removed, if any.
pub open spec fn spec_remove(s: Seq<RecordView>, id: Seq<char>) -> Seq<RecordView>
    decreases s.len(),
{
    if s.len() == 0 {
        s
    } else if s[0].id == id {
        s.drop_first()
    } else {
        seq![s[0]] + spec_remove(s.drop_first(), id)
    }
}

pub proof fn lemma_lookup_characterizes(s: Seq<RecordView>, id: Seq<char>)
    ensures
        spec_lookup(s, id) is Some <==> contains_id(s, id),
        spec_lookup(s, id) matches Some(rv) ==> exists|i: int|
            0 <= i < s.len() && s[i] == rv && s[i].id == id,
    decreases s.len(),
{
    if s.len() == 0 {
    } else if s[0].id == id {
    } else {
        lemma_lookup_characterizes(s.drop_first(), id);
        assert(forall|j: int| 0 <= j < s.len() - 1 ==> s.drop_first()[j] == s[j + 1]);
        if contains_id(s, id) {
            let w = choose|i: int| 0 <= i < s.len() && s[i].id == id;
            assert(s.drop_first()[w - 1].id == id);
            assert(contains_id(s.drop_first(), id));
        }
        match spec_lookup(s.drop_first(), id) {
            Some(rv) => {
                let w = choose|i: int|
                    0 <= i < s.drop_first().len() && s.drop_first()[i] == rv && s.drop_first()[i].id
                        == id;
                assert(s[w + 1] == rv);
            },
            None => {},
        }
    }
}

/// The first matching index holds the looked-up record.
pub proof fn lemma_lookup_first(s: Seq<RecordView>, id: Seq<char>, i: int)
    requires
        0 <= i < s.len(),
        s[i].id == id,
        forall|j: int| 0 <= j < i ==> s[j].id != id,
    ensures
        spec_lookup(s, id) == Some(s[i]),
    decreases s.len(),
{
    if i == 0 {
    } else {
        assert(forall|j: int| 0 <= j < s.len() - 1 ==> s.drop_first()[j] == s[j + 1]);
        lemma_lookup_first(s.drop_first(), id, i - 1);
    }
}

/// With unique ids, any index holding `id` holds the looked-up record.
pub proof fn lemma_lookup_at(s: Seq<RecordView>, id: Seq<char>, i: int)
    requires
        unique_ids(s),
        0 <= i < s.len(),
        s[i].id == id,
    ensures
        spec_lookup(s, id) == Some(s[i]),
    decreases s.len(),
{
    if i == 0 {
    } else {
        assert(s[0].id != id);
        assert(forall|j: int| 0 <= j < s.len() - 1 ==> s.drop_first()[j] == s[j + 1]);
        lemma_lookup_at(s.drop_first(), id, i - 1);
    }
}

/// Looking up an id that no record holds yields nothing.
pub proof fn lemma_lookup_absent(s: Seq<RecordView>, id: Seq<char>)
    requires
        !contains_id(s, id),
    ensures
        spec_lookup(s, id) is None,
{
    lemma_lookup_characterizes(s, id);
}

/// Registry exclusivity: inserting a fresh record and looking its id up
/// immediately yields exactly that record.
pub proof fn lemma_insert_then_get(s: Seq<RecordView>, rec: RecordView)
    requires
        !contains_id(s, rec.id),
    ensures
        spec_lookup(s.push(rec), rec.id) == Some(rec),
    decreases s.len(),
{
    if s.len() == 0 {
        assert(s.push(rec)[0] == rec);
    } else {
        assert(s[0].id != rec.id);
        assert(s.push(rec).drop_first() =~= s.drop_first().push(rec));
        assert(forall|j: int| 0 <= j < s.len() - 1 ==> s.drop_first()[j] == s[j + 1]);
        assert(!contains_id(s.drop_first(), rec.id));
        lemma_insert_then_get(s.drop_first(), rec);
    }
}

/// Inserting a fresh record keeps ids unique.
pub proof fn lemma_insert_unique(s: Seq<RecordView>, rec: RecordView)
    requires
        unique_ids(s),
        !contains_id(s, rec.id),
    ensures
        unique_ids(s.push(rec)),
{
    assert forall|i: int, j: int| 0 <= i < j < s.push(rec).len() implies s.push(rec)[i].id
        != s.push(rec)[j].id by {
        if j == s.len() {
            assert(s.push(rec)[i] == s[i]);
        }
    }
}

/// Removal at the first matching index is what `spec_remove` denotes.
pub proof fn lemma_remove_at(s: Seq<RecordView>, id: Seq<char>, i: int)
    requires
        0 <= i < s.len(),
        s[i].id == id,
        forall|j: int| 0 <= j < i ==> s[j].id != id,
    ensures
        spec_remove(s, id) =~= s.remove(i),
    decreases s.len(),
{
    if i == 0 {
        assert(s.remove(0) =~= s.drop_first());
    } else {
        assert(forall|j: int| 0 <= j < s.len() - 1 ==> s.drop_first()[j] == s[j + 1]);
        lemma_remove_at(s.drop_first(), id, i - 1);
        assert(s.remove(i) =~= seq![s[0]] + s.drop_first().remove(i - 1));
    }
}

/// Idempotent removal: with unique ids, once the record is removed the id is
/// gone, so a second removal finds nothing and a second lookup reports the
/// not-found condition.
pub proof fn lemma_remove_idempotent(s: Seq<RecordView>, id: Seq<char>, i: int)
    requires
        unique_ids(s),
        0 <= i < s.len(),
        s[i].id == id,
    ensures
        !contains_id(s.remove(i), id),
        spec_lookup(s.remove(i), id) is None,
        unique_ids(s.remove(i)),
{
    assert(forall|j: int| 0 <= j < s.len() - 1 ==> s.remove(i)[j] == (if j < i {
        s[j]
    } else {
        s[j + 1]
    }));
    assert forall|j: int| 0 <= j < s.remove(i).len() implies s.remove(i)[j].id != id by {
        if j < i {
            assert(s.remove(i)[j] == s[j]);
        } else {
            assert(s.remove(i)[j] == s[j + 1]);
        }
    }
    lemma_lookup_absent(s.remove(i), id);
}

/// `s` with the forwarding mark of the first record of id `id` set to
/// `val`; everything else untouched.
pub open spec fn spec_set_forwarding(s: Seq<RecordView>, id: Seq<char>, val: bool) -> Seq<
    RecordView,
>
    decreases s.len(),
{
    if s.len() == 0 {
        s
    } else if s[0].id == id {
        seq![(RecordView { forwarding: val, ..s[0] })] + s.drop_first()
    } else {
        seq![s[0]] + spec_set_forwarding(s.drop_first(), id, val)
    }
}

/// Marking at the first matching index is what `spec_set_forwarding`
/// denotes.
pub proof fn lemma_set_forwarding_at(s: Seq<RecordView>, id: Seq<char>, val: bool, i: int)
    requires
        0 <= i < s.len(),
        s[i].id == id,
        forall|j: int| 0 <= j < i ==> s[j].id != id,
    ensures
        spec_set_forwarding(s, id, val) =~= s.update(i, (RecordView { forwarding: val, ..s[i] })),
    decreases s.len(),
{
    if i == 0 {
    } else {
        assert(forall|j: int| 0 <= j < s.len() - 1 ==> s.drop_first()[j] == s[j + 1]);
        lemma_set_forwarding_at(s.drop_first(), id, val, i - 1);
        assert(s.update(i, (RecordView { forwarding: val, ..s[i] })) =~= seq![s[0]]
            + s.drop_first().update(i - 1, (RecordView { forwarding: val, ..s[i] })));
    }
}

/// Marking keeps length and ids pointwise.
pub proof fn lemma_mark_ids(s: Seq<RecordView>, id: Seq<char>, val: bool)
    ensures
        spec_set_forwarding(s, id, val).len() == s.len(),
        forall|j: int| 0 <= j < s.len() ==> #[trigger] spec_set_forwarding(s, id, val)[j].id
            == s[j].id,
    decreases s.len(),
{
    if s.len() == 0 {
    } else if s[0].id == id {
        assert(forall|j: int| 1 <= j < s.len() ==> spec_set_forwarding(s, id, val)[j] == s[j]);
    } else {
        lemma_mark_ids(s.drop_first(), id, val);
        assert(forall|j: int| 0 <= j < s.len() - 1 ==> s.drop_first()[j] == s[j + 1]);
        assert(forall|j: int| 1 <= j < s.len() ==> spec_set_forwarding(s, id, val)[j]
            == spec_set_forwarding(s.drop_first(), id, val)[j - 1]);
    }
}

/// Marking the forwarding state never changes which ids are live: records
/// are retained independently of forwarding activity.
pub proof fn lemma_mark_retains_membership(
    s: Seq<RecordView>,
    id: Seq<char>,
    val: bool,
    x: Seq<char>,
)
    ensures
        contains_id(spec_set_forwarding(s, id, val), x) == contains_id(s, x),
        spec_set_forwarding(s, id, val).len() == s.len(),
{
    lemma_mark_ids(s, id, val);
    let t = spec_set_forwarding(s, id, val);
    if contains_id(s, x) {
        let w = choose|i: int| 0 <= i < s.len() && s[i].id == x;
        assert(t[w].id == x);
    }
    if contains_id(t, x) {
        let w = choose|i: int| 0 <= i < t.len() && t[i].id == x;
        assert(s[w].id == x);
    }
}

/// Duplicate a vector of string pairs, preserving its view.
pub fn clone_pairs(v: &Vec<(String, String)>) -> (r: Vec<(String, String)>)
    ensures
        r@.map_values(|p: (String, String)| (p.0@, p.1@)) =~= v@.map_values(
            |p: (String, String)| (p.0@, p.1@),
        ),
        r@.len() == v@.len(),
{
    let n = v.len();
    let mut r: Vec<(String, String)> = Vec::new();
    let mut i: usize = 0;
    while i < n
        invariant
            n == v@.len(),
            0 <= i <= n,
            r@.len() == i,
            forall|j: int| 0 <= j < i ==> (#[trigger] r@[j]).0@ == v@[j].0@ && r@[j].1@ == v@[j].1@,
        decreases n - i,
    {
        let p = &v[i];
        r.push((p.0.clone(), p.1.clone()));
        i += 1;
    }
    proof {
        let rm = r@.map_values(|p: (String, String)| (p.0@, p.1@));
        let vm = v@.map_values(|p: (String, String)| (p.0@, p.1@));
        assert forall|j: int| 0 <= j < n implies rm[j] == vm[j] by {
            assert(r@[j].0@ == v@[j].0@ && r@[j].1@ == v@[j].1@);
        }
        assert(rm =~= vm);
    }
    r
}

impl ListenerRecord {
    /// A second reference to the shared pieces of this record; the view is
    /// identical.
    pub fn duplicate(&self) -> (r: Self)
        ensures
            r@ == self@,
    {
        let r = ListenerRecord {
            id: self.id.clone(),
            forwards_to: self.forwards_to.clone(),
            metadata: self.metadata.clone(),
            endpoint: match &self.endpoint {
                Some(e) => Some(Endpoint { url: e.url.clone(), proto: e.proto.clone() }),
                None => None,
            },
            labels: clone_pairs(&self.labels),
            session_id: self.session_id.clone(),
            remote_handle: self.remote_handle,
            join_handle: self.join_handle,
            forwarding: self.forwarding,
        };
        proof {
            assert(r@.labels =~= self@.labels);
        }
        r
    }
}

/// The process-wide registry of live listeners.
#[derive(Debug)]
pub struct ListenerRegistry {
    records: Vec<ListenerRecord>,
}

impl View for ListenerRegistry {
    type V = Seq<RecordView>;

    closed spec fn view(&self) -> Seq<RecordView> {
        self.records@.map_values(|r: ListenerRecord| r@)
    }
}

impl ListenerRegistry {
    /// Well-formed: no two records share an id.
    pub open spec fn wf(&self) -> bool {
        unique_ids(self@)
    }

    /// An empty registry.
    pub fn new() -> (r: Self)
        ensures
            r@ =~= Seq::<RecordView>::empty(),
            r.wf(),
    {
        ListenerRegistry { records: Vec::new() }
    }

    pub fn len(&self) -> (r: usize)
        ensures
            r == self@.len(),
    {
        self.records.len()
    }

    /// The index of the record with id `id`, scanning in insertion order.
    pub(crate) fn index_of(&self, id: &String) -> (r: Option<usize>)
        ensures
            match r {
                Some(i) => i < self@.len() && self@[i as int].id == id@ && forall|j: int|
                    0 <= j < i ==> self@[j].id != id@,
                None => !contains_id(self@, id@),
            },
    {
        let n = self.records.len();
        let mut i: usize = 0;
        while i < n
            invariant
                n == self@.len(),
                0 <= i <= n,
                forall|j: int| 0 <= j < i ==> self@[j].id != id@,
            decreases n - i,
        {
            if string_eq(&self.records[i].id, id) {
                return Some(i);
            }
            i += 1;
        }
        None
    }

    /// Whether a record with id `id` is live.
    pub fn contains(&self, id: &String) -> (r: bool)
        ensures
            r == contains_id(self@, id@),
    {
        match self.index_of(id) {
            Some(_) => true,
            None => false,
        }
    }

    /// Insert a record created by a successful remote listen call. The id is
    /// remote-assigned and globally unique, so no collision can occur.
    pub fn insert(&mut self, rec: ListenerRecord)
        requires
            old(self).wf(),
            !contains_id(old(self)@, rec@.id),
        ensures
            final(self)@ =~= old(self)@.push(rec@),
            final(self).wf(),
            spec_lookup(final(self)@, rec@.id) == Some(rec@),
    {
        proof {
            lemma_insert_unique(self@, rec@);
            lemma_insert_then_get(self@, rec@);
        }
        self.records.push(rec);
        proof {
            assert(self@ =~= old(self)@.push(rec@));
        }
    }

    /// Clone out the record with id `id`, so that no registry borrow is
    /// held while the caller works with it. Signals nothing here on a miss;
    /// callers map the miss to the not-found condition.
    pub fn get(&self, id: &String) -> (r: Option<ListenerRecord>)
        ensures
            match spec_lookup(self@, id@) {
                Some(rv) => r matches Some(rec) && rec@ == rv,
                None => r is None,
            },
    {
        proof {
            lemma_lookup_characterizes(self@, id@);
        }
        match self.index_of(id) {
            Some(i) => {
                proof {
                    lemma_lookup_first(self@, id@, i as int);
                }
                Some(self.records[i].duplicate())
            },
            None => None,
        }
    }

    /// Clone out the record at position `i`, for snapshot walks.
    pub fn get_at(&self, i: usize) -> (r: ListenerRecord)
        requires
            i < self@.len(),
        ensures
            r@ == self@[i as int],
    {
        self.records[i].duplicate()
    }

    /// Set the forwarding mark of the record with id `id`: the model of
    /// acquiring and releasing the exclusive accept-loop hold on the remote
    /// handle. Returns whether the record was found.
    pub fn set_forwarding(&mut self, id: &String, val: bool) -> (r: bool)
        requires
            old(self).wf(),
        ensures
            final(self).wf(),
            r == contains_id(old(self)@, id@),
            !r ==> final(self)@ == old(self)@,
            r ==> final(self)@ =~= spec_set_forwarding(old(self)@, id@, val),
            r ==> (match spec_lookup(old(self)@, id@) {
                Some(rv) => spec_lookup(final(self)@, id@) == Some(
                    (RecordView { forwarding: val, ..rv }),
                ),
                None => false,
            }),
    {
        proof {
            lemma_lookup_characterizes(self@, id@);
        }
        match self.index_of(id) {
            Some(i) => {
                proof {
                    lemma_lookup_first(self@, id@, i as int);
                    lemma_set_forwarding_at(self@, id@, val, i as int);
                }
                self.records[i].forwarding = val;
                proof {
                    let marked = (RecordView { forwarding: val, ..old(self)@[i as int] });
                    assert(self@ =~= old(self)@.update(i as int, marked));
                    assert forall|a: int, b: int| 0 <= a < b < self@.len() implies self@[a].id
                        != self@[b].id by {
                        assert(self@[a].id == old(self)@[a].id);
                        assert(self@[b].id == old(self)@[b].id);
                    }
                    lemma_lookup_first(self@, id@, i as int);
                }
                true
            },
            None => false,
        }
    }

    /// Remove the record with id `id`, if any; idempotent. Returns the
    /// removed record so that the caller can release what it retained.
    pub fn remove(&mut self, id: &String) -> (r: Option<ListenerRecord>)
        requires
            old(self).wf(),
        ensures
            final(self).wf(),
            final(self)@ =~= spec_remove(old(self)@, id@),
            r is Some <==> contains_id(old(self)@, id@),
            r matches Some(rec) ==> spec_lookup(old(self)@, id@) == Some(rec@),
            !contains_id(final(self)@, id@),
    {
        match self.index_of(id) {
            Some(i) => {
                proof {
                    lemma_lookup_at(self@, id@, i as int);
                    lemma_remove_at(self@, id@, i as int);
                    lemma_remove_idempotent(self@, id@, i as int);
                }
                let rec = self.records.remove(i);
                proof {
                    assert(self@ =~= old(self)@.remove(i as int));
                }
                Some(rec)
            },
            None => {
                proof {
                    lemma_lookup_absent(self@, id@);
                    assert(spec_remove(self@, id@) =~= self@) by {
                        lemma_remove_absent(self@, id@);
                    }
                }
                None
            },
        }
    }
}

/// Closing one listener never disturbs another: removal deletes the given
/// id and nothing else.
pub proof fn lemma_remove_only_target(s: Seq<RecordView>, id: Seq<char>, x: Seq<char>)
    requires
        x != id,
    ensures
        contains_id(spec_remove(s, id), x) == contains_id(s, x),
    decreases s.len(),
{
    if s.len() == 0 {
    } else {
        let t = spec_remove(s, id);
        assert(forall|j: int| 0 <= j < s.len() - 1 ==> s.drop_first()[j] == s[j + 1]);
        if s[0].id == id {
            if contains_id(s.drop_first(), x) {
                let w = choose|i: int|
                    0 <= i < s.drop_first().len() && s.drop_first()[i].id == x;
                assert(s[w + 1].id == x);
            }
            if contains_id(s, x) {
                let w = choose|i: int| 0 <= i < s.len() && s[i].id == x;
                assert(s.drop_first()[w - 1].id == x);
            }
        } else {
            lemma_remove_only_target(s.drop_first(), id, x);
            let rest = spec_remove(s.drop_first(), id);
            assert(forall|j: int| 1 <= j < t.len() ==> t[j] == rest[j - 1]);
            if contains_id(s, x) {
                let w = choose|i: int| 0 <= i < s.len() && s[i].id == x;
                if w == 0 {
                    assert(t[0].id == x);
                } else {
                    assert(s.drop_first()[w - 1].id == x);
                    assert(contains_id(rest, x));
                    let w2 = choose|i: int| 0 <= i < rest.len() && rest[i].id == x;
                    assert(t[w2 + 1].id == x);
                }
            }
            if contains_id(t, x) {
                let w = choose|i: int| 0 <= i < t.len() && t[i].id == x;
                if w == 0 {
                    assert(s[0].id == x);
                } else {
                    assert(rest[w - 1].id == x);
                    assert(contains_id(rest, x));
                    let w2 = choose|i: int|
                        0 <= i < s.drop_first().len() && s.drop_first()[i].id == x;
                    assert(s[w2 + 1].id == x);
                }
            }
        }
    }
}

/// Removing an absent id changes nothing.
pub proof fn lemma_remove_absent(s: Seq<RecordView>, id: Seq<char>)
    requires
        !contains_id(s, id),
    ensures
        spec_remove(s, id) =~= s,
    decreases s.len(),
{
    if s.len() == 0 {
    } else {
        assert(s[0].id != id);
        assert(forall|j: int| 0 <= j < s.len() - 1 ==> s.drop_first()[j] == s[j + 1]);
        assert(!contains_id(s.drop_first(), id));
        lemma_remove_absent(s.drop_first(), id);
        assert(spec_remove(s, id) =~= seq![s[0]] + s.drop_first());
    }
}

} // verus!
