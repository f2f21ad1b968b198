//! The user-facing listener handle and the forwarding engine. A handle is a
//! cheap read-only projection of a registry record: any number of handles
//! may exist and dropping them all never removes the record. The engine
//! repairs and strictly parses the forward target, serializes accept loops
//! per listener through the forwarding mark, and classifies terminal
//! results, swallowing the benign cancellation condition.

use vstd::prelude::*;
use vstd::string::*;

use crate::addr::{parse_target, parsed_url, repair_target, spec_repair};
use crate::errors::Error;
use crate::registry::{
    clone_pairs, contains_id, spec_lookup, spec_remove, spec_set_forwarding, Endpoint,
    ListenerRecord, ListenerRegistry, RecordView,
};
use crate::socket::{cache_remove, SocketCache, SocketHandle};

verus! {

/// Mathematical view of a user handle.
pub ghost struct ListenerView {
    pub id: Seq<char>,
    pub forwards_to: Seq<char>,
    pub metadata: Seq<char>,
    pub endpoint: Option<(Seq<char>, Seq<char>)>,
    pub labels: Seq<(Seq<char>, Seq<char>)>,
    pub session_id: Seq<char>,
    pub joinable: bool,
}

/// A cheap, cloneable, read-only projection of a listener record, returned
/// to callers. Dropping handles has no effect on the registry.
#[derive(Debug)]
pub struct Listener {
    pub id: String,
    pub forwards_to: String,
    pub metadata: String,
    pub endpoint: Option<Endpoint>,
    pub labels: Vec<(String, String)>,
    pub session_id: String,
    pub joinable: bool,
}

impl View for Listener {
    type V = ListenerView;

    open spec fn view(&self) -> ListenerView {
        ListenerView {
            id: self.id@,
            forwards_to: self.forwards_to@,
            metadata: self.metadata@,
            endpoint: match self.endpoint {
                Some(e) => Some((e.url@, e.proto@)),
                None => None,
            },
            labels: self.labels@.map_values(|p: (String, String)| (p.0@, p.1@)),
            session_id: self.session_id@,
            joinable: self.joinable,
        }
    }
}

/// The handle that projects a given record.
pub open spec fn spec_handle_of(rv: RecordView) -> ListenerView {
    ListenerView {
        id: rv.id,
        forwards_to: rv.forwards_to,
        metadata: rv.metadata,
        endpoint: rv.endpoint,
        labels: rv.labels,
        session_id: rv.session_id,
        joinable: rv.join_handle is Some,
    }
}

impl Listener {
    /// Create a user handle from a registry record: a snapshot of the
    /// shared metadata, nothing owning.
    pub fn from_record(rec: &ListenerRecord) -> (r: Listener)
        ensures
            r@ == spec_handle_of(rec@),
    {
        let r = Listener {
            id: rec.id.clone(),
            forwards_to: rec.forwards_to.clone(),
            metadata: rec.metadata.clone(),
            endpoint: match &rec.endpoint {
                Some(e) => Some(Endpoint { url: e.url.clone(), proto: e.proto.clone() }),
                None => None,
            },
            labels: clone_pairs(&rec.labels),
            session_id: rec.session_id.clone(),
            joinable: match rec.join_handle {
                Some(_) => true,
                None => false,
            },
        };
        proof {
            assert(r@.labels =~= rec@.labels);
        }
        r
    }

    /// A second handle to the same listener.
    pub fn duplicate(&self) -> (r: Listener)
        ensures
            r@ == self@,
    {
        let r = Listener {
            id: self.id.clone(),
            forwards_to: self.forwards_to.clone(),
            metadata: self.metadata.clone(),
            endpoint: match &self.endpoint {
                Some(e) => Some(Endpoint { url: e.url.clone(), proto: e.proto.clone() }),
                None => None,
            },
            labels: clone_pairs(&self.labels),
            session_id: self.session_id.clone(),
            joinable: self.joinable,
        };
        proof {
            assert(r@.labels =~= self@.labels);
        }
        r
    }

    /// The listener's unique, remote-assigned id.
    pub fn id(&self) -> (r: String)
        ensures
            r@ == self@.id,
    {
        self.id.clone()
    }

    /// The URL that this listener backs; absent for labeled listeners.
    pub fn url(&self) -> (r: Option<String>)
        ensures
            match self@.endpoint {
                Some(e) => r matches Some(u) && u@ == e.0,
                None => r is None,
            },
    {
        match &self.endpoint {
            Some(e) => Some(e.url.clone()),
            None => None,
        }
    }

    /// The protocol of the endpoint; absent for labeled listeners.
    pub fn proto(&self) -> (r: Option<String>)
        ensures
            match self@.endpoint {
                Some(e) => r matches Some(p) && p@ == e.1,
                None => r is None,
            },
    {
        match &self.endpoint {
            Some(e) => Some(e.proto.clone()),
            None => None,
        }
    }

    /// The labels this listener was started with; empty unless labeled.
    pub fn labels(&self) -> (r: Vec<(String, String)>)
        ensures
            r@.map_values(|p: (String, String)| (p.0@, p.1@)) == self@.labels,
    {
        let r = clone_pairs(&self.labels);
        proof {
            assert(r@.map_values(|p: (String, String)| (p.0@, p.1@)) =~= self@.labels);
        }
        r
    }

    /// Begin forwarding this listener's connections to `addr`, a TCP
    /// address or a file-socket path; the engine's entry point bound to
    /// this handle's id.
    pub fn forward(&self, reg: &mut ListenerRegistry, addr: &str) -> (r: Result<
        ForwardStart,
        Error,
    >)
        requires
            old(reg).wf(),
        ensures
            final(reg).wf(),
            parsed_url(spec_repair(addr@)) is None ==> (r matches Err(e) && e matches
                Error::InvalidAddress { .. } && final(reg)@ == old(reg)@),
            (parsed_url(spec_repair(addr@)) is Some && !contains_id(old(reg)@, self@.id)) ==> (
            r matches Err(e) && e is NotFound && final(reg)@ == old(reg)@),
            (parsed_url(spec_repair(addr@)) is Some && (spec_lookup(old(reg)@, self@.id) matches
                Some(rv) && rv.forwarding)) ==> (r matches Ok(s) && s is Busy && final(reg)@
                == old(reg)@),
            (match parsed_url(spec_repair(addr@)) {
                Some(u) => forward_slot_free(old(reg)@, self@.id) ==> (r matches Ok(s) && (
                s matches ForwardStart::Started { target } && target@ == u) && final(reg)@
                    =~= spec_set_forwarding(old(reg)@, self@.id, true)),
                None => true,
            }),
    {
        forward_begin(reg, &self.id, addr)
    }

    /// The human-readable forwarding description shown remotely.
    pub fn forwards_to(&self) -> (r: String)
        ensures
            r@ == self@.forwards_to,
    {
        self.forwards_to.clone()
    }

    /// The arbitrary metadata string for this listener.
    pub fn metadata(&self) -> (r: String)
        ensures
            r@ == self@.metadata,
    {
        self.metadata.clone()
    }
}

/// How a forward request starts: either the accept loop begins, driving the
/// remote object towards the given target, or another loop already holds
/// this listener and the request waits behind it.
#[derive(Debug)]
pub enum ForwardStart {
    Started { target: String },
    Busy,
}

/// The terminal result of driving a forward loop, as handed back by the
/// transport: normal completion, the cancellation condition raised by the
/// reconnect or shutdown machinery, or a real transport failure.
#[derive(Debug)]
pub enum ForwardOutcome {
    Done,
    Canceled,
    Failed { message: String },
}

/// Classify a forward loop's terminal result. The cancellation condition is
/// an expected consequence of closing a listener mid-flight and is reported
/// as success; every other failure surfaces as a remote error.
pub fn canceled_is_ok(outcome: &ForwardOutcome) -> (r: Result<(), Error>)
    ensures
        r is Ok <==> !(outcome matches ForwardOutcome::Failed { .. }),
        outcome matches ForwardOutcome::Failed { message } ==> r matches Err(e) && (e matches
            Error::Remote { message: m, code } && m@ == "error forwarding: "@ + message@ && code
            is None),
{
    match outcome {
        ForwardOutcome::Done => Ok(()),
        ForwardOutcome::Canceled => Ok(()),
        ForwardOutcome::Failed { message } => Err(
            Error::Remote {
                message: "error forwarding: ".to_owned().concat(message.as_str()),
                code: None,
            },
        ),
    }
}

/// Whether a forward loop may start for `id`: the record is live and no
/// other loop holds its remote handle.
pub open spec fn forward_slot_free(s: Seq<RecordView>, id: Seq<char>) -> bool {
    spec_lookup(s, id) matches Some(rv) && !rv.forwarding
}

/// Begin a forward request: repair and strictly parse the target, look the
/// listener up, and acquire the exclusive accept-loop hold. Address
/// rejection changes no state; an id that is gone reports the not-found
/// condition; a held listener reports `Busy` and the request waits.
pub fn forward_begin(reg: &mut ListenerRegistry, id: &String, addr: &str) -> (r: Result<
    ForwardStart,
    Error,
>)
    requires
        old(reg).wf(),
    ensures
        final(reg).wf(),
        match parsed_url(spec_repair(addr@)) {
            None => r matches Err(e) && (e matches Error::InvalidAddress { addr: a } && a@
                == spec_repair(addr@)) && final(reg)@ == old(reg)@,
            Some(u) => {
                &&& !contains_id(old(reg)@, id@) ==> (r matches Err(e) && e is NotFound
                    && final(reg)@ == old(reg)@)
                &&& (spec_lookup(old(reg)@, id@) matches Some(rv) && rv.forwarding) ==> (r matches
                    Ok(s) && s is Busy && final(reg)@ == old(reg)@)
                &&& forward_slot_free(old(reg)@, id@) ==> (r matches Ok(s) && (s matches
                    ForwardStart::Started { target } && target@ == u) && final(reg)@
                    =~= spec_set_forwarding(old(reg)@, id@, true))
            },
        },
{
    proof {
        crate::registry::lemma_lookup_characterizes(reg@, id@);
    }
    let repaired = repair_target(addr);
    let target = match parse_target(repaired.as_str()) {
        Ok(t) => t,
        Err(e) => {
            return Err(e);
        },
    };
    match reg.get(id) {
        None => Err(Error::NotFound),
        Some(rec) => {
            if rec.forwarding {
                Ok(ForwardStart::Busy)
            } else {
                reg.set_forwarding(id, true);
                Ok(ForwardStart::Started { target })
            }
        },
    }
}

/// Finish a forward request: release the accept-loop hold (when the record
/// still exists; a close mid-flight may already have removed it) and
/// classify the outcome, swallowing the cancellation condition.
pub fn forward_finish(reg: &mut ListenerRegistry, id: &String, outcome: &ForwardOutcome) -> (r:
    Result<(), Error>)
    requires
        old(reg).wf(),
    ensures
        final(reg).wf(),
        contains_id(old(reg)@, id@) ==> final(reg)@ =~= spec_set_forwarding(
            old(reg)@,
            id@,
            false,
        ),
        !contains_id(old(reg)@, id@) ==> final(reg)@ == old(reg)@,
        r is Ok <==> !(outcome matches ForwardOutcome::Failed { .. }),
        outcome matches ForwardOutcome::Failed { message } ==> r matches Err(e) && (e matches
            Error::Remote { message: m, code } && m@ == "error forwarding: "@ + message@ && code
            is None),
{
    reg.set_forwarding(id, false);
    canceled_is_ok(outcome)
}

/// Serialized forwarding per listener: right after one forward loop has
/// started and before it finishes, the listener's slot is not free, so a
/// second request on the same id cannot start and observes `Busy`.
pub proof fn lemma_forward_serialized(s: Seq<RecordView>, id: Seq<char>)
    requires
        contains_id(s, id),
    ensures
        !forward_slot_free(spec_set_forwarding(s, id, true), id),
{
    crate::registry::lemma_lookup_characterizes(s, id);
    let w = choose|i: int| 0 <= i < s.len() && s[i].id == id;
    lemma_first_witness(s, id);
    let f = choose|i: int|
        0 <= i < s.len() && s[i].id == id && forall|j: int| 0 <= j < i ==> s[j].id != id;
    crate::registry::lemma_set_forwarding_at(s, id, true, f);
    crate::registry::lemma_lookup_first(
        s.update(f, (RecordView { forwarding: true, ..s[f] })),
        id,
        f,
    );
}

/// Releasing the hold frees the slot again: once a loop finishes, the next
/// request on the same id may start.
pub proof fn lemma_forward_slot_freed(s: Seq<RecordView>, id: Seq<char>)
    requires
        contains_id(s, id),
    ensures
        forward_slot_free(spec_set_forwarding(s, id, false), id),
{
    lemma_first_witness(s, id);
    let f = choose|i: int|
        0 <= i < s.len() && s[i].id == id && forall|j: int| 0 <= j < i ==> s[j].id != id;
    crate::registry::lemma_set_forwarding_at(s, id, false, f);
    crate::registry::lemma_lookup_first(
        s.update(f, (RecordView { forwarding: false, ..s[f] })),
        id,
        f,
    );
}

/// Any live id has a first index holding it.
pub proof fn lemma_first_witness(s: Seq<RecordView>, id: Seq<char>)
    requires
        contains_id(s, id),
    ensures
        exists|i: int|
            0 <= i < s.len() && s[i].id == id && forall|j: int| 0 <= j < i ==> s[j].id != id,
    decreases s.len(),
{
    if s[0].id == id {
        assert(s[0].id == id && forall|j: int| 0 <= j < 0 ==> s[j].id != id);
    } else {
        assert(forall|j: int| 0 <= j < s.len() - 1 ==> s.drop_first()[j] == s[j + 1]);
        let w = choose|i: int| 0 <= i < s.len() && s[i].id == id;
        assert(s.drop_first()[w - 1].id == id);
        lemma_first_witness(s.drop_first(), id);
        let f = choose|i: int|
            0 <= i < s.drop_first().len() && s.drop_first()[i].id == id && forall|j: int|
                0 <= j < i ==> s.drop_first()[j].id != id;
        assert(s[f + 1].id == id);
        assert forall|j: int| 0 <= j < f + 1 implies s[j].id != id by {
            if j > 0 {
                assert(s.drop_first()[j - 1].id != id);
            }
        }
    }
}

/// Remove every local reference retained for `id`: the registry record and
/// the cached socket. The returned socket capability, if any, is what the
/// caller must close. Idempotent in both structures.
pub fn remove_listener(reg: &mut ListenerRegistry, sockets: &mut SocketCache, id: &String) -> (r: (
    Option<ListenerRecord>,
    Option<SocketHandle>,
))
    requires
        old(reg).wf(),
        old(sockets).wf(),
    ensures
        final(reg).wf(),
        final(sockets).wf(),
        final(reg)@ =~= spec_remove(old(reg)@, id@),
        final(sockets)@ =~= cache_remove(old(sockets)@, id@),
        r.0 is Some <==> contains_id(old(reg)@, id@),
        r.0 matches Some(rec) ==> spec_lookup(old(reg)@, id@) == Some(rec@),
        r.1 is Some <==> crate::socket::cache_contains(old(sockets)@, id@),
        r.1 matches Some(h) ==> crate::socket::cache_lookup(old(sockets)@, id@) == Some(h@),
        !contains_id(final(reg)@, id@),
        !crate::socket::cache_contains(final(sockets)@, id@),
{
    let rec = reg.remove(id);
    let sock = sockets.release(id);
    (rec, sock)
}

/// The remote-side close of a listener has completed, successfully or not.
#[derive(Debug)]
pub enum RpcOutcome {
    Done,
    Failed { message: String, code: Option<String> },
}

/// Gate for closing a listener: the close call must reach the remote side
/// only for a live id, so a second close of the same id reports the
/// not-found condition without a duplicate remote call.
pub fn close_begin(reg: &ListenerRegistry, id: &String) -> (r: Result<(), Error>)
    ensures
        r is Ok <==> contains_id(reg@, id@),
        r matches Err(e) ==> e is NotFound,
{
    if reg.contains(id) {
        Ok(())
    } else {
        Err(Error::NotFound)
    }
}

/// Completion of a close: once the remote call has returned, the local
/// record and socket are purged whatever the remote result was, and a
/// remote failure is still reported - removal never masks it. The first
/// component is the cached socket capability, handed back on every path so
/// that the caller closes it exactly once.
pub fn close_finish(
    reg: &mut ListenerRegistry,
    sockets: &mut SocketCache,
    id: &String,
    rpc: &RpcOutcome,
) -> (r: (Option<SocketHandle>, Result<(), Error>))
    requires
        old(reg).wf(),
        old(sockets).wf(),
    ensures
        final(reg).wf(),
        final(sockets).wf(),
        final(reg)@ =~= spec_remove(old(reg)@, id@),
        final(sockets)@ =~= cache_remove(old(sockets)@, id@),
        !contains_id(final(reg)@, id@),
        r.0 is Some <==> crate::socket::cache_contains(old(sockets)@, id@),
        r.0 matches Some(h) ==> crate::socket::cache_lookup(old(sockets)@, id@) == Some(h@),
        r.1 is Ok <==> rpc is Done,
        rpc matches RpcOutcome::Failed { message, code } ==> r.1 matches Err(e) && (e matches
            Error::Remote { message: m, code: c } && m@ == "error closing listener: "@ + message@
            && (match code {
            Some(cd) => c matches Some(cs) && cs@ == cd@,
            None => c is None,
        })),
{
    let (_rec, sock) = remove_listener(reg, sockets, id);
    let res: Result<(), Error> = match rpc {
        RpcOutcome::Done => Ok(()),
        RpcOutcome::Failed { message, code } => Err(
            Error::Remote {
                message: "error closing listener: ".to_owned().concat(message.as_str()),
                code: match code {
                    Some(c) => Some(c.clone()),
                    None => None,
                },
            },
        ),
    };
    (sock, res)
}

/// The token to wait on for the forwarding task's terminal result; only
/// listeners created by the listen-and-forward path have one.
pub fn join_token(reg: &ListenerRegistry, id: &String) -> (r: Result<u64, Error>)
    ensures
        match spec_lookup(reg@, id@) {
            Some(rv) => match rv.join_handle {
                Some(t) => r == Ok::<u64, Error>(t),
                None => r matches Err(e) && e is NotJoinable,
            },
            None => r matches Err(e) && e is NotFound,
        },
{
    match reg.get(id) {
        Some(rec) => match rec.join_handle {
            Some(t) => Ok(t),
            None => Err(Error::NotJoinable),
        },
        None => Err(Error::NotFound),
    }
}

/// The handles of the live listeners, last-inserted last, optionally
/// filtered by owning session.
pub open spec fn spec_list(s: Seq<RecordView>, sid: Option<Seq<char>>) -> Seq<ListenerView>
    decreases s.len(),
{
    if s.len() == 0 {
        Seq::empty()
    } else {
        spec_list(s.drop_last(), sid) + (if sid is None || sid == Some(s.last().session_id) {
            seq![spec_handle_of(s.last())]
        } else {
            Seq::empty()
        })
    }
}

/// Snapshot of the live listeners as user handles, in no particular order,
/// filtered by owning session id when one is given.
pub fn list_listeners(reg: &ListenerRegistry, session_id: Option<&String>) -> (r: Vec<Listener>)
    ensures
        r@.map_values(|l: Listener| l@) =~= spec_list(
            reg@,
            match session_id {
                Some(s) => Some(s@),
                None => None,
            },
        ),
{
    let ghost sid: Option<Seq<char>> = match session_id {
        Some(s) => Some(s@),
        None => None,
    };
    let n = reg.len();
    let mut r: Vec<Listener> = Vec::new();
    let mut i: usize = 0;
    while i < n
        invariant
            n == reg@.len(),
            0 <= i <= n,
            sid == (match session_id {
                Some(s) => Some(s@),
                None => None,
            }),
            r@.map_values(|l: Listener| l@) =~= spec_list(reg@.subrange(0, i as int), sid),
        decreases n - i,
    {
        let rec = reg.get_at(i);
        let take = match session_id {
            Some(s) => crate::text::string_eq(s, &rec.session_id),
            None => true,
        };
        if take {
            r.push(Listener::from_record(&rec));
        }
        proof {
            assert(reg@.subrange(0, i + 1).drop_last() =~= reg@.subrange(0, i as int));
            assert(reg@.subrange(0, i + 1).last() == reg@[i as int]);
            assert(r@.map_values(|l: Listener| l@) =~= spec_list(
                reg@.subrange(0, i + 1),
                sid,
            ));
        }
        i += 1;
    }
    proof {
        assert(reg@.subrange(0, n as int) =~= reg@);
    }
    r
}

/// Snapshot of every live listener, in no particular order.
pub fn get_listeners(reg: &ListenerRegistry) -> (r: Vec<Listener>)
    ensures
        r@.map_values(|l: Listener| l@) =~= spec_list(reg@, None),
{
    list_listeners(reg, None)
}

/// The ids that a close-by-url pass will close: all of them when no url is
/// given, else those whose endpoint url equals it. Collected first, so that
/// no registry borrow is held across the remote close calls.
pub open spec fn spec_close_targets(s: Seq<RecordView>, url: Option<Seq<char>>) -> Seq<Seq<char>>
    decreases s.len(),
{
    if s.len() == 0 {
        Seq::empty()
    } else {
        spec_close_targets(s.drop_last(), url) + (if url is None || url
            == crate::registry::record_url(s.last()) {
            seq![s.last().id]
        } else {
            Seq::empty()
        })
    }
}

/// Collect the ids to close for a close-by-url (or close-all) pass.
pub fn close_url_targets(reg: &ListenerRegistry, url: Option<&String>) -> (r: Vec<String>)
    ensures
        r@.map_values(|s: String| s@) =~= spec_close_targets(
            reg@,
            match url {
                Some(u) => Some(u@),
                None => None,
            },
        ),
{
    let ghost uv: Option<Seq<char>> = match url {
        Some(u) => Some(u@),
        None => None,
    };
    let n = reg.len();
    let mut r: Vec<String> = Vec::new();
    let mut i: usize = 0;
    while i < n
        invariant
            n == reg@.len(),
            0 <= i <= n,
            uv == (match url {
                Some(u) => Some(u@),
                None => None,
            }),
            r@.map_values(|s: String| s@) =~= spec_close_targets(reg@.subrange(0, i as int), uv),
        decreases n - i,
    {
        let rec = reg.get_at(i);
        let take = match url {
            Some(u) => match &rec.endpoint {
                Some(e) => crate::text::string_eq(u, &e.url),
                None => false,
            },
            None => true,
        };
        if take {
            r.push(rec.id);
        }
        proof {
            assert(reg@.subrange(0, i + 1).drop_last() =~= reg@.subrange(0, i as int));
            assert(reg@.subrange(0, i + 1).last() == reg@[i as int]);
            assert(r@.map_values(|s: String| s@) =~= spec_close_targets(
                reg@.subrange(0, i + 1),
                uv,
            ));
        }
        i += 1;
    }
    proof {
        assert(reg@.subrange(0, n as int) =~= reg@);
    }
    r
}

} // verus!
