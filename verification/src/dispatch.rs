//! The statement dispatcher: the per-session state, the routing decision
//! for each classified statement, and the translation of executor output
//! into protocol responses.
//!
//! Executing a statement on a peer is long-running outside work, so the
//! dispatcher is split around it: `plan_statement` decides, from the
//! session state alone, which executor the statement goes to (and never
//! changes that state); the caller performs the execution; and
//! `translate_output` turns whatever the executor returned into responses,
//! updating the cursor table where the output says so.

use vstd::prelude::*;

use crate::cache::ExecutorCache;
use crate::cursors::PeerCursors;
use crate::error::NexusError;
use crate::stmt::{Association, CursorEvent, Peer, PeerDdl, Statement};
use crate::translate::{
    error_response, is_ack, is_error_for, CursorModification, QueryOutput, SessionResponse,
};

verus! {

/// The per-connection session handler: the cursor table and the executor
/// cache. Both are strictly session-scoped; dropping the connection drops
/// them. The catalog handle and the portal store stay with the caller.
pub struct NexusBackend {
    pub peer_cursors: PeerCursors,
    pub executors: ExecutorCache,
}

/// The executor a statement was routed to.
pub enum ExecutionTarget {
    /// The catalog's built-in executor.
    Catalog,
    /// The executor already cached for this peer name.
    CachedPeer { name: String, handle: u64 },
    /// No executor is cached: one must be constructed for this peer, and
    /// installed in the cache once construction succeeds.
    NewPeer { peer: Peer },
}

/// What a describe request resolves to.
pub enum DescribePlan {
    /// The statement returns no row data (data definition and cursor
    /// statements).
    NoData,
    /// Ask this executor to describe the statement's output schema,
    /// without executing it.
    DescribeTarget { target: ExecutionTarget },
}

/// What the dispatcher asks the caller to do for one statement.
pub enum DispatchPlan {
    /// Persist the peer definition via the catalog, then acknowledge.
    CreatePeer { peer: Peer, if_not_exists: bool },
    /// Run the statement text on the resolved executor.
    Execute { target: ExecutionTarget, stmt: String },
    /// Close every cursor the session tracks.
    CloseAllCursors,
}

/// The handle cached for a peer name, if any.
pub open spec fn cached_handle(cache: Map<Seq<char>, u64>, name: Seq<char>) -> Option<u64> {
    if cache.dom().contains(name) {
        Some(cache[name])
    } else {
        None
    }
}

/// The peer a cursor name routes to: its owner while the cursor is
/// tracked; once the name is absent, no peer (the dispatcher then falls
/// back to the catalog executor).
pub open spec fn cursor_route(cursors: Map<Seq<char>, Peer>, name: Seq<char>) -> Option<Peer> {
    if cursors.dom().contains(name) {
        Some(cursors[name])
    } else {
        None
    }
}

/// Whether resolving `peer` against `cache` owes the result `r`: a hit
/// returns the cached handle under exactly that name; a miss plans a
/// construction for exactly that peer where its configuration is
/// supported, and is a typed error otherwise.
pub open spec fn resolution_ok(
    cache: Map<Seq<char>, u64>,
    peer: Peer,
    r: Result<ExecutionTarget, NexusError>,
) -> bool {
    match cached_handle(cache, peer.name@) {
        Some(h) => {
            &&& r matches Ok(ExecutionTarget::CachedPeer { name, handle })
            &&& name@ == peer.name@
            &&& handle == h
        },
        None => {
            if peer.config.spec_supported() {
                &&& r matches Ok(ExecutionTarget::NewPeer { peer: q })
                &&& q == peer
            } else {
                &&& r matches Err(e)
                &&& e matches NexusError::UnsupportedPeerType { kind }
                &&& kind@ == peer.config.spec_kind_name()
            }
        },
    }
}

/// The cursor table after removing each of `names`.
pub open spec fn remove_names(m: Map<Seq<char>, Peer>, names: Seq<String>) -> Map<Seq<char>, Peer>
    decreases names.len(),
{
    if names.len() == 0 {
        m
    } else {
        remove_names(m, names.drop_last()).remove(names.last()@)
    }
}

impl NexusBackend {
    /// A fresh session: no cursor is tracked, no executor is cached.
    pub fn new() -> (r: NexusBackend)
        ensures
            r.peer_cursors@ == Map::<Seq<char>, Peer>::empty(),
            r.executors@ == Map::<Seq<char>, u64>::empty(),
    {
        NexusBackend { peer_cursors: PeerCursors::new(), executors: ExecutorCache::new() }
    }

    /// Resolve `peer` to its executor: the cached handle on a hit, a
    /// construction plan on a supported miss, a typed error on an
    /// unsupported one. Resolving never changes the session.
    pub fn resolve_peer(&self, peer: Peer) -> (r: Result<ExecutionTarget, NexusError>)
        ensures
            resolution_ok(self.executors@, peer, r),
    {
        match self.executors.lookup(&peer.name) {
            Some(handle) => Ok(ExecutionTarget::CachedPeer { name: peer.name, handle }),
            None => {
                if peer.config.supported() {
                    Ok(ExecutionTarget::NewPeer { peer })
                } else {
                    Err(NexusError::UnsupportedPeerType { kind: peer.config.kind_name() })
                }
            },
        }
    }

    /// Route a cursor statement: to the owning peer's executor while the
    /// cursor is tracked, else to the catalog executor.
    fn plan_cursor(&self, stmt: String, name: &String) -> (r: Result<DispatchPlan, NexusError>)
        ensures
            match cursor_route(self.peer_cursors@, name@) {
                Some(p) => match r {
                    Ok(plan) => {
                        &&& plan matches DispatchPlan::Execute { target, stmt: s }
                        &&& s == stmt
                        &&& resolution_ok(self.executors@, p, Ok(target))
                    },
                    Err(e) => resolution_ok(self.executors@, p, Err(e)),
                },
                None => {
                    &&& r matches Ok(DispatchPlan::Execute { target, stmt: s })
                    &&& s == stmt
                    &&& target is Catalog
                },
            },
    {
        match self.peer_cursors.get_peer(name) {
            Some(peer) => {
                let owned = peer.clone();
                match self.resolve_peer(owned) {
                    Ok(target) => Ok(DispatchPlan::Execute { target, stmt }),
                    Err(e) => Err(e),
                }
            },
            None => Ok(DispatchPlan::Execute { target: ExecutionTarget::Catalog, stmt }),
        }
    }

    /// Classify and route one statement. Planning reads the session state
    /// and never changes it; the only error it can raise is the typed one
    /// for an unsupported peer configuration.
    pub fn plan_statement(&self, statement: Statement) -> (r: Result<DispatchPlan, NexusError>)
        ensures
            match statement {
                Statement::PeerDdl { ddl: PeerDdl::CreatePeer { peer, if_not_exists } } => {
                    &&& r matches Ok(DispatchPlan::CreatePeer { peer: p, if_not_exists: b })
                    &&& p == peer
                    &&& b == if_not_exists
                },
                Statement::PeerQuery { stmt, assoc } => match assoc {
                    Association::Catalog => {
                        &&& r matches Ok(DispatchPlan::Execute { target, stmt: s })
                        &&& s == stmt
                        &&& target is Catalog
                    },
                    Association::Peer(p) => match r {
                        Ok(plan) => {
                            &&& plan matches DispatchPlan::Execute { target, stmt: s }
                            &&& s == stmt
                            &&& resolution_ok(self.executors@, p, Ok(target))
                        },
                        Err(e) => resolution_ok(self.executors@, p, Err(e)),
                    },
                },
                Statement::PeerCursor { stmt, cursor } => match cursor {
                    CursorEvent::Fetch(name, _) => match cursor_route(self.peer_cursors@, name@) {
                        Some(p) => match r {
                            Ok(plan) => {
                                &&& plan matches DispatchPlan::Execute { target, stmt: s }
                                &&& s == stmt
                                &&& resolution_ok(self.executors@, p, Ok(target))
                            },
                            Err(e) => resolution_ok(self.executors@, p, Err(e)),
                        },
                        None => {
                            &&& r matches Ok(DispatchPlan::Execute { target, stmt: s })
                            &&& s == stmt
                            &&& target is Catalog
                        },
                    },
                    CursorEvent::Close(name) => match cursor_route(self.peer_cursors@, name@) {
                        Some(p) => match r {
                            Ok(plan) => {
                                &&& plan matches DispatchPlan::Execute { target, stmt: s }
                                &&& s == stmt
                                &&& resolution_ok(self.executors@, p, Ok(target))
                            },
                            Err(e) => resolution_ok(self.executors@, p, Err(e)),
                        },
                        None => {
                            &&& r matches Ok(DispatchPlan::Execute { target, stmt: s })
                            &&& s == stmt
                            &&& target is Catalog
                        },
                    },
                    CursorEvent::CloseAll => r == Ok::<DispatchPlan, NexusError>(
                        DispatchPlan::CloseAllCursors,
                    ),
                },
            },
    {
        match statement {
            Statement::PeerDdl { ddl } => match ddl {
                PeerDdl::CreatePeer { peer, if_not_exists } => Ok(DispatchPlan::CreatePeer {
                    peer,
                    if_not_exists,
                }),
            },
            Statement::PeerQuery { stmt, assoc } => match assoc {
                Association::Catalog => Ok(DispatchPlan::Execute {
                    target: ExecutionTarget::Catalog,
                    stmt,
                }),
                Association::Peer(p) => match self.resolve_peer(p) {
                    Ok(target) => Ok(DispatchPlan::Execute { target, stmt }),
                    Err(e) => Err(e),
                },
            },
            Statement::PeerCursor { stmt, cursor } => match cursor {
                CursorEvent::Fetch(name, _count) => self.plan_cursor(stmt, &name),
                CursorEvent::Close(name) => self.plan_cursor(stmt, &name),
                CursorEvent::CloseAll => Ok(DispatchPlan::CloseAllCursors),
            },
        }
    }

    /// Build the responses for a peer-creation statement, given what the
    /// catalog said: an acknowledgment on success, an error response
    /// carrying the underlying cause on failure. Takes no session state:
    /// a failing creation cannot corrupt the cursor table or the cache.
    pub fn create_peer_responses(outcome: Result<(), String>) -> (r: Vec<SessionResponse>)
        ensures
            r@.len() == 1,
            match outcome {
                Ok(_) => is_ack(r@[0], "OK"@, None::<u64>),
                Err(cause) => is_error_for(r@[0], NexusError::Catalog { message: cause }),
            },
    {
        let mut v: Vec<SessionResponse> = Vec::new();
        match outcome {
            Ok(_) => {
                v.push(SessionResponse::Execution { tag: "OK".to_owned(), rows: None });
            },
            Err(cause) => {
                v.push(error_response(&NexusError::Catalog { message: cause }));
            },
        }
        v
    }

    /// Normalize one executor output into responses. Row-bearing outputs
    /// pass through with their schema and rows intact; cursor outputs
    /// update the cursor table and acknowledge without row data. The
    /// executor cache is never touched, and the cursor table only by the
    /// cursor outputs.
    pub fn translate_output(&mut self, output: QueryOutput, peer_holder: Option<Peer>) -> (r:
        Result<Vec<SessionResponse>, NexusError>)
        ensures
            final(self).executors@ == old(self).executors@,
            match output {
                QueryOutput::AffectedRows(n) => {
                    &&& r matches Ok(v)
                    &&& v@.len() == 1
                    &&& is_ack(v@[0], "OK"@, Some(n))
                    &&& final(self).peer_cursors@ == old(self).peer_cursors@
                },
                QueryOutput::Stream { schema, stream } => {
                    &&& r matches Ok(v)
                    &&& v@.len() == 1
                    &&& v@[0] matches SessionResponse::Stream { schema: sc, stream: h }
                    &&& sc == schema
                    &&& h == stream
                    &&& final(self).peer_cursors@ == old(self).peer_cursors@
                },
                QueryOutput::Records { schema, rows } => {
                    &&& r matches Ok(v)
                    &&& v@.len() == 1
                    &&& v@[0] matches SessionResponse::Records { schema: sc, records: rw }
                    &&& sc == schema
                    &&& rw == rows
                    &&& final(self).peer_cursors@ == old(self).peer_cursors@
                },
                QueryOutput::Cursor(CursorModification::Created(name)) => match peer_holder {
                    Some(p) => {
                        &&& r matches Ok(v)
                        &&& v@.len() == 1
                        &&& is_ack(v@[0], "DECLARE CURSOR"@, None::<u64>)
                        &&& final(self).peer_cursors@ == old(self).peer_cursors@.insert(name@, p)
                    },
                    None => {
                        &&& r matches Err(e)
                        &&& e is CursorWithoutPeer
                        &&& final(self).peer_cursors@ == old(self).peer_cursors@
                    },
                },
                QueryOutput::Cursor(CursorModification::Closed(names)) => {
                    &&& r matches Ok(v)
                    &&& v@.len() == 1
                    &&& is_ack(v@[0], "CLOSE CURSOR"@, None::<u64>)
                    &&& final(self).peer_cursors@ == remove_names(old(self).peer_cursors@, names@)
                },
            },
    {
        match output {
            QueryOutput::AffectedRows(n) => {
                let mut v: Vec<SessionResponse> = Vec::new();
                v.push(SessionResponse::Execution { tag: "OK".to_owned(), rows: Some(n) });
                Ok(v)
            },
            QueryOutput::Stream { schema, stream } => {
                let mut v: Vec<SessionResponse> = Vec::new();
                v.push(SessionResponse::Stream { schema, stream });
                Ok(v)
            },
            QueryOutput::Records { schema, rows } => {
                let mut v: Vec<SessionResponse> = Vec::new();
                v.push(SessionResponse::Records { schema, records: rows });
                Ok(v)
            },
            QueryOutput::Cursor(cm) => match cm {
                CursorModification::Created(name) => match peer_holder {
                    Some(p) => {
                        self.peer_cursors.add_cursor(name, p);
                        let mut v: Vec<SessionResponse> = Vec::new();
                        v.push(SessionResponse::Execution {
                            tag: "DECLARE CURSOR".to_owned(),
                            rows: None,
                        });
                        Ok(v)
                    },
                    None => Err(NexusError::CursorWithoutPeer),
                },
                CursorModification::Closed(names) => {
                    let ghost m0 = self.peer_cursors@;
                    let ghost ns = names@;
                    let mut i: usize = 0;
                    while i < names.len()
                        invariant
                            i <= ns.len(),
                            ns == names@,
                            self.executors@ == old(self).executors@,
                            self.peer_cursors@ == remove_names(m0, ns.take(i as int)),
                        decreases ns.len() - i,
                    {
                        self.peer_cursors.remove_cursor(&names[i]);
                        proof {
                            assert(ns.take(i as int + 1).drop_last() =~= ns.take(i as int));
                            assert(ns.take(i as int + 1).last() == ns[i as int]);
                        }
                        i = i + 1;
                    }
                    proof {
                        assert(ns.take(ns.len() as int) =~= ns);
                    }
                    let mut v: Vec<SessionResponse> = Vec::new();
                    v.push(SessionResponse::Execution {
                        tag: "CLOSE CURSOR".to_owned(),
                        rows: None,
                    });
                    Ok(v)
                },
            },
        }
    }

    /// The describe flow: resolve the statement's target and ask it for
    /// the output schema without executing anything. A data-definition or
    /// cursor statement always reports no data. Describing takes the
    /// session state read-only: it has no observable side effect.
    pub fn plan_describe(&self, statement: &Statement) -> (r: Result<DescribePlan, NexusError>)
        ensures
            match *statement {
                Statement::PeerDdl { .. } => r == Ok::<DescribePlan, NexusError>(
                    DescribePlan::NoData,
                ),
                Statement::PeerCursor { .. } => r == Ok::<DescribePlan, NexusError>(
                    DescribePlan::NoData,
                ),
                Statement::PeerQuery { stmt: _, assoc: Association::Catalog } => {
                    &&& r matches Ok(DescribePlan::DescribeTarget { target })
                    &&& target is Catalog
                },
                Statement::PeerQuery { stmt: _, assoc: Association::Peer(p) } => match r {
                    Ok(plan) => {
                        &&& plan matches DescribePlan::DescribeTarget { target }
                        &&& resolution_ok(self.executors@, p, Ok(target))
                    },
                    Err(e) => resolution_ok(self.executors@, p, Err(e)),
                },
            },
    {
        match statement {
            Statement::PeerDdl { .. } => Ok(DescribePlan::NoData),
            Statement::PeerCursor { .. } => Ok(DescribePlan::NoData),
            Statement::PeerQuery { stmt: _, assoc } => match assoc {
                Association::Catalog => Ok(DescribePlan::DescribeTarget {
                    target: ExecutionTarget::Catalog,
                }),
                Association::Peer(p) => {
                    let owned = p.clone();
                    match self.resolve_peer(owned) {
                        Ok(target) => Ok(DescribePlan::DescribeTarget { target }),
                        Err(e) => Err(e),
                    }
                },
            },
        }
    }

    /// Close every cursor the session tracks: empty the table, hand back
    /// each closed cursor with its owning peer so the caller can release
    /// its resources there, and acknowledge.
    pub fn close_all_cursors(&mut self) -> (r: (Vec<(String, Peer)>, Vec<SessionResponse>))
        ensures
            final(self).executors@ == old(self).executors@,
            final(self).peer_cursors@ == Map::<Seq<char>, Peer>::empty(),
            forall|n: Seq<char>| #[trigger]
                old(self).peer_cursors@.dom().contains(n) ==> exists|i: int|
                    0 <= i < r.0@.len() && r.0@[i].0@ == n && r.0@[i].1 == old(
                        self,
                    ).peer_cursors@[n],
            forall|i: int|
                0 <= i < r.0@.len() ==> old(self).peer_cursors@.dom().contains(
                    #[trigger] r.0@[i].0@,
                ),
            r.1@.len() == 1 && is_ack(r.1@[0], "CLOSE CURSOR"@, None::<u64>),
    {
        let closed = self.peer_cursors.close_all();
        proof {
            assert forall|n: Seq<char>| #[trigger]
                old(self).peer_cursors@.dom().contains(n) implies exists|i: int|
                0 <= i < closed@.len() && closed@[i].0@ == n && closed@[i].1 == old(
                    self,
                ).peer_cursors@[n] by {
                let i = choose|i: int|
                    0 <= i < closed@.len() && closed@[i].0@ == n && closed@[i].1 == old(
                        self,
                    ).peer_cursors@[n];
                assert(0 <= i < closed@.len() && closed@[i].0@ == n && closed@[i].1 == old(
                    self,
                ).peer_cursors@[n]);
            }
        }
        let mut v: Vec<SessionResponse> = Vec::new();
        v.push(SessionResponse::Execution { tag: "CLOSE CURSOR".to_owned(), rows: None });
        let result = (closed, v);
        proof {
            assert(result.0@ =~= closed@);
        }
        result
    }
}

/// Law: within one session, resolving the executor for one peer name twice
/// yields the identical shared executor. Once the handle constructed on
/// the first resolution is installed under the name, every later
/// resolution finds exactly it — also after executors for other peers are
/// installed — so no duplicate construction is ever planned.
pub proof fn lemma_resolve_twice_same_executor(
    cache: Map<Seq<char>, u64>,
    name: Seq<char>,
    h: u64,
)
    ensures
        cached_handle(cache.insert(name, h), name) == Some(h),
        forall|other: Seq<char>, g: u64|
            other != name ==> cached_handle(cache.insert(name, h).insert(other, g), name) == Some(
                h,
            ),
{
}

/// Law: resolution follows the association. A query associated with a
/// peer goes to that peer's executor and nowhere else: a created and
/// later referenced peer is resolved to itself — never to the catalog,
/// never to another peer — and the only failure is the typed error for a
/// peer whose configuration variant is unsupported and not yet cached.
pub proof fn lemma_resolution_follows_association(
    cache: Map<Seq<char>, u64>,
    p: Peer,
    r: Result<ExecutionTarget, NexusError>,
)
    requires
        resolution_ok(cache, p, r),
    ensures
        match r {
            Ok(ExecutionTarget::CachedPeer { name, handle }) => name@ == p.name@ && cached_handle(
                cache,
                p.name@,
            ) == Some(handle),
            Ok(ExecutionTarget::NewPeer { peer }) => peer == p,
            Ok(ExecutionTarget::Catalog) => false,
            Err(_) => !p.config.spec_supported() && cached_handle(cache, p.name@) is None,
        },
{
}

/// Law: declaring a cursor against a peer and then fetching on that cursor
/// name routes the fetch to that very peer, though the fetch statement
/// carries no peer association of its own.
pub proof fn lemma_fetch_follows_declared_cursor(
    cursors: Map<Seq<char>, Peer>,
    name: Seq<char>,
    p: Peer,
)
    ensures
        cursor_route(cursors.insert(name, p), name) == Some(p),
{
}

/// Law: closing a cursor removes it from the table, and a later fetch on
/// the closed name routes to no peer — the dispatcher then falls back to
/// the catalog executor (the documented choice of this library).
pub proof fn lemma_fetch_after_close_falls_back(cursors: Map<Seq<char>, Peer>, name: Seq<char>)
    ensures
        cursor_route(cursors.remove(name), name) == None::<Peer>,
{
}

/// Law: translating a close output unregisters every closed name — after
/// the removal that the translation's contract states, none of the names
/// routes to a peer any more.
pub proof fn lemma_closed_names_are_gone(
    cursors: Map<Seq<char>, Peer>,
    names: Seq<String>,
    i: int,
)
    requires
        0 <= i < names.len(),
    ensures
        cursor_route(remove_names(cursors, names), names[i]@) == None::<Peer>,
    decreases names.len(),
{
    if i < names.len() - 1 {
        lemma_closed_names_are_gone(cursors, names.drop_last(), i);
        assert(names.drop_last()[i] == names[i]);
    }
}

} // verus!
