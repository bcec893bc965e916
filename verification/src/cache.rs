//! The session's executor cache: memoizes the executor handle constructed
//! for each peer name, so that resolving the same peer twice re-uses the
//! connection instead of opening a new one. Backed by a concurrent map so
//! that lookups for different peers do not block each other.
//!
//! Executors themselves live outside the library (constructing one opens a
//! connection to an external system); the cache stores the opaque handle
//! under which the caller tracks the constructed executor.

use vstd::prelude::*;

verus! {

/// dashmap::DashMap, the concurrent map behind the cache, declared so it
/// can stand in fields and signatures; its contents are reached only
/// through the wrappers below.
#[verifier::external_type_specification]
#[verifier::external_body]
#[verifier::reject_recursive_types(K)]
#[verifier::reject_recursive_types(V)]
#[verifier::reject_recursive_types(S)]
pub struct ExDashMap<K, V, S>(dashmap::DashMap<K, V, S>);

/// What a dashmap::DashMap of the cache's shape holds: each peer name
/// bound to the handle of the executor cached for it.
pub uninterp spec fn dash_contents(m: dashmap::DashMap<String, u64>) -> Map<Seq<char>, u64>;

/// The contents of a map that holds nothing.
pub open spec fn no_contents() -> Map<Seq<char>, u64> {
    Map::empty()
}

/// Relies on dashmap::DashMap::new: a freshly created map holds nothing.
#[verifier::external_body]
fn dash_new() -> (r: dashmap::DashMap<String, u64>)
    ensures
        dash_contents(r) == no_contents(),
{
    dashmap::DashMap::new()
}

/// Relies on dashmap::DashMap::get: returns the value bound to the key, if
/// any; the map is not changed.
#[verifier::external_body]
fn dash_get(m: &dashmap::DashMap<String, u64>, k: &String) -> (r: Option<u64>)
    ensures
        r == if dash_contents(*m).dom().contains(k@) {
            Some(dash_contents(*m)[k@])
        } else {
            None::<u64>
        },
{
    m.get(k).map(|entry| *entry.value())
}

/// Relies on dashmap::DashMap::insert: binds the value to the key,
/// replacing any previous binding for it and leaving other keys untouched.
#[verifier::external_body]
fn dash_insert(m: &mut dashmap::DashMap<String, u64>, k: String, v: u64)
    ensures
        dash_contents(*final(m)) == dash_contents(*old(m)).insert(k@, v),
{
    m.insert(k, v);
}

/// Per-session executor cache: peer name to executor handle.
pub struct ExecutorCache {
    map: dashmap::DashMap<String, u64>,
}

impl View for ExecutorCache {
    type V = Map<Seq<char>, u64>;

    closed spec fn view(&self) -> Map<Seq<char>, u64> {
        dash_contents(self.map)
    }
}

impl ExecutorCache {
    /// An empty cache: no executor has been constructed yet.
    pub fn new() -> (r: ExecutorCache)
        ensures
            r@ == Map::<Seq<char>, u64>::empty(),
    {
        ExecutorCache { map: dash_new() }
    }

    /// The handle cached for `name`, if an executor was installed for it.
    /// Looking up never changes the cache.
    pub fn lookup(&self, name: &String) -> (r: Option<u64>)
        ensures
            r == if self@.dom().contains(name@) {
                Some(self@[name@])
            } else {
                None::<u64>
            },
    {
        dash_get(&self.map, name)
    }

    /// Remember `handle` as the executor for `name`. Called only after a
    /// construction succeeded, so a failed construction is never memoized
    /// and a later request can retry.
    pub fn install(&mut self, name: String, handle: u64)
        ensures
            final(self)@ == old(self)@.insert(name@, handle),
    {
        dash_insert(&mut self.map, name, handle)
    }
}

} // verus!
