use vstd::prelude::*;
use crate::error::CallGraphError;
use crate::log::{entry_outcome, write_log_entry, SinkState};
use crate::symbols::{name_from_frames, name_view, walk_name, SymbolRecord};
use dashmap::{DashMap, DashSet};

verus! {

#[verifier::external_type_specification]
#[verifier::external_body]
#[verifier::reject_recursive_types(K)]
#[verifier::reject_recursive_types(V)]
#[verifier::reject_recursive_types(S)]
pub struct ExDashMap<K, V, S>(DashMap<K, V, S>);

#[verifier::external_type_specification]
#[verifier::external_body]
#[verifier::reject_recursive_types(K)]
#[verifier::reject_recursive_types(S)]
pub struct ExDashSet<K, S>(DashSet<K, S>);

/// What a symbol cache holds: each address seen, with the name it resolved
/// to (or none).
pub uninterp spec fn symbol_entries(m: DashMap<usize, Option<String>>) -> Map<usize, Option<Seq<char>>>;

/// What an edge set holds: each (callee, caller) pair claimed so far.
pub uninterp spec fn edge_entries(s: DashSet<(String, String)>) -> Set<(Seq<char>, Seq<char>)>;

/// Relies on `DashMap::new`: the map starts empty.
#[verifier::external_body]
fn symbol_map_new() -> (r: DashMap<usize, Option<String>>)
    ensures
        symbol_entries(r) =~= Map::empty(),
{
    DashMap::new()
}

/// Relies on `DashMap::get`: the value stored under the key, if any.
#[verifier::external_body]
fn symbol_map_get(m: &DashMap<usize, Option<String>>, pc: usize) -> (r: Option<Option<String>>)
    ensures
        r is Some <==> symbol_entries(*m).contains_key(pc),
        r matches Some(v) ==> name_view(v) == symbol_entries(*m)[pc],
{
    m.get(&pc).map(|e| e.value().clone())
}

/// Relies on `DashMap::insert`: the key now maps to the value, the other
/// entries stay.
#[verifier::external_body]
fn symbol_map_insert(m: &mut DashMap<usize, Option<String>>, pc: usize, name: Option<String>)
    ensures
        symbol_entries(*final(m)) == symbol_entries(*old(m)).insert(pc, name_view(name)),
{
    m.insert(pc, name);
}

/// Relies on `DashMap::len`: the number of entries.
#[verifier::external_body]
fn symbol_map_len(m: &DashMap<usize, Option<String>>) -> (r: usize)
    ensures
        r as nat == symbol_entries(*m).len(),
{
    m.len()
}

/// Relies on `DashSet::new`: the set starts empty.
#[verifier::external_body]
fn edge_set_new() -> (r: DashSet<(String, String)>)
    ensures
        edge_entries(r) =~= Set::empty(),
{
    DashSet::new()
}

/// Relies on `DashSet::insert`: true exactly when the key was absent; the key
/// is present afterwards.
#[verifier::external_body]
fn edge_set_insert(s: &mut DashSet<(String, String)>, edge: (String, String)) -> (r: bool)
    ensures
        r == !edge_entries(*old(s)).contains((edge.0@, edge.1@)),
        edge_entries(*final(s)) == edge_entries(*old(s)).insert((edge.0@, edge.1@)),
{
    s.insert(edge)
}

/// Relies on `DashSet::contains`: whether the key is present.
#[verifier::external_body]
fn edge_set_contains(s: &DashSet<(String, String)>, edge: &(String, String)) -> (r: bool)
    ensures
        r == edge_entries(*s).contains((edge.0@, edge.1@)),
{
    s.contains(edge)
}

/// Relies on `DashSet::len`: the number of keys.
#[verifier::external_body]
fn edge_set_len(s: &DashSet<(String, String)>) -> (r: usize)
    ensures
        r as nat == edge_entries(*s).len(),
{
    s.len()
}

/// The shared state of the recorder: the symbol cache, keyed by address, and
/// the set of call edges already logged. Both only ever grow.
pub struct CallGraph {
    symbols: DashMap<usize, Option<String>>,
    seen: DashSet<(String, String)>,
}

impl CallGraph {
    /// The cached resolution of each address seen.
    pub closed spec fn symbol_cache(&self) -> Map<usize, Option<Seq<char>>> {
        symbol_entries(self.symbols)
    }

    /// The (callee, caller) name pairs already claimed.
    pub closed spec fn seen_edges(&self) -> Set<(Seq<char>, Seq<char>)> {
        edge_entries(self.seen)
    }

    /// Both stores are finite, so their sizes are counts.
    pub open spec fn wf(&self) -> bool {
        &&& self.symbol_cache().dom().finite()
        &&& self.seen_edges().finite()
    }

    /// An empty recorder.
    pub fn new() -> (r: CallGraph)
        ensures
            r.symbol_cache() == Map::<usize, Option<Seq<char>>>::empty(),
            r.seen_edges() == Set::<(Seq<char>, Seq<char>)>::empty(),
            r.wf(),
    {
        CallGraph { symbols: symbol_map_new(), seen: edge_set_new() }
    }

    /// The cached resolution of an address: `None` when it was never
    /// resolved, `Some(name)` (the name possibly absent) when it was.
    pub fn cached_symbol(&self, pc: usize) -> (r: Option<Option<String>>)
        ensures
            r is Some <==> self.symbol_cache().contains_key(pc),
            r matches Some(v) ==> name_view(v) == self.symbol_cache()[pc],
    {
        symbol_map_get(&self.symbols, pc)
    }

    /// Resolves an address from the frames the symbol walk reported for it
    /// and caches the result, a missing name included.
    pub fn resolve_from_frames(&mut self, pc: usize, frames: &Vec<SymbolRecord>) -> (r: Option<String>)
        requires
            old(self).wf(),
        ensures
            final(self).wf(),
            name_view(r) == walk_name(frames@),
            final(self).symbol_cache() == old(self).symbol_cache().insert(pc, name_view(r)),
            final(self).seen_edges() == old(self).seen_edges(),
    {
        let name = name_from_frames(frames);
        let stored = name.clone();
        symbol_map_insert(&mut self.symbols, pc, stored);
        name
    }

    /// Number of addresses in the symbol cache.
    pub fn symbol_count(&self) -> (r: usize)
        ensures
            r as nat == self.symbol_cache().len(),
    {
        symbol_map_len(&self.symbols)
    }

    /// Claims an edge: true exactly when no one claimed it before, in which
    /// case this caller is the one to log it.
    pub fn try_claim(&mut self, callee: String, caller: String) -> (r: bool)
        requires
            old(self).wf(),
        ensures
            final(self).wf(),
            final(self).seen_edges().len() == old(self).seen_edges().len() + if r { 1int } else { 0int },
            r == !old(self).seen_edges().contains((callee@, caller@)),
            final(self).seen_edges() == old(self).seen_edges().insert((callee@, caller@)),
            final(self).symbol_cache() == old(self).symbol_cache(),
    {
        edge_set_insert(&mut self.seen, (callee, caller))
    }

    /// Whether an edge was claimed already.
    pub fn is_claimed(&self, callee: &String, caller: &String) -> (r: bool)
        ensures
            r == self.seen_edges().contains((callee@, caller@)),
    {
        let edge = (callee.clone(), caller.clone());
        edge_set_contains(&self.seen, &edge)
    }

    /// Number of edges claimed.
    pub fn edge_count(&self) -> (r: usize)
        ensures
            r as nat == self.seen_edges().len(),
    {
        edge_set_len(&self.seen)
    }
}


impl CallGraph {
    /// Records one call once both ends are resolved: when either name is
    /// missing nothing happens; otherwise the edge is claimed, and only the
    /// first claim yields the log line to write, or the error the sink gives.
    /// The claim stands even when the write fails, so an edge is never logged
    /// twice.
    pub fn record_call(
        &mut self,
        tid: i64,
        callee: Option<String>,
        caller: Option<String>,
        sink: SinkState,
    ) -> (r: Result<Option<String>, CallGraphError>)
        requires
            old(self).wf(),
        ensures
            final(self).wf(),
            old(self).seen_edges().subset_of(final(self).seen_edges()),
            final(self).seen_edges().len() <= old(self).seen_edges().len() + 1,
            final(self).symbol_cache() == old(self).symbol_cache(),
            match (callee, caller) {
                (Some(a), Some(b)) => {
                    &&& final(self).seen_edges() == old(self).seen_edges().insert((a@, b@))
                    &&& if old(self).seen_edges().contains((a@, b@)) {
                        r matches Ok(None)
                    } else {
                        match (r, entry_outcome(sink, tid, a@, b@)) {
                            (Ok(Some(line)), Ok(text)) => line@ == text,
                            (Err(e), Err(f)) => e == f,
                            _ => false,
                        }
                    }
                },
                _ => {
                    &&& r matches Ok(None)
                    &&& final(self).seen_edges() == old(self).seen_edges()
                },
            },
    {
        match (callee, caller) {
            (Some(a), Some(b)) => {
                let claimed = self.try_claim(a.clone(), b.clone());
                if !claimed {
                    return Ok(None);
                }
                match write_log_entry(sink, tid, a.as_str(), b.as_str()) {
                    Ok(line) => Ok(Some(line)),
                    Err(e) => Err(e),
                }
            },
            _ => Ok(None),
        }
    }
}

/// How many of `n` successive claims of one edge succeed, starting from the
/// set `seen`, each claim behaving as `try_claim` does.
pub open spec fn claims_won(seen: Set<(Seq<char>, Seq<char>)>, edge: (Seq<char>, Seq<char>), n: nat) -> nat
    decreases n,
{
    if n == 0 {
        0
    } else {
        (if seen.contains(edge) { 0nat } else { 1nat }) + claims_won(seen.insert(edge), edge, (n - 1) as nat)
    }
}

/// However many times one edge is claimed, at most one claim wins, and
/// exactly one when the edge was new and it was claimed at all: the edge is
/// logged once.
pub proof fn lemma_edge_claimed_once(seen: Set<(Seq<char>, Seq<char>)>, edge: (Seq<char>, Seq<char>), n: nat)
    ensures
        claims_won(seen, edge, n) <= 1,
        seen.contains(edge) ==> claims_won(seen, edge, n) == 0,
        !seen.contains(edge) && n > 0 ==> claims_won(seen, edge, n) == 1,
    decreases n,
{
    if n > 0 {
        lemma_edge_claimed_once(seen.insert(edge), edge, (n - 1) as nat);
        if seen.contains(edge) {
            assert(seen.insert(edge) =~= seen);
        }
    }
}

/// Once an address is resolved, a later lookup of it is a cache hit that
/// gives the same name, so the symbol walk is not run a second time; and
/// resolving another address afterwards keeps that entry.
pub proof fn lemma_resolution_cached(
    before: CallGraph,
    after: CallGraph,
    later: CallGraph,
    pc: usize,
    frames: Seq<SymbolRecord>,
    other: usize,
    other_frames: Seq<SymbolRecord>,
)
    requires
        after.symbol_cache() == before.symbol_cache().insert(pc, walk_name(frames)),
        later.symbol_cache() == after.symbol_cache().insert(other, walk_name(other_frames)),
        other != pc,
    ensures
        after.symbol_cache().contains_key(pc),
        after.symbol_cache()[pc] == walk_name(frames),
        later.symbol_cache().contains_key(pc),
        later.symbol_cache()[pc] == walk_name(frames),
{
}

} // verus!
