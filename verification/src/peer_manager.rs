//! Connection bookkeeping for the peers of a bitswap node.
//!
//! Peers and connections are named by integer identifiers; the table maps
//! each known peer to what is known of its connections.
use vstd::prelude::*;
use ahash::{AHashMap, AHashSet};
use std::time::Instant;
use crate::hashed::{
    id_set, id_set_clone, id_set_insert, id_set_is_empty, id_set_remove, id_set_single,
};
use crate::protocol::ProtocolId;

verus! {

#[verifier::external_type_specification]
#[verifier::external_body]
pub struct ExInstant(Instant);

/// `Instant::now`: the current time. Nothing about the value is promised.
#[verifier::external_body]
fn instant_now() -> (r: Instant) {
    Instant::now()
}

/// What is known of a peer.
#[derive(Debug, PartialEq, Eq)]
pub enum PeerState {
    /// Connected over these connections, but not yet known to speak bitswap.
    Connected(AHashSet<u64>),
    /// Connected over these connections and speaking this protocol version.
    Responsive(AHashSet<u64>, ProtocolId),
    Disconnected,
    /// The last dial of the peer failed, at this time.
    DialFailure(Instant),
}

/// A report about a peer.
#[derive(Debug, Clone, Copy, PartialEq, Eq)]
pub enum PeerStateChange {
    /// A connection with this identifier was established.
    Connected(u64),
    /// The peer answered on the bitswap protocol, possibly over a new connection.
    Responsive(Option<u64>, ProtocolId),
    Unresponsive,
    /// The connection with this identifier was closed.
    Disconnected(u64),
    DialFailure,
}

/// What the node should do about a peer after a report.
#[derive(Debug, Clone, Copy, PartialEq, Eq)]
pub enum PeerAction {
    Connected,
    Disconnected,
}

/// What is known of a peer, as a value.
pub enum PeerStateModel {
    Connected(Set<u64>),
    Responsive(Set<u64>, ProtocolId),
    Disconnected,
    DialFailure(Instant),
}

/// The value of a peer state.
pub open spec fn model(s: PeerState) -> PeerStateModel {
    match s {
        PeerState::Connected(ids) => PeerStateModel::Connected(id_set(ids)),
        PeerState::Responsive(ids, p) => PeerStateModel::Responsive(id_set(ids), p),
        PeerState::Disconnected => PeerStateModel::Disconnected,
        PeerState::DialFailure(t) => PeerStateModel::DialFailure(t),
    }
}

pub open spec fn model_opt(s: Option<PeerState>) -> Option<PeerStateModel> {
    match s {
        Some(s) => Some(model(s)),
        None => None,
    }
}

/// A peer with at least one open connection.
pub open spec fn is_connected(m: PeerStateModel) -> bool {
    m is Connected || m is Responsive
}

pub open spec fn add_opt(ids: Set<u64>, id: Option<u64>) -> Set<u64> {
    match id {
        Some(id) => ids.insert(id),
        None => ids,
    }
}

/// The state of a peer after a report, and the action it calls for, given
/// the state before (`None` for an unknown peer) and the time `now` at which
/// the report is handled.
pub open spec fn transition(old: Option<PeerStateModel>, change: PeerStateChange, now: Instant) -> (
    Option<PeerStateModel>,
    Option<PeerAction>,
) {
    match old {
        Some(s) => match change {
            PeerStateChange::DialFailure | PeerStateChange::Unresponsive => (
                Some(s),
                if is_connected(s) {
                    Some(PeerAction::Disconnected)
                } else {
                    None
                },
            ),
            PeerStateChange::Disconnected(id) => match s {
                PeerStateModel::Connected(ids) => if ids.remove(id).is_empty() {
                    (None, Some(PeerAction::Disconnected))
                } else {
                    (Some(PeerStateModel::Connected(ids.remove(id))), None)
                },
                PeerStateModel::Responsive(ids, p) => if ids.remove(id).is_empty() {
                    (None, Some(PeerAction::Disconnected))
                } else {
                    (Some(PeerStateModel::Responsive(ids.remove(id), p)), None)
                },
                _ => (Some(s), None),
            },
            PeerStateChange::Connected(id) => match s {
                PeerStateModel::Connected(ids) => (Some(PeerStateModel::Connected(ids.insert(id))), None),
                PeerStateModel::Responsive(ids, p) => (
                    Some(PeerStateModel::Responsive(ids.insert(id), p)),
                    None,
                ),
                _ => (Some(PeerStateModel::Connected(set![id])), None),
            },
            PeerStateChange::Responsive(id, p) => match s {
                PeerStateModel::Connected(ids) => (
                    Some(PeerStateModel::Responsive(add_opt(ids, id), p)),
                    Some(PeerAction::Connected),
                ),
                PeerStateModel::Responsive(ids, _) => (
                    Some(PeerStateModel::Responsive(add_opt(ids, id), p)),
                    None,
                ),
                _ => match id {
                    Some(id) => (
                        Some(PeerStateModel::Responsive(set![id], p)),
                        Some(PeerAction::Connected),
                    ),
                    None => (Some(s), None),
                },
            },
        },
        None => match change {
            PeerStateChange::DialFailure => (Some(PeerStateModel::DialFailure(now)), None),
            PeerStateChange::Connected(id) => (Some(PeerStateModel::Connected(set![id])), None),
            PeerStateChange::Responsive(Some(id), p) => (
                Some(PeerStateModel::Responsive(set![id], p)),
                Some(PeerAction::Connected),
            ),
            _ => (None, None),
        },
    }
}

/// The table after a peer's entry becomes `new` (`None`: the entry is dropped).
pub open spec fn update(
    table: Map<u64, PeerStateModel>,
    peer: u64,
    new: Option<PeerStateModel>,
) -> Map<u64, PeerStateModel> {
    match new {
        Some(m) => table.insert(peer, m),
        None => table.remove(peer),
    }
}

/// A state that the table may hold: a connected peer has a connection, and
/// a peer without state is not kept.
pub open spec fn stored_state_ok(m: PeerStateModel) -> bool {
    match m {
        PeerStateModel::Connected(ids) => ids.finite() && !ids.is_empty(),
        PeerStateModel::Responsive(ids, _) => ids.finite() && !ids.is_empty(),
        PeerStateModel::Disconnected => false,
        PeerStateModel::DialFailure(_) => true,
    }
}

/// The table of known peers, keyed by peer identifier.
pub type PeerTable = AHashMap<u64, PeerState>;

/// The peer table, with the contract of each `ahash` method called on it.
pub uninterp spec fn peer_table(m: AHashMap<u64, PeerState>) -> Map<u64, PeerState>;

/// `AHashMap::new`: an empty table.
#[verifier::external_body]
fn peer_map_new() -> (r: PeerTable)
    ensures
        peer_table(r).dom() == Set::<u64>::empty(),
{
    AHashMap::new()
}

/// `AHashMap::remove`: takes the entry of `k` out of the table.
#[verifier::external_body]
fn peer_map_remove(m: &mut AHashMap<u64, PeerState>, k: u64) -> (r: Option<PeerState>)
    ensures
        peer_table(*final(m)) == peer_table(*old(m)).remove(k),
        r == peer_table(*old(m)).get(k),
{
    m.remove(&k)
}

/// `AHashMap::insert`: sets the entry of `k`.
#[verifier::external_body]
fn peer_map_insert(m: &mut AHashMap<u64, PeerState>, k: u64, v: PeerState) -> (r: Option<PeerState>)
    ensures
        peer_table(*final(m)) == peer_table(*old(m)).insert(k, v),
        r == peer_table(*old(m)).get(k),
{
    m.insert(k, v)
}

/// `AHashMap::get`: the entry of `k`.
#[verifier::external_body]
fn peer_map_get(m: &AHashMap<u64, PeerState>, k: u64) -> (r: Option<&PeerState>)
    ensures
        r is Some <==> peer_table(*m).contains_key(k),
        r matches Some(v) ==> *v == peer_table(*m)[k],
{
    m.get(&k)
}

impl PeerState {
    /// A copy of this state.
    pub fn clone_state(&self) -> (r: PeerState)
        ensures
            model(r) == model(*self),
    {
        match self {
        PeerState::Connected(ids) => PeerState::Connected(id_set_clone(ids)),
        PeerState::Responsive(ids, p) => PeerState::Responsive(id_set_clone(ids), *p),
        PeerState::Disconnected => PeerState::Disconnected,
        PeerState::DialFailure(t) => PeerState::DialFailure(*t),
        }
    }
}

impl Default for PeerState {
    /// A peer of which nothing is known.
    fn default() -> (r: Self)
        ensures
            r is Disconnected,
    {
        PeerState::Disconnected
    }
}

impl Clone for PeerState {
    fn clone(&self) -> (r: Self)
        ensures
            model(r) == model(*self),
    {
        self.clone_state()
    }
}

impl PeerState {
    /// The peer has at least one open connection.
    fn is_connected(&self) -> (r: bool)
        ensures
            r == is_connected(model(*self)),
    {
        match self {
            PeerState::Connected(_) | PeerState::Responsive(_, _) => true,
            _ => false,
        }
    }
}

/// `Clone::clone` of `AHashMap` (derived): a table with a clone of each
/// state, under the same key; the clone of a state is `PeerState::clone`,
/// which keeps its value.
#[verifier::external_body]
fn peer_map_clone(m: &AHashMap<u64, PeerState>) -> (r: PeerTable)
    ensures
        peer_table(r).map_values(|s: PeerState| model(s)) == peer_table(*m).map_values(
            |s: PeerState| model(s),
        ),
{
    m.clone()
}

/// The state of every known peer.
pub struct PeerManager {
    peers: AHashMap<u64, PeerState>,
}

impl PeerManager {
    /// The known peers and their states.
    pub closed spec fn view(&self) -> Map<u64, PeerStateModel> {
        peer_table(self.peers).map_values(|s: PeerState| model(s))
    }

    /// Every stored state is one that the table may hold.
    pub closed spec fn wf(&self) -> bool {
        forall|k: u64| #[trigger] self.view().contains_key(k) ==> stored_state_ok(self.view()[k])
    }

    /// A manager that knows no peer.
    pub fn new() -> (r: Self)
        ensures
            r.wf(),
            r.view() == Map::<u64, PeerStateModel>::empty(),
    {
        let r = PeerManager { peers: peer_map_new() };
        assert(r.view() =~= Map::<u64, PeerStateModel>::empty());
        r
    }

    /// What is known of `peer`, if anything.
    pub fn get_peer_state(&self, peer: u64) -> (r: Option<PeerState>)
        ensures
            model_opt(r) == self.view().get(peer),
    {
        match peer_map_get(&self.peers, peer) {
            Some(s) => Some(s.clone_state()),
            None => None,
        }
    }

    /// Records a report about `peer` and says what it calls for.
    pub fn set_peer_state(&mut self, peer: u64, new_state: PeerStateChange) -> (r: Option<PeerAction>)
        requires
            old(self).wf(),
        ensures
            final(self).wf(),
            exists|now: Instant|
                {
                    let (new, action) = #[trigger] transition(old(self).view().get(peer), new_state, now);
                    r == action && final(self).view() == update(old(self).view(), peer, new)
                },
    {
        let ghost old_view = self.view();
        let old_entry = peer_map_remove(&mut self.peers, peer);
        let ghost t0: Instant = arbitrary();
        let ghost mut now: Instant = t0;
        let (new_entry, action): (Option<PeerState>, Option<PeerAction>) = match old_entry {
            Some(state) => {
                let connected = state.is_connected();
                match new_state {
                    PeerStateChange::DialFailure | PeerStateChange::Unresponsive => {
                        if connected {
                            (Some(state), Some(PeerAction::Disconnected))
                        } else {
                            (Some(state), None)
                        }
                    },
                    PeerStateChange::Disconnected(id) => match state {
                        PeerState::Connected(mut ids) => {
                            id_set_remove(&mut ids, id);
                            if id_set_is_empty(&ids) {
                                (None, Some(PeerAction::Disconnected))
                            } else {
                                (Some(PeerState::Connected(ids)), None)
                            }
                        },
                        PeerState::Responsive(mut ids, p) => {
                            id_set_remove(&mut ids, id);
                            if id_set_is_empty(&ids) {
                                (None, Some(PeerAction::Disconnected))
                            } else {
                                (Some(PeerState::Responsive(ids, p)), None)
                            }
                        },
                        other => (Some(other), None),
                    },
                    PeerStateChange::Connected(id) => match state {
                        PeerState::Connected(mut ids) => {
                            id_set_insert(&mut ids, id);
                            (Some(PeerState::Connected(ids)), None)
                        },
                        PeerState::Responsive(mut ids, p) => {
                            id_set_insert(&mut ids, id);
                            (Some(PeerState::Responsive(ids, p)), None)
                        },
                        _ => (Some(PeerState::Connected(id_set_single(id))), None),
                    },
                    PeerStateChange::Responsive(id, new_protocol) => match state {
                        PeerState::Connected(mut ids) => {
                            if let Some(id) = id {
                                id_set_insert(&mut ids, id);
                            }
                            (Some(PeerState::Responsive(ids, new_protocol)), Some(PeerAction::Connected))
                        },
                        PeerState::Responsive(mut ids, _) => {
                            if let Some(id) = id {
                                id_set_insert(&mut ids, id);
                            }
                            (Some(PeerState::Responsive(ids, new_protocol)), None)
                        },
                        other => match id {
                            Some(id) => (
                                Some(PeerState::Responsive(id_set_single(id), new_protocol)),
                                Some(PeerAction::Connected),
                            ),
                            None => (Some(other), None),
                        },
                    },
                }
            },
            None => match new_state {
                PeerStateChange::DialFailure => {
                    let t = instant_now();
                    proof {
                        now = t;
                    }
                    (Some(PeerState::DialFailure(t)), None)
                },
                PeerStateChange::Unresponsive | PeerStateChange::Disconnected(_) => (None, None),
                PeerStateChange::Connected(id) => (Some(PeerState::Connected(id_set_single(id))), None),
                PeerStateChange::Responsive(id, protocol) => match id {
                    Some(id) => (
                        Some(PeerState::Responsive(id_set_single(id), protocol)),
                        Some(PeerAction::Connected),
                    ),
                    None => (None, None),
                },
            },
        };
        let ghost expected = transition(old_view.get(peer), new_state, now);
        assert(model_opt(new_entry) == expected.0 && action == expected.1);
        match new_entry {
            Some(s) => {
                peer_map_insert(&mut self.peers, peer, s);
            },
            None => {},
        }
        assert(self.view() =~= update(old_view, peer, expected.0));
        action
    }
}

impl Default for PeerManager {
    /// A manager that knows no peer.
    fn default() -> (r: Self)
        ensures
            r.wf(),
            r.view() == Map::<u64, PeerStateModel>::empty(),
    {
        PeerManager::new()
    }
}

impl Clone for PeerManager {
    /// A manager that knows the same peers in the same states.
    fn clone(&self) -> (r: Self)
        ensures
            r.view() == self.view(),
    {
        PeerManager { peers: peer_map_clone(&self.peers) }
    }
}

/// However a manager was reached from a new one by reports, every peer that
/// it keeps is either connected, over a non-empty set of connections, or
/// failed to dial: a peer whose last connection closed is forgotten, and no
/// peer is kept as disconnected.
pub proof fn lemma_stored_states(pm: &PeerManager, peer: u64)
    requires
        pm.wf(),
    ensures
        pm.view().contains_key(peer) ==> stored_state_ok(pm.view()[peer]),
        pm.view().contains_key(peer) ==> !(pm.view()[peer] is Disconnected),
        pm.view().contains_key(peer) ==> match pm.view()[peer] {
            PeerStateModel::Connected(ids) => !ids.is_empty(),
            PeerStateModel::Responsive(ids, _) => !ids.is_empty(),
            _ => true,
        },
{
}

/// A peer is reported as connected exactly when it becomes responsive: it
/// speaks bitswap after the report and did not before.
pub proof fn lemma_connected_iff_becomes_responsive(
    old: Option<PeerStateModel>,
    change: PeerStateChange,
    now: Instant,
)
    requires
        old matches Some(m) ==> stored_state_ok(m),
    ensures
        ({
            let (new, action) = transition(old, change, now);
            action == Some(PeerAction::Connected) <==> (new matches Some(n) && n is Responsive
                && !(old matches Some(o) && o is Responsive))
        }),
{
}

/// A report of a new connection never calls for an action, and leaves the
/// peer connected over that connection.
pub proof fn lemma_new_connection_is_quiet(old: Option<PeerStateModel>, id: u64, now: Instant)
    requires
        old matches Some(m) ==> stored_state_ok(m),
    ensures
        ({
            let (new, action) = transition(old, PeerStateChange::Connected(id), now);
            &&& action is None
            &&& new matches Some(n) && is_connected(n)
            &&& match new {
                Some(PeerStateModel::Connected(ids)) => ids.contains(id),
                Some(PeerStateModel::Responsive(ids, _)) => ids.contains(id),
                _ => false,
            }
        }),
{
}

/// Closing a connection removes it; closing the last one forgets the peer and
/// reports it as disconnected, closing any other one reports nothing.
pub proof fn lemma_closing_a_connection(old: Option<PeerStateModel>, id: u64, now: Instant)
    requires
        old matches Some(m) ==> stored_state_ok(m),
    ensures
        ({
            let (new, action) = transition(old, PeerStateChange::Disconnected(id), now);
            &&& match new {
                Some(PeerStateModel::Connected(ids)) => !ids.contains(id),
                Some(PeerStateModel::Responsive(ids, _)) => !ids.contains(id),
                _ => true,
            }
            &&& (action == Some(PeerAction::Disconnected) <==> (old matches Some(o) && is_connected(
                o,
            ) && new is None))
            &&& action != Some(PeerAction::Connected)
        }),
{
}

/// Reports of failure, unresponsiveness or closed connections about a peer
/// that is not known are ignored, but for a failed dial, which is recorded.
pub proof fn lemma_unknown_peer(change: PeerStateChange, now: Instant)
    ensures
        ({
            let (new, action) = transition(None, change, now);
            &&& (change is Unresponsive || change is Disconnected) ==> new is None && action is None
            &&& change is DialFailure ==> new == Some(PeerStateModel::DialFailure(now))
                && action is None
        }),
{
}

/// A report that a known peer turned unresponsive or failed a dial leaves
/// its state as it was, and calls for a disconnect exactly when the peer has
/// an open connection, whether it speaks bitswap yet or not; it never calls
/// for a connect.
pub proof fn lemma_failure_disconnects_connected_peers(
    s: PeerStateModel,
    change: PeerStateChange,
    now: Instant,
)
    requires
        change is Unresponsive || change is DialFailure,
    ensures
        ({
            let (new, action) = transition(Some(s), change, now);
            &&& new == Some(s)
            &&& (action == Some(PeerAction::Disconnected) <==> (s is Connected || s is Responsive))
            &&& action != Some(PeerAction::Connected)
        }),
{
}

/// A report that a known peer speaks bitswap over a protocol leaves it
/// responsive over that protocol, with the connection reported added to those
/// it had; from a peer that had no connection and no connection reported,
/// nothing changes.
pub proof fn lemma_responsive_report(s: PeerStateModel, id: Option<u64>, p: ProtocolId, now: Instant)
    ensures
        ({
            let (new, action) = transition(Some(s), PeerStateChange::Responsive(id, p), now);
            match s {
                PeerStateModel::Connected(ids) | PeerStateModel::Responsive(ids, _) => new == Some(
                    PeerStateModel::Responsive(
                        match id {
                            Some(i) => ids.insert(i),
                            None => ids,
                        },
                        p,
                    ),
                ),
                _ => match id {
                    Some(i) => new == Some(PeerStateModel::Responsive(set![i], p)),
                    None => new == Some(s) && action is None,
                },
            }
        }),
{
}

/// Every state that a report leads to is one that the table may hold.
pub proof fn lemma_transition_keeps_states_valid(
    old: Option<PeerStateModel>,
    change: PeerStateChange,
    now: Instant,
)
    requires
        old matches Some(m) ==> stored_state_ok(m),
    ensures
        transition(old, change, now).0 matches Some(n) ==> stored_state_ok(n),
{
}

} // verus!
