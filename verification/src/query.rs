//! The outstanding queries of a bitswap node: blocks that it wants, wants
//! that it cancels, and blocks that it sends, with the peers each went to.
//!
//! Content identifiers, peers and peer addresses are named by integer
//! identifiers.
use vstd::prelude::*;
use ahash::{AHashMap, AHashSet};
use crate::hashed::{
    id_set, id_set_clone, id_set_contains, id_set_insert, id_set_is_empty, id_set_remove,
    id_set_single,
};

verus! {

/// Identifies a query of a [`QueryManager`].
#[derive(Debug, Clone, Copy, PartialEq, Eq, Hash)]
pub struct QueryId(pub usize);

/// A block: its content identifier and its data.
#[derive(Debug, PartialEq, Eq)]
pub struct Block {
    pub cid: u64,
    pub data: Vec<u8>,
}

/// Where a query stands: not sent yet, or sent to these peers.
#[derive(Debug)]
pub enum State {
    New,
    Sent(AHashSet<u64>),
}

#[derive(Debug)]
pub enum Query {
    /// Fetch a single block.
    Want { cid: u64, priority: u32, state: State },
    /// Cancel the want of a single block with these peers.
    Cancel { cid: u64, state: State, receivers: AHashSet<u64> },
    /// Send a single block to a peer, with that peer's addresses.
    Send { receiver: (u64, Vec<u64>), block: Block, state: State },
}

/// Where a query stands, as a value.
pub enum StateModel {
    New,
    Sent(Set<u64>),
}

/// A query, as a value.
pub enum QueryModel {
    Want { cid: u64, priority: u32, state: StateModel },
    Cancel { cid: u64, state: StateModel, receivers: Set<u64> },
    Send { receiver: u64, addrs: Seq<u64>, cid: u64, data: Seq<u8>, state: StateModel },
}

pub open spec fn state_model(s: State) -> StateModel {
    match s {
        State::New => StateModel::New,
        State::Sent(p) => StateModel::Sent(id_set(p)),
    }
}

pub open spec fn query_model(q: Query) -> QueryModel {
    match q {
        Query::Want { cid, priority, state } => QueryModel::Want {
            cid,
            priority,
            state: state_model(state),
        },
        Query::Cancel { cid, state, receivers } => QueryModel::Cancel {
            cid,
            state: state_model(state),
            receivers: id_set(receivers),
        },
        Query::Send { receiver, block, state } => QueryModel::Send {
            receiver: receiver.0,
            addrs: receiver.1@,
            cid: block.cid,
            data: block.data@,
            state: state_model(state),
        },
    }
}

pub open spec fn state_of(q: QueryModel) -> StateModel {
    match q {
        QueryModel::Want { state, .. } => state,
        QueryModel::Cancel { state, .. } => state,
        QueryModel::Send { state, .. } => state,
    }
}

/// Whether `peer` is involved in a query: it was sent to the peer, or it is a
/// send to the peer.
pub open spec fn involves(q: QueryModel, peer: u64) -> bool {
    (state_of(q) matches StateModel::Sent(p) && p.contains(peer)) || (q matches QueryModel::Send {
        receiver,
        ..
    } && receiver == peer)
}

/// A state without `peer` among the peers that it was sent to.
pub open spec fn state_without(s: StateModel, peer: u64) -> StateModel {
    match s {
        StateModel::New => StateModel::New,
        StateModel::Sent(p) => StateModel::Sent(p.remove(peer)),
    }
}

/// A query after `peer` went away: it no longer counts as sent to that peer.
pub open spec fn without_peer(q: QueryModel, peer: u64) -> QueryModel {
    match q {
        QueryModel::Want { cid, priority, state } => QueryModel::Want {
            cid,
            priority,
            state: state_without(state, peer),
        },
        QueryModel::Cancel { cid, state, receivers } => QueryModel::Cancel {
            cid,
            state: state_without(state, peer),
            receivers,
        },
        QueryModel::Send { receiver, addrs, cid, data, state } => QueryModel::Send {
            receiver,
            addrs,
            cid,
            data,
            state: state_without(state, peer),
        },
    }
}

/// The providers known for content, by content identifier.
pub type ProviderTable = AHashMap<u64, Vec<u64>>;

/// The providers of each content identifier, with the contract of the `ahash`
/// method called on the table.
pub uninterp spec fn provider_table(m: ProviderTable) -> Map<u64, Vec<u64>>;

/// `AHashMap::get`: the providers of `cid`.
#[verifier::external_body]
fn providers_get(m: &ProviderTable, cid: u64) -> (r: Option<&Vec<u64>>)
    ensures
        r is Some <==> provider_table(*m).contains_key(cid),
        r matches Some(v) ==> *v == provider_table(*m)[cid],
{
    m.get(&cid)
}

/// The providers of each content identifier, as values.
pub open spec fn providers_view(m: ProviderTable) -> Map<u64, Seq<u64>> {
    provider_table(m).map_values(|v: Vec<u64>| v@)
}

/// Some provider of `cid` is known.
pub open spec fn has_providers(prov: Map<u64, Seq<u64>>, cid: u64) -> bool {
    prov.contains_key(cid) && prov[cid].len() > 0
}

/// `peer` is a known provider of `cid`.
pub open spec fn is_provider(prov: Map<u64, Seq<u64>>, cid: u64, peer: u64) -> bool {
    prov.contains_key(cid) && prov[cid].contains(peer)
}

/// A query that is over: a want that has no provider left, or a send or a
/// cancel that was sent and of which no peer is left.
pub open spec fn finished(q: QueryModel, prov: Map<u64, Seq<u64>>) -> bool {
    match q {
        QueryModel::Want { cid, state, .. } => match state {
            StateModel::New => !has_providers(prov, cid),
            StateModel::Sent(p) => p.is_empty() && !has_providers(prov, cid),
        },
        QueryModel::Cancel { state, .. } => state matches StateModel::Sent(p) && p.is_empty(),
        QueryModel::Send { state, .. } => state matches StateModel::Sent(p) && p.is_empty(),
    }
}

/// A message to a peer: the blocks that the node wants from it, the wants
/// that it cancels, and the blocks that it sends.
#[derive(Debug, PartialEq, Eq)]
pub struct PeerMessage {
    pub wants: Vec<(u64, u32)>,
    pub cancels: Vec<u64>,
    pub blocks: Vec<Block>,
}

/// The blocks of a message, as values.
pub open spec fn blocks_model(bs: Seq<Block>) -> Seq<(u64, Seq<u8>)> {
    bs.map_values(|b: Block| (b.cid, b.data@))
}

impl PeerMessage {
    /// The message holds nothing.
    pub fn is_empty(&self) -> (r: bool)
        ensures
            r == (self.wants@.len() == 0 && self.cancels@.len() == 0 && self.blocks@.len() == 0),
    {
        self.wants.len() == 0 && self.cancels.len() == 0 && self.blocks.len() == 0
    }
}

/// A copy of some bytes.
fn copy_bytes(data: &Vec<u8>) -> (r: Vec<u8>)
    ensures
        r@ == data@,
{
    let mut r: Vec<u8> = Vec::new();
    let mut i: usize = 0;
    while i < data.len()
        invariant
            i <= data@.len(),
            r@ == data@.take(i as int),
        decreases data@.len() - i,
    {
        r.push(data[i]);
        assert(data@.take(i + 1) =~= data@.take(i as int).push(data@[i as int]));
        i = i + 1;
    }
    assert(data@.take(data@.len() as int) =~= data@);
    r
}

/// Whether `peer` is a known provider of `cid`.
fn provided_by(providers: &ProviderTable, cid: u64, peer: u64) -> (r: bool)
    ensures
        r == is_provider(providers_view(*providers), cid, peer),
{
    match providers_get(providers, cid) {
        Some(v) => {
            assert(providers_view(*providers).contains_key(cid));
            assert(providers_view(*providers)[cid] == v@);
            let mut i: usize = 0;
            while i < v.len()
                invariant
                    i <= v@.len(),
                    providers_view(*providers).contains_key(cid),
                    providers_view(*providers)[cid] == v@,
                    forall|j: int| 0 <= j < i ==> v@[j] != peer,
                decreases v@.len() - i,
            {
                if v[i] == peer {
                    assert(v@[i as int] == peer);
                    assert(providers_view(*providers)[cid].contains(peer));
                    return true;
                }
                i = i + 1;
            }
            false
        },
        None => false,
    }
}

/// The state of a query after it was sent to `peer`.
fn mark_sent(state: State, peer: u64) -> (r: State)
    ensures
        state_model(r) == sent_also(state_model(state), peer),
{
    match state {
        State::New => State::Sent(id_set_single(peer)),
        State::Sent(mut p) => {
            id_set_insert(&mut p, peer);
            State::Sent(p)
        },
    }
}

/// Polls one query for `peer`: adds its part to the message and returns
/// what is left of it.
fn poll_one(q: Query, peer: u64, providers: &ProviderTable, msg: &mut PeerMessage) -> (r: Option<Query>)
    ensures
        ({
            let (next, part) = poll_query(query_model(q), peer, providers_view(*providers));
            &&& match r {
                Some(q2) => next == Some(query_model(q2)),
                None => next is None,
            }
            &&& final(msg).wants@ == old(msg).wants@ + want_part(part)
            &&& final(msg).cancels@ == old(msg).cancels@ + cancel_part(part)
            &&& blocks_model(final(msg).blocks@) == blocks_model(old(msg).blocks@) + block_part(part)
        }),
{
    let ghost b0 = msg.blocks@;
    match q {
        Query::Want { cid, priority, state } => {
            let already = match &state {
                State::Sent(p) => id_set_contains(p, peer),
                State::New => false,
            };
            if provided_by(providers, cid, peer) && !already {
                msg.wants.push((cid, priority));
                Some(Query::Want { cid, priority, state: mark_sent(state, peer) })
            } else {
                assert(msg.wants@ =~= msg.wants@ + Seq::<(u64, u32)>::empty());
                Some(Query::Want { cid, priority, state })
            }
        },
        Query::Cancel { cid, state, receivers } => {
            if id_set_contains(&receivers, peer) {
                msg.cancels.push(cid);
                Some(Query::Cancel { cid, state: mark_sent(state, peer), receivers })
            } else {
                Some(Query::Cancel { cid, state, receivers })
            }
        },
        Query::Send { receiver, block, state } => {
            if receiver.0 == peer {
                match state {
                    State::New => {
                        let copy = Block { cid: block.cid, data: copy_bytes(&block.data) };
                        msg.blocks.push(copy);
                        assert(blocks_model(msg.blocks@) =~= blocks_model(b0) + seq![(block.cid, block.data@)]);
                        let r = receiver.0;
                        Some(Query::Send { receiver, block, state: State::Sent(id_set_single(r)) })
                    },
                    State::Sent(_) => None,
                }
            } else {
                Some(Query::Send { receiver, block, state })
            }
        },
    }
}

/// Why a query ended without success.
#[derive(Debug, Clone, Copy, PartialEq, Eq)]
pub enum QueryError {
    Timeout,
}

/// How a query ended.
#[derive(Debug, Clone, Copy, PartialEq, Eq)]
pub enum QueryResult {
    Send(QueryError),
    Want(QueryError),
    Cancel(QueryError),
}

/// A query that ended, and how.
#[derive(Debug, Clone, Copy, PartialEq, Eq)]
pub struct QueryCompleted {
    pub id: QueryId,
    pub result: QueryResult,
}

/// The queries by identifier.
pub type QueryTable = AHashMap<usize, Query>;

/// The queries, with the contract of each `ahash` method called on the table.
pub uninterp spec fn query_table(m: QueryTable) -> Map<usize, Query>;

/// `AHashMap::new`: no query.
#[verifier::external_body]
fn queries_new() -> (r: QueryTable)
    ensures
        query_table(r).dom() == Set::<usize>::empty(),
{
    AHashMap::new()
}

/// `AHashMap::insert`: sets the query of `k`.
#[verifier::external_body]
fn queries_insert(m: &mut QueryTable, k: usize, v: Query) -> (r: Option<Query>)
    ensures
        query_table(*final(m)) == query_table(*old(m)).insert(k, v),
        r == query_table(*old(m)).get(k),
{
    m.insert(k, v)
}

/// `AHashMap::remove`: takes the query of `k` out.
#[verifier::external_body]
fn queries_remove(m: &mut QueryTable, k: usize) -> (r: Option<Query>)
    ensures
        query_table(*final(m)) == query_table(*old(m)).remove(k),
        r == query_table(*old(m)).get(k),
{
    m.remove(&k)
}

/// `HashMap::is_empty` (through `AHashMap`'s `Deref`).
#[verifier::external_body]
fn queries_is_empty(m: &QueryTable) -> (r: bool)
    ensures
        r == (query_table(*m).dom() == Set::<usize>::empty()),
{
    m.is_empty()
}

/// `AHashMap::get`: the query of `k`.
#[verifier::external_body]
fn queries_get(m: &QueryTable, k: usize) -> (r: Option<&Query>)
    ensures
        r is Some <==> query_table(*m).contains_key(k),
        r matches Some(v) ==> *v == query_table(*m)[k],
{
    m.get(&k)
}

/// The identifiers of the queries, one each, in the order in which
/// `HashMap::keys` (through `Deref`) walks them; which order that is, the
/// contract leaves open.
#[verifier::external_body]
fn queries_keys(m: &QueryTable) -> (r: Vec<usize>)
    ensures
        r@.no_duplicates(),
        r@.to_set() == query_table(*m).dom(),
{
    m.keys().copied().collect()
}

/// The state of a query after `peer` went away.
fn state_without_peer(state: State, peer: u64) -> (r: State)
    ensures
        state_model(r) == state_without(state_model(state), peer),
{
    match state {
        State::New => State::New,
        State::Sent(mut p) => {
            id_set_remove(&mut p, peer);
            State::Sent(p)
        },
    }
}

impl Query {
    /// Whether `peer` is involved in this query.
    pub fn contains_provider(&self, peer_id: u64) -> (r: bool)
        ensures
            r == involves(query_model(*self), peer_id),
    {
        match self {
            Query::Want { state, .. } | Query::Cancel { state, .. } => {
                if let State::Sent(p) = state {
                    return id_set_contains(p, peer_id);
                }
                false
            },
            Query::Send { receiver, state, .. } => {
                if receiver.0 == peer_id {
                    return true;
                }
                if let State::Sent(p) = state {
                    return id_set_contains(p, peer_id);
                }
                false
            },
        }
    }

    /// This query, no longer counted as sent to `peer`.
    fn without_peer(self, peer: u64) -> (r: Query)
        ensures
            query_model(r) == without_peer(query_model(self), peer),
    {
        match self {
            Query::Want { cid, priority, state } => Query::Want {
                cid,
                priority,
                state: state_without_peer(state, peer),
            },
            Query::Cancel { cid, state, receivers } => Query::Cancel {
                cid,
                state: state_without_peer(state, peer),
                receivers,
            },
            Query::Send { receiver, block, state } => Query::Send {
                receiver,
                block,
                state: state_without_peer(state, peer),
            },
        }
    }

    /// Whether this query is over, given the known providers.
    fn is_finished(&self, providers: &ProviderTable) -> (r: bool)
        ensures
            r == finished(query_model(*self), providers_view(*providers)),
    {
        match self {
            Query::Want { cid, state, .. } => {
                let has_providers = match providers_get(providers, *cid) {
                    Some(v) => v.len() > 0,
                    None => false,
                };
                match state {
                    State::New => !has_providers,
                    State::Sent(p) => id_set_is_empty(p) && !has_providers,
                }
            },
            Query::Send { state, .. } | Query::Cancel { state, .. } => match state {
                State::New => false,
                State::Sent(p) => id_set_is_empty(p),
            },
        }
    }
}

/// The peers that a query was sent to.
pub open spec fn sent_to(s: StateModel) -> Set<u64> {
    match s {
        StateModel::Sent(p) => p,
        StateModel::New => Set::empty(),
    }
}

/// A want of the block `cid`.
pub open spec fn wants_cid(q: QueryModel, cid: u64) -> bool {
    q matches QueryModel::Want { cid: c, .. } && c == cid
}

/// The queries without the wants of the block `cid`.
pub open spec fn without_wants(m: Map<usize, QueryModel>, cid: u64) -> Map<usize, QueryModel> {
    Map::new(|k: usize| m.contains_key(k) && !wants_cid(m[k], cid), |k: usize| m[k])
}

/// The identifiers of the wants of the block `cid`.
pub open spec fn wants_of(m: Map<usize, QueryModel>, cid: u64) -> Set<usize> {
    Set::new(|k: usize| m.contains_key(k) && wants_cid(m[k], cid))
}

/// The identifier that follows `id`: the next integer, or 0 after the largest.
pub open spec fn next_id(id: usize) -> usize {
    if id == usize::MAX {
        0
    } else {
        (id + 1) as usize
    }
}

/// The identifier `n` places after `start`.
pub open spec fn id_after(start: usize, n: nat) -> usize
    decreases n,
{
    if n == 0 {
        start
    } else {
        next_id(id_after(start, (n - 1) as nat))
    }
}

/// The queries after `qs` were added one by one, under the identifiers
/// that follow `start`.
pub open spec fn add_queries(m: Map<usize, QueryModel>, start: usize, qs: Seq<QueryModel>) -> Map<
    usize,
    QueryModel,
>
    decreases qs.len(),
{
    if qs.len() == 0 {
        m
    } else {
        add_queries(m, start, qs.drop_last()).insert(id_after(start, (qs.len() - 1) as nat), qs.last())
    }
}

/// A want of the block `cid` that was sent to some peer other than `sender`.
pub open spec fn needs_cancel(q: QueryModel, cid: u64, sender: u64) -> bool {
    wants_cid(q, cid) && state_of(q) is Sent && !sent_to(state_of(q)).remove(sender).is_empty()
}

/// The identifiers of the wants that need a cancel once `sender` delivered
/// the block `cid`.
pub open spec fn cancel_sources(m: Map<usize, QueryModel>, cid: u64, sender: u64) -> Set<usize> {
    Set::new(|k: usize| m.contains_key(k) && needs_cancel(m[k], cid, sender))
}

/// The cancel of a want of the block `cid` that `sender` delivered: to every
/// other peer that the want was sent to.
pub open spec fn cancel_for(q: QueryModel, cid: u64, sender: u64) -> QueryModel {
    QueryModel::Cancel {
        cid,
        state: StateModel::New,
        receivers: sent_to(state_of(q)).remove(sender),
    }
}

/// What a query puts into the message for a peer.
pub enum Part {
    Nothing,
    Want(u64, u32),
    Cancel(u64),
    Block(u64, Seq<u8>),
}

/// The state of a query after it was sent to `peer`.
pub open spec fn sent_also(s: StateModel, peer: u64) -> StateModel {
    match s {
        StateModel::New => StateModel::Sent(set![peer]),
        StateModel::Sent(p) => StateModel::Sent(p.insert(peer)),
    }
}

/// A query after the node polled the connection with `peer`, given the known
/// providers (`None`: the query is over), and what it puts into the message
/// for that peer.
pub open spec fn poll_query(q: QueryModel, peer: u64, prov: Map<u64, Seq<u64>>) -> (
    Option<QueryModel>,
    Part,
) {
    match q {
        QueryModel::Want { cid, priority, state } => if is_provider(prov, cid, peer) && !(
        state matches StateModel::Sent(p) && p.contains(peer)) {
            (
                Some(QueryModel::Want { cid, priority, state: sent_also(state, peer) }),
                Part::Want(cid, priority),
            )
        } else {
            (Some(q), Part::Nothing)
        },
        QueryModel::Cancel { cid, state, receivers } => if receivers.contains(peer) {
            (
                Some(QueryModel::Cancel { cid, state: sent_also(state, peer), receivers }),
                Part::Cancel(cid),
            )
        } else {
            (Some(q), Part::Nothing)
        },
        QueryModel::Send { receiver, addrs, cid, data, state } => if receiver == peer {
            match state {
                StateModel::New => (
                    Some(
                        QueryModel::Send {
                            receiver,
                            addrs,
                            cid,
                            data,
                            state: StateModel::Sent(set![receiver]),
                        },
                    ),
                    Part::Block(cid, data),
                ),
                StateModel::Sent(_) => (None, Part::Nothing),
            }
        } else {
            (Some(q), Part::Nothing)
        },
    }
}

pub open spec fn want_part(c: Part) -> Seq<(u64, u32)> {
    match c {
        Part::Want(cid, priority) => seq![(cid, priority)],
        _ => Seq::empty(),
    }
}

pub open spec fn cancel_part(c: Part) -> Seq<u64> {
    match c {
        Part::Cancel(cid) => seq![cid],
        _ => Seq::empty(),
    }
}

pub open spec fn block_part(c: Part) -> Seq<(u64, Seq<u8>)> {
    match c {
        Part::Block(cid, data) => seq![(cid, data)],
        _ => Seq::empty(),
    }
}

/// What the queries `ks` put into the message, in that order.
pub open spec fn parts_of(m: Map<usize, QueryModel>, ks: Seq<usize>, peer: u64, prov: Map<u64, Seq<u64>>) -> Seq<Part> {
    ks.map_values(|k: usize| poll_query(m[k], peer, prov).1)
}

/// The wants in the parts of a message, in order.
pub open spec fn wants_in(cs: Seq<Part>) -> Seq<(u64, u32)>
    decreases cs.len(),
{
    if cs.len() == 0 {
        Seq::empty()
    } else {
        wants_in(cs.drop_last()) + want_part(cs.last())
    }
}

/// The cancels in the parts of a message, in order.
pub open spec fn cancels_in(cs: Seq<Part>) -> Seq<u64>
    decreases cs.len(),
{
    if cs.len() == 0 {
        Seq::empty()
    } else {
        cancels_in(cs.drop_last()) + cancel_part(cs.last())
    }
}

/// The blocks in the parts of a message, in order.
pub open spec fn blocks_in(cs: Seq<Part>) -> Seq<(u64, Seq<u8>)>
    decreases cs.len(),
{
    if cs.len() == 0 {
        Seq::empty()
    } else {
        blocks_in(cs.drop_last()) + block_part(cs.last())
    }
}

/// The queries after the node polled the connection with `peer`.
pub open spec fn polled(m: Map<usize, QueryModel>, peer: u64, prov: Map<u64, Seq<u64>>) -> Map<usize, QueryModel> {
    Map::new(
        |k: usize| m.contains_key(k) && poll_query(m[k], peer, prov).0 is Some,
        |k: usize| poll_query(m[k], peer, prov).0->Some_0,
    )
}

/// In keys without repeats, the key at `i` is not among those before it.
proof fn lemma_key_is_new(keys: Seq<usize>, i: int)
    requires
        keys.no_duplicates(),
        0 <= i < keys.len(),
    ensures
        keys.take(i + 1) == keys.take(i).push(keys[i]),
        !keys.take(i).contains(keys[i]),
{
    assert(keys.take(i + 1) =~= keys.take(i).push(keys[i]));
    if keys.take(i).contains(keys[i]) {
        let j = choose|j: int| 0 <= j < i && keys.take(i)[j] == keys[i];
        assert(keys[j] == keys[i]);
    }
}

/// A key among `keys` stands at some position of them.
proof fn lemma_key_index(keys: Seq<usize>, k: usize) -> (j: int)
    requires
        keys.to_set().contains(k),
    ensures
        0 <= j < keys.len(),
        keys[j] == k,
{
    assert(keys.contains(k));
    keys.index_of(k)
}

/// A block delivered by `sender` calls for a cancel of a want exactly when the
/// want went out to some other peer, and that cancel is new, for the same
/// block, and goes to every peer the want went to but the sender.
pub proof fn lemma_cancel_after_block(q: QueryModel, cid: u64, sender: u64)
    ensures
        needs_cancel(q, cid, sender) <==> (wants_cid(q, cid) && state_of(q) is Sent && exists|x: u64|
            #[trigger] sent_to(state_of(q)).contains(x) && x != sender),
        ({
            let c = cancel_for(q, cid, sender);
            c matches QueryModel::Cancel { cid: cc, state, receivers } && cc == cid && state is New
                && forall|x: u64|
                #[trigger] receivers.contains(x) <==> (sent_to(state_of(q)).contains(x) && x
                    != sender)
        }),
{
    let p = sent_to(state_of(q));
    if exists|x: u64| #[trigger] p.contains(x) && x != sender {
        let x = choose|x: u64| #[trigger] p.contains(x) && x != sender;
        assert(p.remove(sender).contains(x));
    } else {
        assert(p.remove(sender) =~= Set::<u64>::empty());
    }
}

/// When a peer goes away, each query forgets exactly that peer among those
/// it went to, and is otherwise unchanged.
pub proof fn lemma_release_forgets_only_that_peer(q: QueryModel, peer: u64)
    ensures
        forall|x: u64|
            #[trigger] sent_to(state_of(without_peer(q, peer))).contains(x) <==> (sent_to(
                state_of(q),
            ).contains(x) && x != peer),
        state_of(without_peer(q, peer)) is New <==> state_of(q) is New,
        match (q, without_peer(q, peer)) {
            (QueryModel::Want { cid, priority, .. }, QueryModel::Want { cid: c2, priority: p2, .. }) =>
                cid == c2 && priority == p2,
            (
                QueryModel::Cancel { cid, receivers, .. },
                QueryModel::Cancel { cid: c2, receivers: r2, .. },
            ) => cid == c2 && receivers == r2,
            (
                QueryModel::Send { receiver, addrs, cid, data, .. },
                QueryModel::Send { receiver: r2, addrs: a2, cid: c2, data: d2, .. },
            ) => receiver == r2 && addrs == a2 && cid == c2 && data == d2,
            _ => false,
        },
{
}

/// A want goes into the message for a peer exactly when that peer is a
/// known provider of its block and the want has not gone to it yet; then it
/// asks for the block with the want's priority.
pub proof fn lemma_want_goes_to_new_providers(q: QueryModel, peer: u64, prov: Map<u64, Seq<u64>>)
    requires
        q is Want,
    ensures
        ({
            let (next, part) = poll_query(q, peer, prov);
            match q {
                QueryModel::Want { cid, priority, state } => {
                    &&& (part is Want <==> (prov.contains_key(cid) && prov[cid].contains(peer)
                        && !sent_to(state).contains(peer)))
                    &&& part is Want ==> part == Part::Want(cid, priority)
                    &&& !(part is Want) ==> part is Nothing && next == Some(q)
                },
                _ => true,
            }
        }),
{
}

/// When a query is over: a want once no peer holds it and no provider of its
/// block is known (so a want whose block has a known provider is never timed
/// out); a cancel or a send once it went out and no peer holds it.
pub proof fn lemma_when_a_query_is_over(q: QueryModel, prov: Map<u64, Seq<u64>>)
    ensures
        q matches QueryModel::Want { cid, state, .. } ==> (finished(q, prov) <==> (!(prov.contains_key(
            cid,
        ) && prov[cid].len() > 0) && forall|p: u64| !#[trigger] sent_to(state).contains(p))),
        (q matches QueryModel::Want { cid, .. } && prov.contains_key(cid) && prov[cid].len() > 0)
            ==> !finished(q, prov),
        (q is Cancel || q is Send) ==> (finished(q, prov) <==> (state_of(q) is Sent && forall|p: u64|
            !#[trigger] sent_to(state_of(q)).contains(p))),
{
    match state_of(q) {
        StateModel::Sent(s) => {
            if forall|p: u64| !#[trigger] sent_to(state_of(q)).contains(p) {
                assert forall|x: u64| !s.contains(x) by {
                    assert(!sent_to(state_of(q)).contains(x));
                }
                assert(s =~= Set::<u64>::empty());
            }
        },
        StateModel::New => {},
    }
}

/// Sending a query to a peer adds that peer to the peers it went to and keeps
/// the others.
pub proof fn lemma_sending_adds_the_peer(s: StateModel, peer: u64)
    ensures
        sent_also(s, peer) matches StateModel::Sent(after) && after == match s {
            StateModel::New => Set::<u64>::empty(),
            StateModel::Sent(before) => before,
        }.insert(peer),
{
    if s is New {
        assert(set![peer] =~= Set::<u64>::empty().insert(peer));
    }
}

/// A want after the node polled the connections with `peers` in turn, and
/// the part it put into each message.
pub open spec fn want_polls(q: QueryModel, peers: Seq<u64>, prov: Map<u64, Seq<u64>>) -> (
    QueryModel,
    Seq<Part>,
)
    decreases peers.len(),
{
    if peers.len() == 0 {
        (q, Seq::empty())
    } else {
        let (q1, parts) = want_polls(q, peers.drop_last(), prov);
        let (next, part) = poll_query(q1, peers.last(), prov);
        (
            match next {
                Some(n) => n,
                None => q1,
            },
            parts.push(part),
        )
    }
}

/// The peers that a want went to.
pub open spec fn want_sent_to(q: QueryModel) -> Set<u64> {
    match q {
        QueryModel::Want { state: StateModel::Sent(p), .. } => p,
        _ => Set::empty(),
    }
}

/// Over any sequence of polls of any peers, a want goes to each peer at most
/// once, and every peer it went to stays among those it was sent to.
pub proof fn lemma_want_sent_once_per_peer(q: QueryModel, peers: Seq<u64>, prov: Map<u64, Seq<u64>>)
    requires
        q is Want,
    ensures
        ({
            let (qf, parts) = want_polls(q, peers, prov);
            &&& qf is Want
            &&& parts.len() == peers.len()
            &&& forall|i: int|
                0 <= i < parts.len() && #[trigger] parts[i] is Want ==> want_sent_to(qf).contains(
                    peers[i],
                )
            &&& want_sent_to(q).subset_of(want_sent_to(qf))
            &&& forall|i: int, j: int|
                0 <= i < j < parts.len() && peers[i] == peers[j] && #[trigger] parts[i] is Want
                    ==> #[trigger] parts[j] is Nothing
        }),
    decreases peers.len(),
{
    if peers.len() > 0 {
        let prefix = peers.drop_last();
        lemma_want_sent_once_per_peer(q, prefix, prov);
        let (q1, parts1) = want_polls(q, prefix, prov);
        let peer = peers.last();
        let (next, part) = poll_query(q1, peer, prov);
        let (qf, parts) = want_polls(q, peers, prov);
        assert(parts == parts1.push(part));
        if let QueryModel::Want { state, .. } = q1 {
            lemma_sending_adds_the_peer(state, peer);
        }
        assert(want_sent_to(q1).subset_of(want_sent_to(qf)));
        assert forall|i: int|
            0 <= i < parts.len() && #[trigger] parts[i] is Want implies want_sent_to(qf).contains(
            peers[i],
        ) by {
            if i < parts1.len() {
                assert(parts[i] == parts1[i]);
                assert(peers[i] == prefix[i]);
            }
        }
        assert forall|i: int, j: int|
            0 <= i < j < parts.len() && peers[i] == peers[j] && #[trigger] parts[i] is Want
                implies #[trigger] parts[j] is Nothing by {
            assert(parts[i] == parts1[i]);
            assert(peers[i] == prefix[i]);
            if j < parts1.len() {
                assert(parts[j] == parts1[j]);
                assert(peers[j] == prefix[j]);
            } else {
                assert(want_sent_to(q1).contains(peer));
            }
        }
    }
}

/// Polling a peer twice sends it each want at most once: a want that went
/// into the message for `peer` puts nothing into the next one.
pub proof fn lemma_want_sent_once(q: QueryModel, peer: u64, prov: Map<u64, Seq<u64>>)
    requires
        q is Want,
    ensures
        ({
            let (next, part) = poll_query(q, peer, prov);
            &&& next is Some
            &&& part is Want ==> poll_query(next->Some_0, peer, prov).1 is Nothing
        }),
{
}

/// A block is delivered once: a send that went into the message for its
/// receiver is over at the next poll of that receiver, and puts nothing more.
pub proof fn lemma_block_sent_once(q: QueryModel, peer: u64, prov: Map<u64, Seq<u64>>)
    requires
        q is Send,
    ensures
        ({
            let (next, part) = poll_query(q, peer, prov);
            &&& part is Block ==> next is Some && poll_query(next->Some_0, peer, prov) == (
                None::<QueryModel>,
                Part::Nothing,
            )
        }),
{
}

/// Once `peer` went away, no query counts as sent to it; a want that had been
/// sent to it alone, and has no provider left, is over.
pub proof fn lemma_released_peer(q: QueryModel, peer: u64, prov: Map<u64, Seq<u64>>)
    ensures
        !(state_of(without_peer(q, peer)) matches StateModel::Sent(p) && p.contains(peer)),
        (q matches QueryModel::Want { cid, state, .. } && state == StateModel::Sent(set![peer])
            && !has_providers(prov, cid)) ==> finished(without_peer(q, peer), prov),
{
    if q matches QueryModel::Want { cid, state, .. } && state == StateModel::Sent(set![peer]) {
        assert(set![peer].remove(peer) =~= Set::<u64>::empty());
    }
}

/// A query that does not involve `peer` is unchanged when `peer` goes away.
proof fn lemma_without_uninvolved(q: QueryModel, peer: u64)
    requires
        !involves(q, peer),
    ensures
        without_peer(q, peer) == q,
{
    if let StateModel::Sent(p) = state_of(q) {
        assert(p.remove(peer) =~= p);
    }
}

/// The outstanding queries and the identifier that the next one gets.
pub struct QueryManager {
    queries: QueryTable,
    next_id: usize,
}

impl QueryManager {
    /// The queries, as values.
    pub closed spec fn view(&self) -> Map<usize, QueryModel> {
        query_table(self.queries).map_values(|q: Query| query_model(q))
    }

    /// The identifier that the next query gets.
    pub closed spec fn next(&self) -> usize {
        self.next_id
    }

    /// A manager without queries.
    pub fn new() -> (r: Self)
        ensures
            r.view() == Map::<usize, QueryModel>::empty(),
            r.next() == 0,
    {
        let r = QueryManager { queries: queries_new(), next_id: 0 };
        assert(r.view() =~= Map::<usize, QueryModel>::empty());
        r
    }

    /// Adds a query under the next identifier.
    fn new_query(&mut self, query: Query) -> (r: QueryId)
        ensures
            r.0 == old(self).next(),
            final(self).next() == (if old(self).next() == usize::MAX {
                0
            } else {
                old(self).next() + 1
            }),
            final(self).view() == old(self).view().insert(r.0, query_model(query)),
    {
        let id = QueryId(self.next_id);
        self.next_id = self.next_id.wrapping_add(1);
        let ghost qm = query_model(query);
        let ghost before = self.view();
        queries_insert(&mut self.queries, id.0, query);
        assert(self.view() =~= before.insert(id.0, qm));
        id
    }

    /// No query is outstanding.
    pub fn is_empty(&self) -> (r: bool)
        ensures
            r == (self.view().dom() == Set::<usize>::empty()),
    {
        assert(self.view().dom() =~= query_table(self.queries).dom());
        queries_is_empty(&self.queries)
    }

    /// Adds a query for the block `cid`.
    pub fn want(&mut self, cid: u64, priority: u32) -> (r: QueryId)
        ensures
            r.0 == old(self).next(),
            final(self).next() == (if old(self).next() == usize::MAX {
                0
            } else {
                old(self).next() + 1
            }),
            final(self).view() == old(self).view().insert(
                r.0,
                QueryModel::Want { cid, priority, state: StateModel::New },
            ),
    {
        self.new_query(Query::Want { cid, priority, state: State::New })
    }

    /// Adds a query that sends the block `cid` with `data` to `receiver`, which
    /// has the addresses `addrs`.
    pub fn send(&mut self, receiver: u64, addrs: &[u64], cid: u64, data: Vec<u8>) -> (r: QueryId)
        ensures
            r.0 == old(self).next(),
            final(self).next() == (if old(self).next() == usize::MAX {
                0
            } else {
                old(self).next() + 1
            }),
            final(self).view() == old(self).view().insert(
                r.0,
                QueryModel::Send {
                    receiver,
                    addrs: addrs@,
                    cid,
                    data: data@,
                    state: StateModel::New,
                },
            ),
    {
        let addrs = vstd::slice::slice_to_vec(addrs);
        self.new_query(Query::Send { receiver: (receiver, addrs), block: Block { cid, data }, state: State::New })
    }

    /// Drops the wants of the block `cid`. Where one of them was sent, adds a
    /// query that cancels it with the peers that it was sent to.
    pub fn cancel(&mut self, cid: u64) -> (r: Option<QueryId>)
        ensures
            r is Some <==> exists|k: usize|
                #[trigger] old(self).view().contains_key(k) && wants_cid(old(self).view()[k], cid)
                    && state_of(old(self).view()[k]) is Sent,
            match r {
                Some(id) => {
                    &&& id.0 == old(self).next()
                    &&& final(self).next() == id_after(old(self).next(), 1)
                    &&& exists|k: usize|
                        #[trigger] old(self).view().contains_key(k) && wants_cid(
                            old(self).view()[k],
                            cid,
                        ) && state_of(old(self).view()[k]) is Sent
                            && final(self).view() == without_wants(old(self).view(), cid).insert(
                            id.0,
                            QueryModel::Cancel {
                                cid,
                                state: StateModel::New,
                                receivers: sent_to(state_of(old(self).view()[k])),
                            },
                        )
                },
                None => {
                    &&& final(self).next() == old(self).next()
                    &&& final(self).view() == without_wants(old(self).view(), cid)
                },
            },
    {
        let ghost old_view = self.view();
        let keys = queries_keys(&self.queries);
        let mut cancel: Option<AHashSet<u64>> = None;
        let ghost mut witness: usize = 0;
        let mut i: usize = 0;
        while i < keys.len()
            invariant
                i <= keys@.len(),
                keys@.no_duplicates(),
                keys@.to_set() == old_view.dom(),
                self.next() == old(self).next(),
                self.view().dom() == old_view.dom().filter(
                    |k: usize| !(keys@.take(i as int).contains(k) && wants_cid(old_view[k], cid)),
                ),
                forall|k: usize| #[trigger] self.view().contains_key(k) ==> self.view()[k] == old_view[k],
                match cancel {
                    Some(p) => old_view.contains_key(witness) && keys@.take(i as int).contains(witness)
                        && wants_cid(old_view[witness], cid) && state_of(old_view[witness])
                        == StateModel::Sent(id_set(p)),
                    None => forall|j: int|
                        0 <= j < i ==> !(wants_cid(#[trigger] old_view[keys@[j]], cid) && state_of(
                            old_view[keys@[j]],
                        ) is Sent),
                },
            decreases keys@.len() - i,
        {
            let k = keys[i];
            assert(keys@.to_set().contains(k));
            proof {
                lemma_key_is_new(keys@, i as int);
            }
            assert(!keys@.take(i as int).contains(k));
            let ghost before = self.view();
            assert(before.contains_key(k));
            assert(before[k] == old_view[k]);
            let is_match = match queries_get(&self.queries, k) {
                Some(Query::Want { cid: c, .. }) => *c == cid,
                _ => false,
            };
            if is_match {
                let taken = queries_remove(&mut self.queries, k);
                assert(self.view() =~= before.remove(k));
                match taken {
                    Some(Query::Want { state: State::Sent(p), .. }) => {
                        cancel = Some(p);
                        proof {
                            witness = k;
                        }
                    },
                    _ => {},
                }
            }
            assert(is_match == wants_cid(old_view[k], cid));
            proof {
                if keys@.take(i as int).contains(witness) {
                    let j = choose|j: int| 0 <= j < i && keys@.take(i as int)[j] == witness;
                    assert(keys@.take(i + 1)[j] == witness);
                }
                assert(keys@.take(i + 1)[i as int] == k);
            }
            assert(self.view().dom() =~= old_view.dom().filter(
                |k: usize| !(keys@.take(i + 1).contains(k) && wants_cid(old_view[k], cid)),
            ));
            i = i + 1;
        }
        assert(keys@.take(keys@.len() as int) =~= keys@);
        let ghost filtered = self.view();
        assert(filtered =~= without_wants(old_view, cid)) by {
            assert forall|k: usize| old_view.contains_key(k) implies keys@.contains(k) by {
                assert(keys@.to_set().contains(k));
            }
        }
        match cancel {
            Some(receivers) => {
                let ghost p = id_set(receivers);
                let id = self.new_query(Query::Cancel { cid, state: State::New, receivers });
                proof {
                    assert(old_view.contains_key(witness) && wants_cid(old_view[witness], cid)
                        && state_of(old_view[witness]) == StateModel::Sent(p));
                    assert(id_after(old(self).next(), 1) == next_id(id_after(old(self).next(), 0)));
                }
                Some(id)
            },
            None => {
                proof {
                    assert forall|k: usize| #[trigger] old_view.contains_key(k) && wants_cid(old_view[k], cid)
                        implies !(state_of(old_view[k]) is Sent) by {
                        let j = lemma_key_index(keys@, k);
                    }
                }
                None
            },
        }
    }

    /// Handles the arrival of `block` from `sender`: the wants of that block are
    /// over, and their identifiers are returned. A want that was also sent to
    /// other peers gets a cancel query for those peers.
    pub fn process_block(&mut self, sender: u64, block: &Block) -> (r: Vec<QueryId>)
        ensures
            r@.map_values(|q: QueryId| q.0).no_duplicates(),
            r@.map_values(|q: QueryId| q.0).to_set() == wants_of(old(self).view(), block.cid),
            exists|origin: Seq<usize>|
                {
                    &&& origin.no_duplicates()
                    &&& origin.to_set() == cancel_sources(old(self).view(), block.cid, sender)
                    &&& #[trigger] final(self).view() == add_queries(
                        without_wants(old(self).view(), block.cid),
                        old(self).next(),
                        origin.map_values(
                            |k: usize| cancel_for(old(self).view()[k], block.cid, sender),
                        ),
                    )
                    &&& final(self).next() == id_after(old(self).next(), origin.len())
                },
    {
        let ghost old_view = self.view();
        let cid = block.cid;
        let keys = queries_keys(&self.queries);
        let mut ids: Vec<QueryId> = Vec::new();
        let mut cancels: Vec<AHashSet<u64>> = Vec::new();
        let ghost mut origin: Seq<usize> = Seq::empty();
        let ghost mut done: Set<usize> = Set::empty();
        let mut i: usize = 0;
        while i < keys.len()
            invariant
                i <= keys@.len(),
                keys@.no_duplicates(),
                keys@.to_set() == old_view.dom(),
                done == keys@.take(i as int).to_set(),
                self.next() == old(self).next(),
                self.view().dom() == old_view.dom().filter(
                    |k: usize| !(done.contains(k) && wants_cid(old_view[k], cid)),
                ),
                forall|k: usize| #[trigger] self.view().contains_key(k) ==> self.view()[k] == old_view[k],
                ids@.map_values(|q: QueryId| q.0).no_duplicates(),
                ids@.map_values(|q: QueryId| q.0).to_set() == done.filter(
                    |k: usize| old_view.contains_key(k) && wants_cid(old_view[k], cid),
                ),
                origin.no_duplicates(),
                origin.to_set() == done.filter(
                    |k: usize| old_view.contains_key(k) && needs_cancel(old_view[k], cid, sender),
                ),
                cancels@.len() == origin.len(),
                forall|j: int|
                    0 <= j < origin.len() ==> id_set(#[trigger] cancels@[j]) == sent_to(
                        state_of(old_view[origin[j]]),
                    ).remove(sender),
            decreases keys@.len() - i,
        {
            let k = keys[i];
            assert(keys@.to_set().contains(k));
            proof {
                lemma_key_is_new(keys@, i as int);
            }
            assert(!done.contains(k));
            let ghost before = self.view();
            let ghost ids_before = ids@.map_values(|q: QueryId| q.0);
            assert(before.contains_key(k));
            assert(before[k] == old_view[k]);
            let is_match = match queries_get(&self.queries, k) {
                Some(Query::Want { cid: c, .. }) => *c == cid,
                _ => false,
            };
            assert(is_match == wants_cid(old_view[k], cid));
            let ghost origin_before = origin;
            assert(!ids_before.contains(k)) by {
                if ids_before.contains(k) {
                    assert(ids_before.to_set().contains(k));
                }
            }
            assert(!origin_before.contains(k)) by {
                if origin_before.contains(k) {
                    assert(origin_before.to_set().contains(k));
                }
            }
            if is_match {
                ids.push(QueryId(k));
                assert(ids@.map_values(|q: QueryId| q.0) =~= ids_before.push(k));
                proof {
                    ids_before.lemma_push_to_set_commute(k);
                }
                let taken = queries_remove(&mut self.queries, k);
                assert(self.view() =~= before.remove(k));
                match taken {
                    Some(Query::Want { state: State::Sent(mut receivers), .. }) => {
                        id_set_remove(&mut receivers, sender);
                        if !id_set_is_empty(&receivers) {
                            cancels.push(receivers);
                            proof {
                                origin = origin.push(k);
                                origin_before.lemma_push_to_set_commute(k);
                            }
                        }
                    },
                    _ => {},
                }
            }
            proof {
                done = done.insert(k);
                keys@.take(i as int).lemma_push_to_set_commute(k);
                assert(keys@.take(i + 1).to_set() == keys@.take(i as int).to_set().insert(k));
                assert(self.view().dom() =~= old_view.dom().filter(
                    |x: usize| !(done.contains(x) && wants_cid(old_view[x], cid)),
                ));
                assert(ids@.map_values(|q: QueryId| q.0).to_set() =~= done.filter(
                    |x: usize| old_view.contains_key(x) && wants_cid(old_view[x], cid),
                ));
                assert(origin.to_set() =~= done.filter(
                    |x: usize| old_view.contains_key(x) && needs_cancel(old_view[x], cid, sender),
                ));
            }
            i = i + 1;
        }
        proof {
            assert(keys@.take(keys@.len() as int) =~= keys@);
            assert(done =~= old_view.dom());
            assert(self.view() =~= without_wants(old_view, cid));
            assert(ids@.map_values(|q: QueryId| q.0).to_set() =~= wants_of(old_view, cid));
            assert(origin.to_set() =~= cancel_sources(old_view, cid, sender));
        }
        let ghost base = self.view();
        let ghost start = self.next();
        let ghost all_cancels = cancels@;
        let ghost made: Seq<QueryModel> = origin.map_values(
            |k: usize| cancel_for(old_view[k], cid, sender),
        );
        let n_cancels = cancels.len();
        assert(origin.len() == n_cancels);
        let mut j: usize = 0;
        while cancels.len() > 0
            invariant
                j + cancels@.len() == origin.len(),
                origin.len() <= usize::MAX,
                cancels@ == all_cancels.skip(j as int),
                all_cancels.len() == origin.len(),
                forall|x: int|
                    0 <= x < origin.len() ==> id_set(#[trigger] all_cancels[x]) == sent_to(
                        state_of(old_view[origin[x]]),
                    ).remove(sender),
                made == origin.map_values(|k: usize| cancel_for(old_view[k], cid, sender)),
                self.view() == add_queries(base, start, made.take(j as int)),
                self.next() == id_after(start, j as nat),
            decreases cancels@.len(),
        {
            let receivers = cancels.remove(0);
            assert(id_set(receivers) == id_set(all_cancels[j as int]));
            let ghost q = cancel_for(old_view[origin[j as int]], cid, sender);
            let id = self.new_query(Query::Cancel { cid, state: State::New, receivers });
            proof {
                assert(made.take(j + 1) =~= made.take(j as int).push(q));
                assert(made.take(j + 1).drop_last() =~= made.take(j as int));
                assert(cancels@ =~= all_cancels.skip(j + 1));
            }
            j = j + 1;
        }
        assert(made.take(j as int) =~= made);
        ids
    }

    /// Polls the connection with `peer_id`: gathers what the queries have for
    /// that peer into one message, marks those queries as sent to it, and drops
    /// the sends that were already delivered to it. Returns the message unless
    /// it holds nothing.
    pub fn poll_peer(&mut self, peer_id: u64, providers: &ProviderTable) -> (r: Option<PeerMessage>)
        ensures
            final(self).next() == old(self).next(),
            final(self).view() == polled(old(self).view(), peer_id, providers_view(*providers)),
            exists|ks: Seq<usize>|
                {
                    let cs = #[trigger] parts_of(old(self).view(), ks, peer_id, providers_view(*providers));
                    &&& ks.no_duplicates()
                    &&& ks.to_set() == old(self).view().dom()
                    &&& match r {
                        Some(m) => {
                            &&& m.wants@ == wants_in(cs)
                            &&& m.cancels@ == cancels_in(cs)
                            &&& blocks_model(m.blocks@) == blocks_in(cs)
                            &&& !(m.wants@.len() == 0 && m.cancels@.len() == 0 && m.blocks@.len() == 0)
                        },
                        None => wants_in(cs).len() == 0 && cancels_in(cs).len() == 0 && blocks_in(cs).len() == 0,
                    }
                },
    {
        let ghost old_view = self.view();
        let ghost prov = providers_view(*providers);
        if self.is_empty() {
            proof {
                let ks = Seq::<usize>::empty();
                assert(ks.to_set() =~= old_view.dom());
                assert(parts_of(old_view, ks, peer_id, prov) =~= Seq::<Part>::empty());
                assert(polled(old_view, peer_id, prov) =~= old_view);
            }
            return None;
        }
        let mut msg = PeerMessage { wants: Vec::new(), cancels: Vec::new(), blocks: Vec::new() };
        let keys = queries_keys(&self.queries);
        let ghost mut done: Set<usize> = Set::empty();
        let mut i: usize = 0;
        while i < keys.len()
            invariant
                i <= keys@.len(),
                keys@.no_duplicates(),
                keys@.to_set() == old_view.dom(),
                prov == providers_view(*providers),
                done == keys@.take(i as int).to_set(),
                self.next() == old(self).next(),
                self.view().dom() == old_view.dom().filter(
                    |k: usize| !done.contains(k) || poll_query(old_view[k], peer_id, prov).0 is Some,
                ),
                forall|k: usize| #[trigger]
                    self.view().contains_key(k) ==> self.view()[k] == if done.contains(k) {
                        poll_query(old_view[k], peer_id, prov).0->Some_0
                    } else {
                        old_view[k]
                    },
                msg.wants@ == wants_in(parts_of(old_view, keys@.take(i as int), peer_id, prov)),
                msg.cancels@ == cancels_in(parts_of(old_view, keys@.take(i as int), peer_id, prov)),
                blocks_model(msg.blocks@) == blocks_in(
                    parts_of(old_view, keys@.take(i as int), peer_id, prov),
                ),
            decreases keys@.len() - i,
        {
            let k = keys[i];
            assert(keys@.to_set().contains(k));
            proof {
                lemma_key_is_new(keys@, i as int);
            }
            assert(!done.contains(k));
            let ghost before = self.view();
            let ghost cs = parts_of(old_view, keys@.take(i as int), peer_id, prov);
            let ghost c = poll_query(old_view[k], peer_id, prov).1;
            assert(before.contains_key(k));
            assert(before[k] == old_view[k]);
            let taken = queries_remove(&mut self.queries, k);
            match taken {
                Some(q) => {
                    assert(query_model(q) == old_view[k]);
                    let rest = poll_one(q, peer_id, providers, &mut msg);
                    match rest {
                        Some(q2) => {
                            queries_insert(&mut self.queries, k, q2);
                            assert(self.view() =~= before.insert(k, query_model(q2)));
                        },
                        None => {
                            assert(self.view() =~= before.remove(k));
                        },
                    }
                },
                None => {
                    assert(false);
                },
            }
            proof {
                let cs2 = parts_of(old_view, keys@.take(i + 1), peer_id, prov);
                assert(cs2 =~= cs.push(c));
                assert(cs.push(c).drop_last() =~= cs);
                keys@.take(i as int).lemma_push_to_set_commute(k);
                done = done.insert(k);
                assert(self.view().dom() =~= old_view.dom().filter(
                    |x: usize| !done.contains(x) || poll_query(old_view[x], peer_id, prov).0 is Some,
                ));
            }
            i = i + 1;
        }
        proof {
            assert(keys@.take(keys@.len() as int) =~= keys@);
            assert(done =~= old_view.dom());
            assert(self.view() =~= polled(old_view, peer_id, prov));
            assert(parts_of(old_view, keys@, peer_id, prov) == parts_of(old_view, keys@.take(i as int), peer_id, prov));
        }
        if msg.is_empty() {
            return None;
        }
        Some(msg)
    }

    /// Forgets that any query was sent to `peer_id`.
    fn release_peer(&mut self, peer_id: u64)
        ensures
            final(self).next() == old(self).next(),
            final(self).view() == old(self).view().map_values(|q: QueryModel| without_peer(q, peer_id)),
    {
        let ghost old_view = self.view();
        let keys = queries_keys(&self.queries);
        let mut i: usize = 0;
        while i < keys.len()
            invariant
                i <= keys@.len(),
                keys@.no_duplicates(),
                keys@.to_set() == old_view.dom(),
                self.next() == old(self).next(),
                self.view().dom() == old_view.dom(),
                forall|j: int|
                    0 <= j < i ==> #[trigger] self.view()[keys@[j]] == without_peer(
                        old_view[keys@[j]],
                        peer_id,
                    ),
                forall|j: int| i <= j < keys@.len() ==> #[trigger] self.view()[keys@[j]] == old_view[keys@[j]],
            decreases keys@.len() - i,
        {
            let k = keys[i];
            assert(keys@.to_set().contains(k));
            let ghost before = self.view();
            match queries_remove(&mut self.queries, k) {
                Some(q) => {
                    let ghost qm = query_model(q);
                    let q2 = if q.contains_provider(peer_id) {
                        q.without_peer(peer_id)
                    } else {
                        proof {
                            lemma_without_uninvolved(qm, peer_id);
                        }
                        q
                    };
                    queries_insert(&mut self.queries, k, q2);
                    assert(self.view() =~= before.insert(k, without_peer(qm, peer_id)));
                },
                None => {
                    assert(false);
                },
            }
            proof {
                assert(before[k] == old_view[k]);
                assert(self.view()[keys@[i as int]] == without_peer(old_view[keys@[i as int]], peer_id));
                assert forall|j: int| i + 1 <= j < keys@.len() implies #[trigger] self.view()[keys@[j]]
                    == old_view[keys@[j]] by {
                    assert(keys@[j] != keys@[i as int]);
                }
                assert forall|j: int| 0 <= j < i implies #[trigger] self.view()[keys@[j]]
                    == without_peer(old_view[keys@[j]], peer_id) by {
                    assert(keys@[j] != keys@[i as int]);
                }
            }
            i = i + 1;
        }
        proof {
            assert forall|k: usize| #[trigger] self.view().contains_key(k) implies self.view()[k]
                == without_peer(old_view[k], peer_id) by {
                let j = lemma_key_index(keys@, k);
            }
        }
        assert(self.view() =~= old_view.map_values(|q: QueryModel| without_peer(q, peer_id)));
    }

    /// Handles the closing of the connection with `peer_id`: no query counts
    /// as sent to that peer any longer.
    pub fn disconnected(&mut self, peer_id: u64)
        ensures
            final(self).next() == old(self).next(),
            final(self).view() == old(self).view().map_values(|q: QueryModel| without_peer(q, peer_id)),
    {
        self.release_peer(peer_id)
    }

    /// Handles a failed dial of `peer_id`: no query counts as sent to that
    /// peer any longer.
    pub fn dial_failure(&mut self, peer_id: u64)
        ensures
            final(self).next() == old(self).next(),
            final(self).view() == old(self).view().map_values(|q: QueryModel| without_peer(q, peer_id)),
    {
        self.release_peer(peer_id)
    }

    /// Takes out some query that is over, if there is one.
    fn next_finished_query(&mut self, providers: &ProviderTable) -> (r: Option<(QueryId, Query)>)
        ensures
            final(self).next() == old(self).next(),
            match r {
                Some((id, q)) => {
                    &&& old(self).view().contains_key(id.0)
                    &&& query_model(q) == old(self).view()[id.0]
                    &&& finished(query_model(q), providers_view(*providers))
                    &&& final(self).view() == old(self).view().remove(id.0)
                },
                None => {
                    &&& final(self).view() == old(self).view()
                    &&& forall|k: usize| #[trigger]
                        old(self).view().contains_key(k) ==> !finished(
                            old(self).view()[k],
                            providers_view(*providers),
                        )
                },
            },
    {
        let keys = queries_keys(&self.queries);
        let mut i: usize = 0;
        while i < keys.len()
            invariant
                i <= keys@.len(),
                keys@.to_set() == self.view().dom(),
                self == old(self),
                forall|j: int|
                    0 <= j < i ==> !finished(
                        #[trigger] self.view()[keys@[j]],
                        providers_view(*providers),
                    ),
            decreases keys@.len() - i,
        {
            let k = keys[i];
            assert(keys@.to_set().contains(k));
            match queries_get(&self.queries, k) {
                Some(q) => {
                    if q.is_finished(providers) {
                        let ghost before = self.view();
                        let taken = queries_remove(&mut self.queries, k);
                        assert(self.view() =~= before.remove(k));
                        match taken {
                            Some(q) => {
                                return Some((QueryId(k), q));
                            },
                            None => {
                                assert(false);
                                return None;
                            },
                        }
                    }
                },
                None => {
                    assert(false);
                },
            }
            i = i + 1;
        }
        proof {
            assert forall|k: usize| #[trigger] self.view().contains_key(k) implies !finished(
                self.view()[k],
                providers_view(*providers),
            ) by {
                let j = lemma_key_index(keys@, k);
            }
        }
        None
    }

    /// Ends some query that is over, if there is one, as timed out.
    pub fn poll_all(&mut self, providers: &ProviderTable) -> (r: Option<QueryCompleted>)
        ensures
            final(self).next() == old(self).next(),
            match r {
                Some(c) => {
                    &&& old(self).view().contains_key(c.id.0)
                    &&& finished(old(self).view()[c.id.0], providers_view(*providers))
                    &&& final(self).view() == old(self).view().remove(c.id.0)
                    &&& c.result == match old(self).view()[c.id.0] {
                        QueryModel::Send { .. } => QueryResult::Send(QueryError::Timeout),
                        QueryModel::Want { .. } => QueryResult::Want(QueryError::Timeout),
                        QueryModel::Cancel { .. } => QueryResult::Cancel(QueryError::Timeout),
                    }
                },
                None => {
                    &&& final(self).view() == old(self).view()
                    &&& forall|k: usize| #[trigger]
                        old(self).view().contains_key(k) ==> !finished(
                            old(self).view()[k],
                            providers_view(*providers),
                        )
                },
            },
    {
        match self.next_finished_query(providers) {
            Some((id, query)) => {
                let result = match query {
                    Query::Send { .. } => QueryResult::Send(QueryError::Timeout),
                    Query::Want { .. } => QueryResult::Want(QueryError::Timeout),
                    Query::Cancel { .. } => QueryResult::Cancel(QueryError::Timeout),
                };
                Some(QueryCompleted { id, result })
            },
            None => None,
        }
    }
}

} // verus!
