//! The layout of a file as a balanced tree of blocks: the chunks of the file
//! are the leaves, and every stem links to at most `max_degrees` children.
//!
//! The tree is built as the chunks stream in, and each node is handed out as
//! soon as it is complete, children before parents, so that only the last
//! branch of the tree is kept. Encoding a node is left to the caller: the
//! builder says which node to encode next and is told the identifier and the
//! size of the result.
use vstd::prelude::*;
use std::collections::VecDeque;
use vstd::multiset::Multiset;

verus! {

/// A link to a node: its content identifier and the size of the subtree
/// below it, the node itself included.
#[derive(Debug, Clone, Copy, PartialEq, Eq)]
pub struct Link {
    pub cid: u64,
    pub tsize: u64,
}

/// Where the builder stands.
#[derive(Debug, Clone, Copy, PartialEq, Eq)]
pub enum Phase {
    /// Waiting for the next chunk or the end of the input.
    AwaitChunk,
    /// A full level of links is being encoded as a stem; `start_len` is the
    /// number of levels there were when the chunk arrived.
    Collapsing { level: usize, start_len: usize },
    /// The chunk is being encoded as a leaf.
    AwaitLeaf,
    /// The input ended; the open stems are being encoded from the bottom up.
    Finishing,
    Done,
}

/// What the caller reports to the builder.
#[derive(Debug, Clone, Copy, PartialEq, Eq)]
pub enum TreeEvent {
    /// A chunk of the input arrived.
    Chunk,
    /// The stem that was asked for was encoded: its identifier and its size.
    StemEncoded { cid: u64, encoded_len: u64 },
    /// The chunk was encoded as a leaf: its identifier and its size.
    LeafEncoded { cid: u64, encoded_len: u64 },
    /// The input ended.
    End,
}

/// What the builder asks of the caller.
#[derive(Debug, PartialEq, Eq)]
pub enum TreeAction {
    /// Encode a stem with these links, hand the node out, and report it.
    EncodeStem(Vec<Link>),
    /// Encode the chunk as a leaf, hand the node out, and report it.
    EncodeLeaf,
    /// Report the next chunk or the end of the input.
    AwaitChunk,
    /// The tree is complete; the last node handed out is its root.
    Done,
}

/// The total size of some links.
pub open spec fn links_size(ls: Seq<Link>) -> int
    decreases ls.len(),
{
    if ls.len() == 0 {
        0
    } else {
        links_size(ls.drop_last()) + ls.last().tsize
    }
}

/// The total size of the links of all levels.
pub open spec fn levels_size(ls: Seq<Seq<Link>>) -> int
    decreases ls.len(),
{
    if ls.len() == 0 {
        0
    } else {
        levels_size(ls.drop_last()) + links_size(ls.last())
    }
}

pub open spec fn levels_view(ls: Seq<Vec<Link>>) -> Seq<Seq<Link>> {
    ls.map_values(|v: Vec<Link>| v@)
}

/// The events that a phase accepts.
pub open spec fn accepts(phase: Phase, event: TreeEvent) -> bool {
    match phase {
        Phase::AwaitChunk => event is Chunk || event is End,
        Phase::Collapsing { .. } => event is StemEncoded,
        Phase::AwaitLeaf => event is LeafEncoded,
        Phase::Finishing => event is StemEncoded,
        Phase::Done => false,
    }
}

/// What the builder asks for, as a value.
pub enum ActionModel {
    EncodeStem(Seq<Link>),
    EncodeLeaf,
    AwaitChunk,
    Done,
}

pub open spec fn action_model(a: TreeAction) -> ActionModel {
    match a {
        TreeAction::EncodeStem(v) => ActionModel::EncodeStem(v@),
        TreeAction::EncodeLeaf => ActionModel::EncodeLeaf,
        TreeAction::AwaitChunk => ActionModel::AwaitChunk,
        TreeAction::Done => ActionModel::Done,
    }
}

/// Collapses level `i` into a stem: its links go to the caller, the level is
/// emptied, and a new top level is opened when `i` is the last of the
/// `start_len` levels there were when the chunk arrived.
pub open spec fn collapse(levels: Seq<Seq<Link>>, i: int, start_len: usize) -> (
    Seq<Seq<Link>>,
    Phase,
    ActionModel,
) {
    let grown = if i == start_len - 1 {
        levels.push(Seq::empty())
    } else {
        levels
    };
    (
        grown.update(i, Seq::empty()),
        Phase::Collapsing { level: i as usize, start_len },
        ActionModel::EncodeStem(levels[i]),
    )
}

/// The levels, the phase and the request after an event, given the levels,
/// the phase, the size of the links of the stem being encoded (`pending`), and
/// the degree of the tree.
pub open spec fn step_spec(
    levels: Seq<Seq<Link>>,
    phase: Phase,
    pending: int,
    max: usize,
    event: TreeEvent,
) -> (Seq<Seq<Link>>, Phase, ActionModel) {
    match (phase, event) {
        (Phase::AwaitChunk, TreeEvent::Chunk) => if levels[0].len() == max {
            collapse(levels, 0, levels.len() as usize)
        } else {
            (levels, Phase::AwaitLeaf, ActionModel::EncodeLeaf)
        },
        (Phase::Collapsing { level, start_len }, TreeEvent::StemEncoded { cid, encoded_len }) => {
            let link = Link { cid, tsize: (pending + encoded_len) as u64 };
            let next = level + 1;
            let grown = levels.update(next, levels[next].push(link));
            if next < start_len && grown[next].len() >= max {
                collapse(grown, next, start_len)
            } else {
                (grown, Phase::AwaitLeaf, ActionModel::EncodeLeaf)
            }
        },
        (Phase::AwaitLeaf, TreeEvent::LeafEncoded { cid, encoded_len }) => (
            levels.update(0, levels[0].push(Link { cid, tsize: encoded_len })),
            Phase::AwaitChunk,
            ActionModel::AwaitChunk,
        ),
        (Phase::AwaitChunk, TreeEvent::End) => if levels.len() == 1 && levels[0].len() == 1 {
            (levels, Phase::Done, ActionModel::Done)
        } else {
            (levels.drop_first(), Phase::Finishing, ActionModel::EncodeStem(levels[0]))
        },
        (Phase::Finishing, TreeEvent::StemEncoded { cid, encoded_len }) => {
            let link = Link { cid, tsize: (pending + encoded_len) as u64 };
            if levels.len() == 0 {
                (levels, Phase::Done, ActionModel::Done)
            } else {
                (levels.drop_first(), Phase::Finishing, ActionModel::EncodeStem(levels[0].push(link)))
            }
        },
        _ => (levels, phase, ActionModel::Done),
    }
}

/// Builds a balanced tree as the chunks stream in.
pub struct TreeBuilder {
    /// The links of the open node of each level, the leaves' level first.
    tree: VecDeque<Vec<Link>>,
    max_degrees: usize,
    phase: Phase,
    /// The size of the links of the stem being encoded.
    pending: u64,
    /// The size of all the nodes reported so far.
    emitted: u64,
}

/// A prefix of some links is no larger than all of them.
proof fn lemma_prefix_size(ls: Seq<Link>, i: int)
    requires
        0 <= i <= ls.len(),
    ensures
        0 <= links_size(ls.take(i)) <= links_size(ls),
    decreases ls.len(),
{
    if i == ls.len() {
        assert(ls.take(i) =~= ls);
        lemma_size_nonneg(ls);
    } else {
        lemma_prefix_size(ls.drop_last(), i);
        assert(ls.drop_last().take(i) =~= ls.take(i));
    }
}

proof fn lemma_size_nonneg(ls: Seq<Link>)
    ensures
        links_size(ls) >= 0,
    decreases ls.len(),
{
    if ls.len() > 0 {
        lemma_size_nonneg(ls.drop_last());
    }
}

proof fn lemma_levels_nonneg(ls: Seq<Seq<Link>>)
    ensures
        levels_size(ls) >= 0,
    decreases ls.len(),
{
    if ls.len() > 0 {
        lemma_levels_nonneg(ls.drop_last());
        lemma_size_nonneg(ls.last());
    }
}

/// The size of links with one more.
proof fn lemma_size_push(ls: Seq<Link>, l: Link)
    ensures
        links_size(ls.push(l)) == links_size(ls) + l.tsize,
{
    assert(ls.push(l).drop_last() =~= ls);
}

/// The size of levels where level `i` was replaced.
proof fn lemma_levels_update(ls: Seq<Seq<Link>>, i: int, v: Seq<Link>)
    requires
        0 <= i < ls.len(),
    ensures
        levels_size(ls.update(i, v)) == levels_size(ls) - links_size(ls[i]) + links_size(v),
    decreases ls.len(),
{
    if i < ls.len() - 1 {
        lemma_levels_update(ls.drop_last(), i, v);
        assert(ls.update(i, v).drop_last() =~= ls.drop_last().update(i, v));
    } else {
        assert(ls.update(i, v).drop_last() =~= ls.drop_last());
    }
}

/// The size of levels with an empty one on top.
proof fn lemma_levels_push_empty(ls: Seq<Seq<Link>>)
    ensures
        levels_size(ls.push(Seq::empty())) == levels_size(ls),
{
    assert(ls.push(Seq::empty()).drop_last() =~= ls);
}

/// The size of levels without the first.
proof fn lemma_levels_drop_first(ls: Seq<Seq<Link>>)
    requires
        ls.len() > 0,
    ensures
        levels_size(ls) == links_size(ls[0]) + levels_size(ls.drop_first()),
    decreases ls.len(),
{
    if ls.len() > 1 {
        lemma_levels_drop_first(ls.drop_last());
        assert(ls.drop_first().drop_last() =~= ls.drop_last().drop_first());
        assert(ls.drop_first().last() == ls.last());
        assert(ls.drop_last()[0] == ls[0]);
        assert(levels_size(ls.drop_first()) == levels_size(ls.drop_first().drop_last()) + links_size(
            ls.drop_first().last(),
        ));
    } else {
        assert(ls.drop_first().len() == 0);
        assert(ls.drop_last().len() == 0);
        assert(levels_size(ls.drop_last()) == 0);
        assert(levels_size(ls.drop_first()) == 0);
        assert(ls.last() == ls[0]);
    }
}

/// The total size of some links, which is at most `u64::MAX`.
fn sum_links(links: &Vec<Link>) -> (r: u64)
    requires
        links_size(links@) <= u64::MAX,
    ensures
        r == links_size(links@),
{
    let mut total: u64 = 0;
    let mut i: usize = 0;
    while i < links.len()
        invariant
            i <= links@.len(),
            total == links_size(links@.take(i as int)),
            links_size(links@) <= u64::MAX,
        decreases links@.len() - i,
    {
        assert(links@.take(i + 1).drop_last() =~= links@.take(i as int));
        proof {
            lemma_prefix_size(links@, i + 1);
        }
        total = total + links[i].tsize;
        i = i + 1;
    }
    assert(links@.take(links@.len() as int) =~= links@);
    total
}

/// A level is no larger than all levels together.
proof fn lemma_level_within(ls: Seq<Seq<Link>>, i: int)
    requires
        0 <= i < ls.len(),
    ensures
        0 <= links_size(ls[i]) <= levels_size(ls),
{
    lemma_levels_update(ls, i, Seq::empty());
    lemma_levels_nonneg(ls.update(i, Seq::empty()));
    lemma_size_nonneg(ls[i]);
    assert(links_size(Seq::<Link>::empty()) == 0);
}

/// Replaces level `i` of `tree` by `v`, and returns what it held.
fn replace_level(tree: &mut VecDeque<Vec<Link>>, i: usize, v: Vec<Link>) -> (r: Vec<Link>)
    requires
        i < old(tree)@.len(),
    ensures
        final(tree)@ == old(tree)@.update(i as int, v),
        r == old(tree)@[i as int],
{
    match tree.remove(i) {
        Some(old_level) => {
            tree.insert(i, v);
            assert(final(tree)@ =~= old(tree)@.update(i as int, v));
            old_level
        },
        None => {
            assert(false);
            v
        },
    }
}

impl TreeBuilder {
    /// The links of the open node of each level, the leaves' level first.
    pub closed spec fn levels(&self) -> Seq<Seq<Link>> {
        levels_view(self.tree@)
    }

    pub closed spec fn phase_of(&self) -> Phase {
        self.phase
    }

    /// The size of the links of the stem being encoded.
    pub closed spec fn pending_size(&self) -> int {
        self.pending as int
    }

    /// The most links that a stem has.
    pub closed spec fn degree(&self) -> usize {
        self.max_degrees
    }

    /// The size of all the nodes reported so far.
    pub closed spec fn emitted_size(&self) -> int {
        self.emitted as int
    }

    /// Until the tree is done, every node reported so far is accounted for
    /// exactly once: by a link of an open node or of the stem being encoded.
    pub closed spec fn wf(&self) -> bool {
        &&& self.phase !is Done ==> self.emitted == levels_size(self.levels()) + if self.phase is Collapsing
            || self.phase is Finishing {
            self.pending as int
        } else {
            0
        }
        &&& self.max_degrees >= 2 ==> self.degrees_ok()
        &&& match self.phase {
            Phase::AwaitChunk | Phase::AwaitLeaf => self.tree@.len() >= 1,
            Phase::Collapsing { level, start_len } => level < start_len && (if level + 1 == start_len {
                self.tree@.len() == start_len + 1
            } else {
                self.tree@.len() == start_len
            }),
            Phase::Finishing | Phase::Done => true,
        }
    }

    /// The open nodes have room for another link, but for the leaves' level
    /// while a chunk is awaited, which may be full; a level opened on top is
    /// empty until the stem below it is reported.
    pub closed spec fn degrees_ok(&self) -> bool {
        let ls = self.levels();
        let max = self.max_degrees;
        match self.phase {
            Phase::AwaitChunk => ls[0].len() <= max && forall|i: int| 1 <= i < ls.len() ==> #[trigger] ls[i].len() < max,
            Phase::Collapsing { level, start_len } => (forall|i: int| 0 <= i < ls.len() ==> #[trigger] ls[i].len() < max)
                && (level + 1 == start_len ==> ls[level + 1].len() == 0),
            Phase::AwaitLeaf | Phase::Finishing => forall|i: int| 0 <= i < ls.len() ==> #[trigger] ls[i].len() < max,
            Phase::Done => true,
        }
    }

    /// A builder of a tree whose stems link to at most `max_degrees` children.
    pub fn new(max_degrees: usize) -> (r: Self)
        ensures
            r.wf(),
            r.levels() == seq![Seq::<Link>::empty()],
            r.phase_of() == Phase::AwaitChunk,
            r.degree() == max_degrees,
            r.emitted_size() == 0,
    {
        let mut tree: VecDeque<Vec<Link>> = VecDeque::new();
        tree.push_back(Vec::new());
        let r = TreeBuilder { tree, max_degrees, phase: Phase::AwaitChunk, pending: 0, emitted: 0 };
        assert(r.levels() =~= seq![Seq::<Link>::empty()]);
        assert(levels_size(r.levels()) == levels_size(r.levels().drop_last()) + links_size(
            r.levels().last(),
        ));
        r
    }

    /// Where the builder stands.
    pub fn phase(&self) -> (r: Phase)
        ensures
            r == self.phase_of(),
    {
        self.phase
    }

    /// The size of all the nodes reported so far.
    pub fn emitted(&self) -> (r: u64)
        ensures
            r == self.emitted_size(),
    {
        self.emitted
    }

    /// Hands level `i` out as a stem.
    fn collapse_level(&mut self, i: usize, start_len: usize) -> (r: TreeAction)
        requires
            i < start_len == old(self).tree@.len(),
            old(self).max_degrees >= 2 ==> forall|j: int|
                0 <= j < old(self).tree@.len() && j != i ==> #[trigger] old(self).levels()[j].len()
                    < old(self).max_degrees,
            old(self).phase is AwaitChunk || old(self).phase is Collapsing,
            old(self).emitted == levels_size(old(self).levels()),
        ensures
            final(self).wf(),
            final(self).max_degrees == old(self).max_degrees,
            final(self).emitted == old(self).emitted,
            (final(self).levels(), final(self).phase, action_model(r)) == collapse(
                old(self).levels(),
                i as int,
                start_len,
            ),
            r matches TreeAction::EncodeStem(v) && final(self).pending == links_size(v@),
            r matches TreeAction::EncodeStem(v) && v@ == old(self).levels()[i as int],
    {
        let ghost before = self.levels();
        if i == start_len - 1 {
            self.tree.push_back(Vec::new());
            proof {
                lemma_levels_push_empty(before);
                assert(self.levels() =~= before.push(Seq::empty()));
            }
        }
        let ghost grown = self.levels();
        let links = replace_level(&mut self.tree, i, Vec::new());
        proof {
            lemma_level_within(grown, i as int);
            lemma_levels_update(grown, i as int, Seq::empty());
            assert(self.levels() =~= grown.update(i as int, Seq::empty()));
            assert(links_size(Seq::<Link>::empty()) == 0);
        }
        self.pending = sum_links(&links);
        self.phase = Phase::Collapsing { level: i, start_len };
        TreeAction::EncodeStem(links)
    }

    /// Handles an event and says what to do next.
    pub fn step(&mut self, event: TreeEvent) -> (r: TreeAction)
        requires
            old(self).wf(),
            accepts(old(self).phase_of(), event),
            event matches TreeEvent::StemEncoded { encoded_len, .. } ==> old(self).emitted_size()
                + encoded_len <= u64::MAX,
            event matches TreeEvent::LeafEncoded { encoded_len, .. } ==> old(self).emitted_size()
                + encoded_len <= u64::MAX,
        ensures
            final(self).wf(),
            final(self).degree() == old(self).degree(),
            (final(self).levels(), final(self).phase_of(), action_model(r)) == step_spec(
                old(self).levels(),
                old(self).phase_of(),
                old(self).pending_size(),
                old(self).degree(),
                event,
            ),
            final(self).emitted_size() == old(self).emitted_size() + match event {
                TreeEvent::StemEncoded { encoded_len, .. } => encoded_len as int,
                TreeEvent::LeafEncoded { encoded_len, .. } => encoded_len as int,
                _ => 0,
            },
            r matches TreeAction::EncodeStem(v) ==> final(self).pending_size() == links_size(v@),
            old(self).degree() >= 2 ==> (r matches TreeAction::EncodeStem(v) ==> v@.len()
                <= old(self).degree()),
            final(self).phase_of() is Finishing && final(self).levels().len() == 0 ==> (r matches TreeAction::EncodeStem(
                v,
            ) ==> links_size(v@) == final(self).emitted_size()),
    {
        match (self.phase, event) {
            (Phase::AwaitChunk, TreeEvent::Chunk) => {
                if self.tree[0].len() == self.max_degrees {
                    let n = self.tree.len();
                    self.collapse_level(0, n)
                } else {
                    self.phase = Phase::AwaitLeaf;
                    TreeAction::EncodeLeaf
                }
            },
            (Phase::Collapsing { level, start_len }, TreeEvent::StemEncoded { cid, encoded_len }) => {
                proof {
                    lemma_levels_nonneg(self.levels());
                }
                let link = Link { cid, tsize: self.pending + encoded_len };
                let next = level + 1;
                let ghost before = self.levels();
                let mut lvl = replace_level(&mut self.tree, next, Vec::new());
                let ghost old_lvl = lvl@;
                lvl.push(link);
                replace_level(&mut self.tree, next, lvl);
                self.emitted = self.emitted + encoded_len;
                proof {
                    assert(self.levels() =~= before.update(next as int, old_lvl.push(link)));
                    lemma_levels_update(before, next as int, old_lvl.push(link));
                    lemma_size_push(old_lvl, link);
                }
                if next < start_len && self.tree[next].len() >= self.max_degrees {
                    self.phase = Phase::AwaitChunk;
                    self.collapse_level(next, start_len)
                } else {
                    self.phase = Phase::AwaitLeaf;
                    TreeAction::EncodeLeaf
                }
            },
            (Phase::AwaitLeaf, TreeEvent::LeafEncoded { cid, encoded_len }) => {
                let link = Link { cid, tsize: encoded_len };
                let ghost before = self.levels();
                let mut lvl = replace_level(&mut self.tree, 0, Vec::new());
                let ghost old_lvl = lvl@;
                lvl.push(link);
                replace_level(&mut self.tree, 0, lvl);
                self.emitted = self.emitted + encoded_len;
                proof {
                    assert(self.levels() =~= before.update(0, old_lvl.push(link)));
                    lemma_levels_update(before, 0, old_lvl.push(link));
                    lemma_size_push(old_lvl, link);
                }
                self.phase = Phase::AwaitChunk;
                TreeAction::AwaitChunk
            },
            (Phase::AwaitChunk, TreeEvent::End) => {
                if self.tree.len() == 1 && self.tree[0].len() == 1 {
                    self.phase = Phase::Done;
                    TreeAction::Done
                } else {
                    let ghost before = self.levels();
                    match self.tree.pop_front() {
                        Some(front) => {
                            proof {
                                assert(self.levels() =~= before.drop_first());
                                lemma_levels_drop_first(before);
                                lemma_level_within(before, 0);
                            }
                            self.pending = sum_links(&front);
                            self.phase = Phase::Finishing;
                            TreeAction::EncodeStem(front)
                        },
                        None => {
                            assert(false);
                            TreeAction::Done
                        },
                    }
                }
            },
            (Phase::Finishing, TreeEvent::StemEncoded { cid, encoded_len }) => {
                proof {
                    lemma_levels_nonneg(self.levels());
                }
                let link = Link { cid, tsize: self.pending + encoded_len };
                self.emitted = self.emitted + encoded_len;
                let ghost before = self.levels();
                match self.tree.pop_front() {
                    Some(mut front) => {
                        let ghost old_front = front@;
                        front.push(link);
                        proof {
                            assert(self.levels() =~= before.drop_first());
                            lemma_levels_drop_first(before);
                            lemma_size_push(old_front, link);
                            lemma_levels_nonneg(before.drop_first());
                        }
                        self.pending = sum_links(&front);
                        TreeAction::EncodeStem(front)
                    },
                    None => {
                        self.phase = Phase::Done;
                        TreeAction::Done
                    },
                }
            },
            _ => {
                assert(false);
                TreeAction::Done
            },
        }
    }
}

/// The content identifiers that some links point to, each as often as it is
/// linked.
pub open spec fn cids_of(ls: Seq<Link>) -> Multiset<u64>
    decreases ls.len(),
{
    if ls.len() == 0 {
        Multiset::empty()
    } else {
        cids_of(ls.drop_last()).insert(ls.last().cid)
    }
}

/// The content identifiers that the open nodes of all levels link to.
pub open spec fn level_cids(levels: Seq<Seq<Link>>) -> Multiset<u64>
    decreases levels.len(),
{
    if levels.len() == 0 {
        Multiset::empty()
    } else {
        level_cids(levels.drop_last()).add(cids_of(levels.last()))
    }
}

/// The node that an event reports, if any.
pub open spec fn reported(event: TreeEvent) -> Multiset<u64> {
    match event {
        TreeEvent::StemEncoded { cid, .. } => Multiset::empty().insert(cid),
        TreeEvent::LeafEncoded { cid, .. } => Multiset::empty().insert(cid),
        _ => Multiset::empty(),
    }
}

/// The nodes that a request hands out as the links of a stem.
pub open spec fn handed(a: ActionModel) -> Multiset<u64> {
    match a {
        ActionModel::EncodeStem(v) => cids_of(v),
        _ => Multiset::empty(),
    }
}

/// The levels fit the phase: there is a leaves' level while chunks come in,
/// and while a level is collapsed the level above it exists.
pub open spec fn shape_ok(levels: Seq<Seq<Link>>, phase: Phase) -> bool {
    match phase {
        Phase::AwaitChunk | Phase::AwaitLeaf => levels.len() >= 1,
        Phase::Collapsing { level, start_len } => level < start_len && levels.len() == if level + 1
            == start_len {
            start_len + 1
        } else {
            start_len as int
        },
        Phase::Finishing | Phase::Done => true,
    }
}

proof fn lemma_cids_push(ls: Seq<Link>, l: Link)
    ensures
        cids_of(ls.push(l)) == cids_of(ls).insert(l.cid),
{
    broadcast use vstd::multiset::group_multiset_axioms;

    assert(ls.push(l).drop_last() =~= ls);
}

proof fn lemma_level_cids_update(ls: Seq<Seq<Link>>, i: int, v: Seq<Link>)
    requires
        0 <= i < ls.len(),
    ensures
        level_cids(ls.update(i, v)).add(cids_of(ls[i])) == level_cids(ls).add(cids_of(v)),
    decreases ls.len(),
{
    broadcast use vstd::multiset::group_multiset_axioms;

    let u = ls.update(i, v);
    assert(level_cids(u) == level_cids(u.drop_last()).add(cids_of(u.last())));
    assert(level_cids(ls) == level_cids(ls.drop_last()).add(cids_of(ls.last())));
    if i < ls.len() - 1 {
        lemma_level_cids_update(ls.drop_last(), i, v);
        assert(u.drop_last() =~= ls.drop_last().update(i, v));
        assert(u.last() == ls.last());
        assert(ls.drop_last()[i] == ls[i]);
        let a = level_cids(ls.drop_last().update(i, v));
        let b = level_cids(ls.drop_last());
        assert(a.add(cids_of(ls[i])) == b.add(cids_of(v)));
        assert forall|x: u64| #[trigger] level_cids(u).add(cids_of(ls[i])).count(x) == level_cids(
            ls,
        ).add(cids_of(v)).count(x) by {
            assert(a.add(cids_of(ls[i])).count(x) == b.add(cids_of(v)).count(x));
        }
        assert(level_cids(u).add(cids_of(ls[i])) =~= level_cids(ls).add(cids_of(v)));
    } else {
        assert(u.drop_last() =~= ls.drop_last());
        assert(u.last() == v);
        assert(ls.last() == ls[i]);
        assert(level_cids(u).add(cids_of(ls[i])) =~= level_cids(ls).add(cids_of(v)));
    }
}

proof fn lemma_level_cids_push_empty(ls: Seq<Seq<Link>>)
    ensures
        level_cids(ls.push(Seq::empty())) == level_cids(ls),
{
    broadcast use vstd::multiset::group_multiset_axioms;

    assert(ls.push(Seq::empty()).drop_last() =~= ls);
    assert(cids_of(Seq::<Link>::empty()) =~= Multiset::empty());
    assert(level_cids(ls.push(Seq::empty())) =~= level_cids(ls));
}

proof fn lemma_level_cids_drop_first(ls: Seq<Seq<Link>>)
    requires
        ls.len() > 0,
    ensures
        level_cids(ls) == cids_of(ls[0]).add(level_cids(ls.drop_first())),
    decreases ls.len(),
{
    broadcast use vstd::multiset::group_multiset_axioms;

    assert(level_cids(ls) == level_cids(ls.drop_last()).add(cids_of(ls.last())));
    if ls.len() > 1 {
        lemma_level_cids_drop_first(ls.drop_last());
        assert(ls.drop_first().drop_last() =~= ls.drop_last().drop_first());
        assert(ls.drop_first().last() == ls.last());
        assert(ls.drop_last()[0] == ls[0]);
        assert(level_cids(ls.drop_first()) == level_cids(ls.drop_first().drop_last()).add(
            cids_of(ls.drop_first().last()),
        ));
        assert(level_cids(ls) =~= cids_of(ls[0]).add(level_cids(ls.drop_first())));
    } else {
        assert(ls.drop_first().len() == 0);
        assert(ls.drop_last().len() == 0);
        assert(ls.last() == ls[0]);
        assert(level_cids(ls.drop_first()) == Multiset::<u64>::empty());
        assert(level_cids(ls.drop_last()) == Multiset::<u64>::empty());
        assert(level_cids(ls) =~= cids_of(ls[0]).add(level_cids(ls.drop_first())));
    }
}

/// Collapsing a level hands its links out and keeps the others.
proof fn lemma_collapse_cids(levels: Seq<Seq<Link>>, i: int, start_len: usize)
    requires
        0 <= i < levels.len(),
        i == start_len - 1 ==> i == levels.len() - 1,
    ensures
        ({
            let (l2, p2, a) = collapse(levels, i, start_len);
            level_cids(l2).add(handed(a)) == level_cids(levels)
        }),
{
    broadcast use vstd::multiset::group_multiset_axioms;

    let grown = if i == start_len - 1 {
        levels.push(Seq::empty())
    } else {
        levels
    };
    if i == start_len - 1 {
        lemma_level_cids_push_empty(levels);
        assert(grown[i] == levels[i]);
    }
    lemma_level_cids_update(grown, i, Seq::empty());
    assert(cids_of(Seq::<Link>::empty()) =~= Multiset::empty());
    assert(level_cids(grown.update(i, Seq::empty())).add(cids_of(levels[i])) =~= level_cids(
        grown,
    ).add(Multiset::empty()));
}

/// One step keeps every node accounted for exactly once: the nodes linked
/// from the open levels and those handed out in the requested stem are those
/// linked before and the node the event reports. The one exception is the
/// report of the root, which ends the tree (see
/// `lemma_root_is_linked_nowhere`). A step also keeps the levels fitting the
/// phase.
pub proof fn lemma_step_links_each_node_once(
    levels: Seq<Seq<Link>>,
    phase: Phase,
    pending: int,
    max: usize,
    event: TreeEvent,
)
    requires
        shape_ok(levels, phase),
        levels.len() < usize::MAX,
        accepts(phase, event),
        !(phase is Finishing && levels.len() == 0),
    ensures
        ({
            let (l2, p2, a) = step_spec(levels, phase, pending, max, event);
            &&& level_cids(l2).add(handed(a)) == level_cids(levels).add(reported(event))
            &&& shape_ok(l2, p2)
        }),
{
    broadcast use vstd::multiset::group_multiset_axioms;

    let (l2, p2, a) = step_spec(levels, phase, pending, max, event);
    match (phase, event) {
        (Phase::AwaitChunk, TreeEvent::Chunk) => {
            if levels[0].len() == max {
                lemma_collapse_cids(levels, 0, levels.len() as usize);
            }
            assert(level_cids(l2).add(handed(a)) =~= level_cids(levels).add(reported(event)));
        },
        (Phase::Collapsing { level, start_len }, TreeEvent::StemEncoded { cid, encoded_len }) => {
            let link = Link { cid, tsize: (pending + encoded_len) as u64 };
            let next = level + 1;
            let grown = levels.update(next as int, levels[next as int].push(link));
            lemma_cids_push(levels[next as int], link);
            lemma_level_cids_update(levels, next as int, levels[next as int].push(link));
            let c = cids_of(levels[next as int]);
            assert(level_cids(grown).add(c) == level_cids(levels).add(c.insert(cid)));
            assert forall|x: u64| #[trigger] level_cids(grown).count(x) == level_cids(levels).insert(
                cid,
            ).count(x) by {
                assert(level_cids(grown).add(c).count(x) == level_cids(levels).add(c.insert(cid)).count(
                    x,
                ));
            }
            assert(level_cids(grown) =~= level_cids(levels).insert(cid));
            if next < start_len && grown[next as int].len() >= max {
                lemma_collapse_cids(grown, next as int, start_len);
                let (l3, p3, a3) = collapse(grown, next as int, start_len);
                assert(level_cids(l3).add(handed(a3)) == level_cids(grown));
                assert(l2 == l3 && a == a3);
            }
            assert(level_cids(l2).add(handed(a)) =~= level_cids(levels).add(reported(event)));
        },
        (Phase::AwaitLeaf, TreeEvent::LeafEncoded { cid, encoded_len }) => {
            let link = Link { cid, tsize: encoded_len };
            lemma_cids_push(levels[0], link);
            lemma_level_cids_update(levels, 0, levels[0].push(link));
            let c = cids_of(levels[0]);
            assert(l2 == levels.update(0, levels[0].push(link)));
            assert(level_cids(l2).add(c) == level_cids(levels).add(c.insert(cid)));
            assert forall|x: u64| #[trigger] level_cids(l2).count(x) == level_cids(levels).insert(
                cid,
            ).count(x) by {
                assert(level_cids(l2).add(c).count(x) == level_cids(levels).add(c.insert(cid)).count(
                    x,
                ));
            }
            assert(level_cids(l2).add(handed(a)) =~= level_cids(levels).add(reported(event)));
        },
        (Phase::AwaitChunk, TreeEvent::End) => {
            if !(levels.len() == 1 && levels[0].len() == 1) {
                lemma_level_cids_drop_first(levels);
            }
            assert(level_cids(l2).add(handed(a)) =~= level_cids(levels).add(reported(event)));
        },
        (Phase::Finishing, TreeEvent::StemEncoded { cid, encoded_len }) => {
            let link = Link { cid, tsize: (pending + encoded_len) as u64 };
            lemma_level_cids_drop_first(levels);
            lemma_cids_push(levels[0], link);
            assert(level_cids(l2).add(handed(a)) =~= level_cids(levels).add(reported(event)));
        },
        _ => {},
    }
}

/// The report of the stem encoded last, when no open level is left, is the
/// root: the tree is done, and the root is linked from nowhere.
pub proof fn lemma_root_is_linked_nowhere(pending: int, max: usize, event: TreeEvent)
    requires
        accepts(Phase::Finishing, event),
    ensures
        ({
            let (l2, p2, a) = step_spec(Seq::<Seq<Link>>::empty(), Phase::Finishing, pending, max, event);
            &&& p2 is Done
            &&& l2.len() == 0
            &&& a is Done
        }),
{
    broadcast use vstd::multiset::group_multiset_axioms;

}

/// The state after a run of events from `levels` and `phase`: the levels,
/// the phase, the size of the links of the stem being encoded, and the
/// requests made, in order.
pub open spec fn run(
    levels: Seq<Seq<Link>>,
    phase: Phase,
    pending: int,
    max: usize,
    events: Seq<TreeEvent>,
) -> (Seq<Seq<Link>>, Phase, int, Seq<ActionModel>)
    decreases events.len(),
{
    if events.len() == 0 {
        (levels, phase, pending, Seq::empty())
    } else {
        let (l, p, pend, acts) = run(levels, phase, pending, max, events.drop_last());
        let (l2, p2, a) = step_spec(l, p, pend, max, events.last());
        (
            l2,
            p2,
            match a {
                ActionModel::EncodeStem(v) => links_size(v),
                _ => pend,
            },
            acts.push(a),
        )
    }
}

/// Each event of the run is one that the builder takes where it comes, and
/// the levels never number as many as a `usize` counts.
pub open spec fn run_accepted(
    levels: Seq<Seq<Link>>,
    phase: Phase,
    pending: int,
    max: usize,
    events: Seq<TreeEvent>,
) -> bool
    decreases events.len(),
{
    if events.len() == 0 {
        true
    } else {
        let (l, p, pend, acts) = run(levels, phase, pending, max, events.drop_last());
        &&& run_accepted(levels, phase, pending, max, events.drop_last())
        &&& accepts(p, events.last())
        &&& l.len() < usize::MAX
    }
}

/// The nodes that some events report.
pub open spec fn reported_all(events: Seq<TreeEvent>) -> Multiset<u64>
    decreases events.len(),
{
    if events.len() == 0 {
        Multiset::empty()
    } else {
        reported_all(events.drop_last()).add(reported(events.last()))
    }
}

/// The nodes that some requests hand out as links of stems.
pub open spec fn handed_all(acts: Seq<ActionModel>) -> Multiset<u64>
    decreases acts.len(),
{
    if acts.len() == 0 {
        Multiset::empty()
    } else {
        handed_all(acts.drop_last()).add(handed(acts.last()))
    }
}

/// The root, where the run ended the tree by reporting it.
pub open spec fn root_of(
    levels: Seq<Seq<Link>>,
    phase: Phase,
    pending: int,
    max: usize,
    events: Seq<TreeEvent>,
) -> Multiset<u64> {
    if events.len() == 0 {
        Multiset::empty()
    } else {
        let (l, p, pend, acts) = run(levels, phase, pending, max, events.drop_last());
        if p is Finishing && l.len() == 0 {
            reported(events.last())
        } else {
            Multiset::empty()
        }
    }
}

/// Over a whole run, every node that the caller reports is linked exactly
/// once: by a link of an open level or of a stem handed out, but for the
/// root that ends the tree, which is linked nowhere. From a new builder (one
/// empty level), the stems handed out and the open levels link every reported
/// node but the root, each as often as it was reported.
pub proof fn lemma_run_links_each_node_once(
    levels: Seq<Seq<Link>>,
    phase: Phase,
    pending: int,
    max: usize,
    events: Seq<TreeEvent>,
)
    requires
        shape_ok(levels, phase),
        run_accepted(levels, phase, pending, max, events),
    ensures
        ({
            let (l, p, pend, acts) = run(levels, phase, pending, max, events);
            &&& shape_ok(l, p)
            &&& level_cids(l).add(handed_all(acts)).add(root_of(levels, phase, pending, max, events))
                == level_cids(levels).add(reported_all(events))
        }),
    decreases events.len(),
{
    broadcast use vstd::multiset::group_multiset_axioms;

    if events.len() == 0 {
        assert(level_cids(levels).add(Multiset::empty()).add(Multiset::empty()) =~= level_cids(
            levels,
        ).add(Multiset::empty()));
    } else {
        let prefix = events.drop_last();
        let e = events.last();
        lemma_run_links_each_node_once(levels, phase, pending, max, prefix);
        let (l, p, pend, acts) = run(levels, phase, pending, max, prefix);
        let (l2, p2, a) = step_spec(l, p, pend, max, e);
        let (lf, pf, pendf, actsf) = run(levels, phase, pending, max, events);
        assert(lf == l2 && pf == p2 && actsf == acts.push(a));
        assert(acts.push(a).drop_last() =~= acts);
        assert(handed_all(actsf) == handed_all(acts).add(handed(a)));
        // the run so far did not end the tree, for the tree takes no event once done
        assert(root_of(levels, phase, pending, max, prefix) =~= Multiset::empty()) by {
            if prefix.len() > 0 {
                let (l0, p0, pend0, acts0) = run(levels, phase, pending, max, prefix.drop_last());
                if p0 is Finishing && l0.len() == 0 {
                    assert(run_accepted(levels, phase, pending, max, prefix));
                    assert(accepts(p0, prefix.last()));
                    lemma_root_is_linked_nowhere(pend0, max, prefix.last());
                    assert(l0 =~= Seq::<Seq<Link>>::empty());
                    assert(p is Done);
                    assert(false);
                }
            }
        }
        let before = level_cids(l).add(handed_all(acts));
        assert(before =~= level_cids(levels).add(reported_all(prefix)));
        assert(reported_all(events) == reported_all(prefix).add(reported(e)));
        if p is Finishing && l.len() == 0 {
            lemma_root_is_linked_nowhere(pend, max, e);
            assert(l =~= Seq::<Seq<Link>>::empty());
            assert(l2 == l);
            assert(handed(a) =~= Multiset::empty());
            assert forall|x: u64| #[trigger] level_cids(lf).add(handed_all(actsf)).add(reported(e)).count(
                x,
            ) == level_cids(levels).add(reported_all(events)).count(x) by {
                assert(before.count(x) == level_cids(levels).add(reported_all(prefix)).count(x));
            }
            assert(level_cids(lf).add(handed_all(actsf)).add(reported(e)) =~= level_cids(levels).add(
                reported_all(events),
            ));
        } else {
            lemma_step_links_each_node_once(l, p, pend, max, e);
            assert(level_cids(l2).add(handed(a)) == level_cids(l).add(reported(e)));
            assert forall|x: u64| #[trigger] level_cids(lf).add(handed_all(actsf)).add(
                root_of(levels, phase, pending, max, events),
            ).count(x) == level_cids(levels).add(reported_all(events)).count(x) by {
                assert(level_cids(l2).add(handed(a)).count(x) == level_cids(l).add(reported(e)).count(
                    x,
                ));
                assert(before.count(x) == level_cids(levels).add(reported_all(prefix)).count(x));
            }
            assert(level_cids(lf).add(handed_all(actsf)).add(
                root_of(levels, phase, pending, max, events),
            ) =~= level_cids(levels).add(reported_all(events)));
        }
    }
}

/// How many links the open node of each level holds, with stems of at most
/// `max` links: fewer than `max` on every level, but for the leaves' level
/// while a chunk is awaited, which may be full; a level opened on top while
/// collapsing is empty until the stem below it is reported.
pub open spec fn degrees_fit(levels: Seq<Seq<Link>>, phase: Phase, max: usize) -> bool {
    match phase {
        Phase::AwaitChunk => levels[0].len() <= max && forall|i: int|
            1 <= i < levels.len() ==> #[trigger] levels[i].len() < max,
        Phase::Collapsing { level, start_len } => (forall|i: int|
            0 <= i < levels.len() ==> #[trigger] levels[i].len() < max) && (level + 1 == start_len
            ==> levels[level + 1].len() == 0),
        Phase::AwaitLeaf | Phase::Finishing => forall|i: int|
            0 <= i < levels.len() ==> #[trigger] levels[i].len() < max,
        Phase::Done => true,
    }
}

/// A request for a stem asks for one of at most `max` links.
pub open spec fn stem_fits(a: ActionModel, max: usize) -> bool {
    a matches ActionModel::EncodeStem(v) ==> v.len() <= max
}

/// One step keeps every level within the degree, and the stem it asks for
/// has at most `max` links.
pub proof fn lemma_step_keeps_degrees(
    levels: Seq<Seq<Link>>,
    phase: Phase,
    pending: int,
    max: usize,
    event: TreeEvent,
)
    requires
        shape_ok(levels, phase),
        levels.len() < usize::MAX,
        degrees_fit(levels, phase, max),
        max >= 2,
        accepts(phase, event),
    ensures
        ({
            let (l2, p2, a) = step_spec(levels, phase, pending, max, event);
            degrees_fit(l2, p2, max) && stem_fits(a, max)
        }),
{
    let (l2, p2, a) = step_spec(levels, phase, pending, max, event);
    match (phase, event) {
        (Phase::AwaitChunk, TreeEvent::Chunk) => {
            if levels[0].len() == max {
                let grown = if 0 == levels.len() - 1 {
                    levels.push(Seq::empty())
                } else {
                    levels
                };
                assert(l2 == grown.update(0, Seq::empty()));
                assert forall|i: int| 0 <= i < l2.len() implies #[trigger] l2[i].len() < max by {
                    if i > 0 && i < levels.len() {
                        assert(l2[i] == levels[i]);
                    }
                }
            }
        },
        (Phase::Collapsing { level, start_len }, TreeEvent::StemEncoded { cid, encoded_len }) => {
            let link = Link { cid, tsize: (pending + encoded_len) as u64 };
            let next = level + 1;
            let grown = levels.update(next as int, levels[next as int].push(link));
            if next < start_len && grown[next as int].len() >= max {
                let g2 = if next == start_len - 1 {
                    grown.push(Seq::empty())
                } else {
                    grown
                };
                assert(l2 == g2.update(next as int, Seq::empty()));
                assert forall|i: int| 0 <= i < l2.len() implies #[trigger] l2[i].len() < max by {
                    if i != next && i < levels.len() {
                        assert(l2[i] == levels[i]);
                    }
                }
            } else {
                assert forall|i: int| 0 <= i < l2.len() implies #[trigger] l2[i].len() < max by {
                    if i != next {
                        assert(l2[i] == levels[i]);
                    }
                }
            }
        },
        (Phase::AwaitLeaf, TreeEvent::LeafEncoded { cid, encoded_len }) => {
            assert forall|i: int| 1 <= i < l2.len() implies #[trigger] l2[i].len() < max by {
                assert(l2[i] == levels[i]);
            }
        },
        (Phase::AwaitChunk, TreeEvent::End) => {
            if !(levels.len() == 1 && levels[0].len() == 1) {
                assert forall|i: int| 0 <= i < l2.len() implies #[trigger] l2[i].len() < max by {
                    assert(l2[i] == levels[i + 1]);
                }
            }
        },
        (Phase::Finishing, TreeEvent::StemEncoded { cid, encoded_len }) => {
            if levels.len() > 0 {
                assert forall|i: int| 0 <= i < l2.len() implies #[trigger] l2[i].len() < max by {
                    assert(l2[i] == levels[i + 1]);
                }
            }
        },
        _ => {},
    }
}

/// A new builder, with one empty level awaiting chunks, fits its phase and
/// the degree, and links nothing yet.
pub proof fn lemma_new_builder_fits(max: usize)
    ensures
        shape_ok(seq![Seq::<Link>::empty()], Phase::AwaitChunk),
        degrees_fit(seq![Seq::<Link>::empty()], Phase::AwaitChunk, max),
        level_cids(seq![Seq::<Link>::empty()]) == Multiset::<u64>::empty(),
{
    broadcast use vstd::multiset::group_multiset_axioms;

    let ls = seq![Seq::<Link>::empty()];
    assert(ls.drop_last() =~= Seq::<Seq<Link>>::empty());
    assert(ls.last() == Seq::<Link>::empty());
    assert(cids_of(Seq::<Link>::empty()) =~= Multiset::<u64>::empty());
    assert(level_cids(ls.drop_last()) =~= Multiset::<u64>::empty());
    assert(level_cids(ls) =~= Multiset::<u64>::empty());
}

/// Over a whole run, every stem asked for has at most `max` links, and the
/// open nodes keep to the degree.
pub proof fn lemma_run_keeps_degrees(
    levels: Seq<Seq<Link>>,
    phase: Phase,
    pending: int,
    max: usize,
    events: Seq<TreeEvent>,
)
    requires
        shape_ok(levels, phase),
        degrees_fit(levels, phase, max),
        max >= 2,
        run_accepted(levels, phase, pending, max, events),
    ensures
        ({
            let (l, p, pend, acts) = run(levels, phase, pending, max, events);
            &&& degrees_fit(l, p, max)
            &&& forall|j: int| 0 <= j < acts.len() ==> stem_fits(#[trigger] acts[j], max)
        }),
    decreases events.len(),
{
    if events.len() > 0 {
        let prefix = events.drop_last();
        lemma_run_keeps_degrees(levels, phase, pending, max, prefix);
        lemma_run_links_each_node_once(levels, phase, pending, max, prefix);
        let (l, p, pend, acts) = run(levels, phase, pending, max, prefix);
        lemma_step_keeps_degrees(l, p, pend, max, events.last());
        let (l2, p2, a) = step_spec(l, p, pend, max, events.last());
        let (lf, pf, pendf, actsf) = run(levels, phase, pending, max, events);
        assert(actsf == acts.push(a));
        assert forall|j: int| 0 <= j < actsf.len() implies stem_fits(#[trigger] actsf[j], max) by {
            if j < acts.len() {
                assert(actsf[j] == acts[j]);
            }
        }
    }
}

} // verus!
