//! The set of running blocks, and its two bulk operations: stopping every
//! block, and starting one block per configuration.
use vstd::prelude::*;

use crate::block::{Block, WorkerState};
use crate::config::TomlBlock;
use crate::protocol::{Body, BodyView};
use crate::text::opt_text_view;

verus! {

/// The ids `0, 1, ..., n - 1`.
pub open spec fn sequential_ids(n: nat) -> Seq<usize> {
    Seq::new(n, |i: int| i as usize)
}

/// The model of a [`Blocks`]: the ids of its active blocks, in bar order,
/// and the ids of the blocks that were cancelled but are not yet confirmed
/// stopped.
pub struct BlocksView {
    pub ids: Seq<usize>,
    pub stopping: Seq<usize>,
}

/// The ids of every block whose task may still run.
pub open spec fn live_ids(v: BlocksView) -> Seq<usize> {
    v.ids + v.stopping
}

/// No id occurs twice.
pub open spec fn distinct_ids(s: Seq<usize>) -> bool {
    forall|i: int, j: int| 0 <= i < j < s.len() ==> s[i] != s[j]
}

/// The invariant of the set: active blocks have the ids `0..n` in order, and
/// blocks of an earlier generation are only stopping while no block is
/// active.
pub open spec fn blocks_wf(v: BlocksView) -> bool {
    &&& v.ids.len() <= usize::MAX
    &&& v.ids == sequential_ids(v.ids.len())
    &&& v.ids.len() > 0 ==> v.stopping.len() == 0
    &&& distinct_ids(v.stopping)
}

/// The bulk operations on the set.
pub enum SetOp {
    /// Cancel every active block.
    RemoveAll,
    /// Every cancelled block has stopped.
    ConfirmStopped,
    /// Start this many blocks.
    AddAll(nat),
}

/// An operation may run: removal only once the previous one is confirmed,
/// and adding only on a set with no block active or stopping.
pub open spec fn op_enabled(v: BlocksView, op: SetOp) -> bool {
    match op {
        SetOp::RemoveAll => v.stopping.len() == 0,
        SetOp::ConfirmStopped => true,
        SetOp::AddAll(n) => v.ids.len() == 0 && v.stopping.len() == 0 && n <= usize::MAX,
    }
}

/// The set after an operation.
pub open spec fn op_result(v: BlocksView, op: SetOp) -> BlocksView {
    match op {
        SetOp::RemoveAll => BlocksView { ids: Seq::empty(), stopping: v.ids },
        SetOp::ConfirmStopped => BlocksView { ids: v.ids, stopping: Seq::empty() },
        SetOp::AddAll(n) => BlocksView { ids: sequential_ids(n), stopping: Seq::empty() },
    }
}

/// The set after a sequence of operations.
pub open spec fn run_ops(v: BlocksView, ops: Seq<SetOp>) -> BlocksView
    decreases ops.len(),
{
    if ops.len() == 0 {
        v
    } else {
        op_result(run_ops(v, ops.drop_last()), ops.last())
    }
}

/// Every operation of the sequence is enabled where it runs.
pub open spec fn ops_enabled(v: BlocksView, ops: Seq<SetOp>) -> bool {
    forall|k: int| 0 <= k < ops.len() ==> op_enabled(run_ops(v, ops.take(k)), #[trigger] ops[k])
}

/// Sequential ids that fit in `usize` are distinct.
pub proof fn lemma_sequential_ids_distinct(n: nat)
    requires
        n <= usize::MAX,
    ensures
        distinct_ids(sequential_ids(n)),
{
}

/// Every enabled operation keeps the invariant.
pub proof fn lemma_op_keeps_wf(v: BlocksView, op: SetOp)
    requires
        blocks_wf(v),
        op_enabled(v, op),
    ensures
        blocks_wf(op_result(v, op)),
{
    let r = op_result(v, op);
    match op {
        SetOp::RemoveAll => {
            assert(r.ids =~= sequential_ids(0));
            lemma_sequential_ids_distinct(v.ids.len());
        },
        SetOp::ConfirmStopped => {},
        SetOp::AddAll(n) => {},
    }
}

/// Under the invariant no two blocks that may run share an id.
pub proof fn lemma_wf_live_ids_distinct(v: BlocksView)
    requires
        blocks_wf(v),
    ensures
        distinct_ids(live_ids(v)),
{
    let l = live_ids(v);
    if v.ids.len() == 0 {
        assert(l =~= v.stopping);
    } else {
        assert(l =~= v.ids);
        lemma_sequential_ids_distinct(v.ids.len());
    }
}

/// For every sequence of enabled bulk operations, as reconfigurations make
/// them: at no point do two blocks that may run share an id, and blocks are
/// only added to a set in which no block of an earlier generation is still
/// active or stopping.
pub proof fn lemma_reconfigure_sequence_never_duplicates(v: BlocksView, ops: Seq<SetOp>)
    requires
        blocks_wf(v),
        ops_enabled(v, ops),
    ensures
        forall|k: int|
            0 <= k <= ops.len() ==> #[trigger] blocks_wf(run_ops(v, ops.take(k))) && distinct_ids(
                live_ids(run_ops(v, ops.take(k))),
            ),
        forall|k: int|
            0 <= k < ops.len() && #[trigger] ops[k] is AddAll ==> live_ids(
                run_ops(v, ops.take(k)),
            ).len() == 0,
    decreases ops.len(),
{
    if ops.len() > 0 {
        let prefix = ops.drop_last();
        assert forall|k: int| 0 <= k < prefix.len() implies op_enabled(
            run_ops(v, prefix.take(k)),
            #[trigger] prefix[k],
        ) by {
            assert(prefix.take(k) =~= ops.take(k));
            assert(prefix[k] == ops[k]);
        }
        lemma_reconfigure_sequence_never_duplicates(v, prefix);
        let n = ops.len() - 1;
        assert(ops.take(n) =~= prefix);
        assert(ops.take(n + 1) =~= ops);
        assert(op_enabled(run_ops(v, ops.take(n)), ops[n]));
        assert(blocks_wf(run_ops(v, prefix.take(prefix.len() as int))));
        assert(prefix.take(prefix.len() as int) =~= prefix);
        lemma_op_keeps_wf(run_ops(v, prefix), ops.last());
        assert(run_ops(v, ops) == op_result(run_ops(v, prefix), ops.last()));
        lemma_wf_live_ids_distinct(run_ops(v, ops));
        assert forall|k: int| 0 <= k <= ops.len() implies #[trigger] blocks_wf(
            run_ops(v, ops.take(k)),
        ) && distinct_ids(live_ids(run_ops(v, ops.take(k)))) by {
            if k < ops.len() {
                assert(prefix.take(k) =~= ops.take(k));
            }
        }
        assert forall|k: int|
            0 <= k < ops.len() && #[trigger] ops[k] is AddAll implies live_ids(
                run_ops(v, ops.take(k)),
            ).len() == 0 by {
            assert(op_enabled(run_ops(v, ops.take(k)), ops[k]));
        }
    } else {
        assert forall|k: int| 0 <= k <= ops.len() implies #[trigger] blocks_wf(
            run_ops(v, ops.take(k)),
        ) && distinct_ids(live_ids(run_ops(v, ops.take(k)))) by {
            assert(ops.take(k) =~= ops);
            lemma_wf_live_ids_distinct(v);
        }
    }
}

/// A copy of a body.
pub fn copy_body(b: &Body) -> (r: Body)
    ensures
        r@ == b@,
{
    Body {
        full_text: copy_text(&b.full_text),
        short_text: copy_text(&b.short_text),
        color: copy_text(&b.color),
        background: copy_text(&b.background),
        border: copy_text(&b.border),
        border_top: b.border_top,
        border_bottom: b.border_bottom,
        border_left: b.border_left,
        border_right: b.border_right,
        min_width: copy_text(&b.min_width),
        align: b.align,
        name: copy_text(&b.name),
        instance: copy_text(&b.instance),
        urgent: b.urgent,
        separator: b.separator,
        separator_block_width: b.separator_block_width,
        markup: b.markup,
    }
}

fn copy_text(o: &Option<String>) -> (r: Option<String>)
    ensures
        opt_text_view(r) == opt_text_view(*o),
{
    match o {
        Some(s) => Some(s.clone()),
        None => None,
    }
}

/// `h` is what `spawn` returned for an idle, well-formed block with the id
/// `id`, configured by `toml` under the global body `global`.
pub open spec fn started_block<F: Fn(Block) -> H, H>(
    spawn: F,
    id: int,
    toml: TomlBlock,
    global: BodyView,
    h: H,
) -> bool {
    exists|b: Block|
        {
            &&& b.wf()
            &&& b@.id == id
            &&& b@.toml == toml
            &&& b@.global_body == global
            &&& b@.state == WorkerState::Idle
            &&& #[trigger] spawn.ensures((b,), h)
        }
}

/// The running blocks of the bar. Each active block has its id, its
/// position in the bar, and the handle `H` by which its task is reached.
pub struct Blocks<H> {
    inner: Vec<(usize, H)>,
    stopping: Vec<usize>,
}

impl<H> View for Blocks<H> {
    type V = BlocksView;

    closed spec fn view(&self) -> BlocksView {
        BlocksView { ids: self.inner@.map_values(|e: (usize, H)| e.0), stopping: self.stopping@ }
    }
}

impl<H> Blocks<H> {
    /// Well-formed (see [`blocks_wf`]).
    pub open spec fn wf(&self) -> bool {
        blocks_wf(self@)
    }

    /// The handles of the active blocks, in bar order.
    pub closed spec fn handles(&self) -> Seq<H> {
        self.inner@.map_values(|e: (usize, H)| e.1)
    }

    /// An empty set.
    pub fn new() -> (r: Blocks<H>)
        ensures
            r.wf(),
            r@.ids.len() == 0,
            r@.stopping.len() == 0,
    {
        let r = Blocks { inner: Vec::new(), stopping: Vec::new() };
        proof {
            assert(r@.ids =~= sequential_ids(0));
        }
        r
    }

    /// The number of active blocks.
    pub fn len(&self) -> (r: usize)
        ensures
            r == self@.ids.len(),
    {
        self.inner.len()
    }

    /// The handle of the active block at position `i`.
    pub fn handle(&self, i: usize) -> (r: &H)
        requires
            i < self@.ids.len(),
        ensures
            *r == self.handles()[i as int],
    {
        &self.inner[i].1
    }

    /// Cancels every active block: hands back their handles, in bar order,
    /// so that the caller cancels each block's token and awaits its task.
    /// Their ids count as stopping until [`Blocks::confirm_stopped`].
    pub fn remove_all(&mut self) -> (r: Vec<H>)
        requires
            old(self).wf(),
            op_enabled(old(self)@, SetOp::RemoveAll),
        ensures
            final(self).wf(),
            final(self)@ == op_result(old(self)@, SetOp::RemoveAll),
            r@ == old(self).handles(),
    {
        let ghost old_ids = self@.ids;
        let ghost old_handles = self.handles();
        let mut handles: Vec<H> = Vec::new();
        let mut stopping: Vec<usize> = Vec::new();
        let mut inner = Vec::new();
        core::mem::swap(&mut inner, &mut self.inner);
        let ghost entries = inner@;
        let n = inner.len();
        let mut i: usize = 0;
        let mut rest = inner;
        proof {
            assert(rest@ =~= entries.skip(0));
        }
        while i < n
            invariant
                n == entries.len(),
                i <= n,
                rest@ == entries.skip(i as int),
                handles@ == entries.take(i as int).map_values(|e: (usize, H)| e.1),
                stopping@ == entries.take(i as int).map_values(|e: (usize, H)| e.0),
            decreases n - i,
        {
            let (id, h) = rest.remove(0);
            proof {
                assert(entries[i as int] == (id, h));
            }
            handles.push(h);
            stopping.push(id);
            proof {
                assert(rest@ =~= entries.skip(i + 1));
                assert(handles@ =~= entries.take(i + 1).map_values(|e: (usize, H)| e.1));
                assert(stopping@ =~= entries.take(i + 1).map_values(|e: (usize, H)| e.0));
            }
            i += 1;
        }
        proof {
            assert(entries.take(n as int) =~= entries);
        }
        self.stopping = stopping;
        proof {
            lemma_sequential_ids_distinct(old_ids.len());
            assert(self@.ids =~= Seq::<usize>::empty());
            assert(self@.ids =~= sequential_ids(0));
            assert(self@.stopping =~= old_ids);
            assert(handles@ =~= old_handles);
        }
        handles
    }

    /// Records that every cancelled block's task has stopped.
    pub fn confirm_stopped(&mut self)
        requires
            old(self).wf(),
        ensures
            final(self).wf(),
            final(self)@ == op_result(old(self)@, SetOp::ConfirmStopped),
            final(self).handles() == old(self).handles(),
    {
        self.stopping = Vec::new();
        proof {
            assert(self@.stopping =~= Seq::<usize>::empty());
        }
    }

    /// Starts one block per configuration, in order, with ids `0, 1, ...`:
    /// `spawn` starts a block's task and returns its handle. Only a set with
    /// no block active or stopping takes new blocks.
    pub fn add_all<F: Fn(Block) -> H>(&mut self, tomls: Vec<TomlBlock>, global_body: &Body, spawn: F)
        requires
            old(self).wf(),
            op_enabled(old(self)@, SetOp::AddAll(tomls@.len())),
            forall|b: Block| #[trigger] spawn.requires((b,)),
        ensures
            final(self).wf(),
            final(self)@ == op_result(old(self)@, SetOp::AddAll(tomls@.len())),
            forall|i: int|
                0 <= i < tomls@.len() ==> #[trigger] started_block(
                    spawn,
                    i,
                    tomls@[i],
                    global_body@,
                    final(self).handles()[i],
                ),
    {
        let ghost configs = tomls@;
        let num_blocks = tomls.len();
        let mut rest = tomls;
        let mut id: usize = 0;
        proof {
            assert(rest@ =~= configs.skip(0));
            assert(self.inner@ =~= Seq::<(usize, H)>::empty());
        }
        while id < num_blocks
            invariant
                num_blocks == configs.len(),
                id <= num_blocks,
                rest@ == configs.skip(id as int),
                self.stopping@.len() == 0,
                self.inner@.len() == id,
                forall|j: int| 0 <= j < id ==> (#[trigger] self.inner@[j]).0 == j,
                forall|b: Block| #[trigger] spawn.requires((b,)),
                forall|j: int|
                    0 <= j < id ==> #[trigger] started_block(
                        spawn,
                        j,
                        configs[j],
                        global_body@,
                        self.inner@[j].1,
                    ),
            decreases num_blocks - id,
        {
            let toml = rest.remove(0);
            proof {
                assert(toml == configs[id as int]);
                assert(rest@ =~= configs.skip(id + 1));
            }
            let block = Block::new(toml, copy_body(global_body), id, num_blocks);
            let ghost b = block;
            let handle = spawn(block);
            self.inner.push((id, handle));
            proof {
                assert(self.inner@[id as int].1 == handle);
                assert(spawn.ensures((b,), self.inner@[id as int].1));
                assert(started_block(spawn, id as int, configs[id as int], global_body@, handle));
            }
            id += 1;
        }
        proof {
            assert(self@.ids =~= sequential_ids(num_blocks as nat));
            assert(self@.stopping =~= Seq::<usize>::empty());
            assert forall|i: int| 0 <= i < configs.len() implies #[trigger] started_block(
                spawn,
                i,
                configs[i],
                global_body@,
                self.handles()[i],
            ) by {
                assert(self.handles()[i] == self.inner@[i].1);
            }
        }
    }
}

} // verus!
