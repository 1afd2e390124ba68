//! The leader/block builder and the per-method driver: splits a method's
//! instruction stream into basic blocks from branch-target analysis, then
//! simulates each block's operand stack, threading entry shapes from
//! predecessor exit shapes and re-validating loop back-edges.

use vstd::prelude::*;
use crate::effect::{block_address, generate_stack, spec_entry_shape, spec_run_block};
use crate::error::{ErrorKind, Failure};
use crate::instruction::{
    Instruction, spec_falls_through, spec_is_terminator, spec_marks_successor, spec_targets,
};
use crate::pool::{ConstPool, PoolEntry};
use crate::stack::{Stack, StackShape, copy_values, entry_values, stacks_agree, values_equal};
use crate::value::Value;

verus! {

/// Addresses strictly increase along the stream.
pub open spec fn well_ordered(stream: Seq<(u32, Instruction)>) -> bool {
    forall|i: int, j: int|
        #![trigger stream[i], stream[j]]
        0 <= i < j < stream.len() ==> stream[i].0 < stream[j].0
}

/// Adjacent order extends to every pair.
proof fn lemma_pair_ordered(stream: Seq<(u32, Instruction)>, i: int, j: int)
    requires
        forall|t: int|
            #![trigger stream[t]]
            0 <= t && t + 1 < stream.len() ==> stream[t].0 < stream[t + 1].0,
        0 <= i < j < stream.len(),
    ensures
        stream[i].0 < stream[j].0,
    decreases j - i,
{
    if i + 1 < j {
        lemma_pair_ordered(stream, i, j - 1);
    }
}

/// A stream whose every adjacent pair is ordered is well ordered.
proof fn lemma_adj_ordered(stream: Seq<(u32, Instruction)>)
    requires
        forall|t: int|
            #![trigger stream[t]]
            0 <= t && t + 1 < stream.len() ==> stream[t].0 < stream[t + 1].0,
    ensures
        well_ordered(stream),
{
    assert forall|i: int, j: int|
        #![trigger stream[i], stream[j]]
        0 <= i < j < stream.len() implies stream[i].0 < stream[j].0 by {
        lemma_pair_ordered(stream, i, j);
    }
}

/// Whether the instruction at index `i` begins a basic block: index 0 of
/// the method, an exception-handler entry address, a branch target of any
/// instruction, or the instruction after one that marks its successor
/// (every control transfer, and the narrowing cast). A computed target
/// that matches no instruction start is discarded by construction, since
/// only stream indices are considered.
pub open spec fn is_leader_index(stream: Seq<(u32, Instruction)>, handlers: Seq<u32>, i: int) -> bool {
    0 <= i < stream.len() && {
        ||| stream[i].0 == 0
        ||| handlers.contains(stream[i].0)
        ||| exists|j: int| 0 <= j < stream.len() && #[trigger] spec_targets(stream[j].1).contains(stream[i].0)
        ||| (i > 0 && spec_marks_successor(stream[i - 1].1))
    }
}

/// Where the block beginning at index `start` ends (exclusive): grow
/// forward until the current instruction itself transfers control (it is
/// included), or the next instruction begins a new block, or the stream
/// ends.
pub open spec fn block_end(stream: Seq<(u32, Instruction)>, handlers: Seq<u32>, start: int) -> int
    decreases stream.len() - start,
{
    if start < 0 || start >= stream.len() {
        start
    } else if spec_is_terminator(stream[start].1) {
        start + 1
    } else if start + 1 >= stream.len() {
        start + 1
    } else if is_leader_index(stream, handlers, start + 1) {
        start + 1
    } else {
        block_end(stream, handlers, start + 1)
    }
}

/// A block's end lies after its start and within the stream.
proof fn lemma_block_end_bounds(stream: Seq<(u32, Instruction)>, handlers: Seq<u32>, start: int)
    requires
        0 <= start < stream.len(),
    ensures
        start < block_end(stream, handlers, start) <= stream.len(),
    decreases stream.len() - start,
{
    if !spec_is_terminator(stream[start].1) && start + 1 < stream.len() && !is_leader_index(
        stream,
        handlers,
        start + 1,
    ) {
        lemma_block_end_bounds(stream, handlers, start + 1);
    }
}

/// One basic block: a sub-range of the instruction stream, by index, with
/// the address of its first instruction.
#[derive(Clone, Copy, Debug, PartialEq, Eq, Structural)]
pub struct Block {
    /// Index of the block's first instruction in the stream.
    pub start: usize,
    /// Index one past the block's last instruction.
    pub end: usize,
    /// Bytecode address of the block's first instruction.
    pub address: u32,
}

/// The blocks whose leaders lie at index `i` or later, in index order.
pub open spec fn blocks_from(stream: Seq<(u32, Instruction)>, handlers: Seq<u32>, i: int) -> Seq<
    Block,
>
    decreases stream.len() - i,
{
    if i < 0 || i >= stream.len() {
        Seq::empty()
    } else if is_leader_index(stream, handlers, i) {
        seq![
            Block {
                start: i as usize,
                end: block_end(stream, handlers, i) as usize,
                address: stream[i].0,
            },
        ] + blocks_from(stream, handlers, i + 1)
    } else {
        blocks_from(stream, handlers, i + 1)
    }
}

/// The basic blocks of a well-ordered stream, in address order.
pub open spec fn spec_blocks(stream: Seq<(u32, Instruction)>, handlers: Seq<u32>) -> Seq<Block> {
    blocks_from(stream, handlers, 0)
}

/// A block fits the stream: non-empty range in bounds, address taken from
/// its first instruction, and its range is exactly the grown block.
pub open spec fn block_wf(stream: Seq<(u32, Instruction)>, handlers: Seq<u32>, b: Block) -> bool {
    &&& b.start < b.end <= stream.len()
    &&& b.address == stream[b.start as int].0
    &&& is_leader_index(stream, handlers, b.start as int)
    &&& b.end as int == block_end(stream, handlers, b.start as int)
}

/// Every listed block is well formed and their starts strictly increase.
proof fn lemma_blocks_from_wf(stream: Seq<(u32, Instruction)>, handlers: Seq<u32>, i: int)
    requires
        stream.len() <= usize::MAX,
    ensures
        forall|k: int|
            0 <= k < blocks_from(stream, handlers, i).len() ==> block_wf(
                stream,
                handlers,
                #[trigger] blocks_from(stream, handlers, i)[k],
            ) && i <= blocks_from(stream, handlers, i)[k].start,
        forall|k: int|
            0 <= k && k + 1 < blocks_from(stream, handlers, i).len()
                ==> #[trigger] blocks_from(stream, handlers, i)[k].start < blocks_from(
                stream,
                handlers,
                i,
            )[k + 1].start,
    decreases stream.len() - i,
{
    if 0 <= i < stream.len() {
        lemma_blocks_from_wf(stream, handlers, i + 1);
        let rest = blocks_from(stream, handlers, i + 1);
        let cur = blocks_from(stream, handlers, i);
        if is_leader_index(stream, handlers, i) {
            lemma_block_end_bounds(stream, handlers, i);
            let b0 = Block {
                start: i as usize,
                end: block_end(stream, handlers, i) as usize,
                address: stream[i].0,
            };
            assert(cur == seq![b0] + rest);
            assert forall|k: int| 0 <= k < cur.len() implies block_wf(
                stream,
                handlers,
                #[trigger] cur[k],
            ) && i <= cur[k].start by {
                assert(cur == seq![b0] + rest);
                assert(cur.len() == 1 + rest.len());
                if k > 0 {
                    assert((seq![b0] + rest)[k] == rest[k - 1]);
                    assert(block_wf(stream, handlers, rest[k - 1]));
                } else {
                    assert((seq![b0] + rest)[0] == b0);
                }
            }
            assert forall|k: int| 0 <= k && k + 1 < cur.len() implies #[trigger] cur[k].start
                < cur[k + 1].start by {
                assert(cur == seq![b0] + rest);
                assert(cur.len() == 1 + rest.len());
                if k == 0 {
                    assert((seq![b0] + rest)[0] == b0);
                    assert((seq![b0] + rest)[1] == rest[0]);
                    assert(i + 1 <= rest[0].start);
                } else {
                    assert((seq![b0] + rest)[k] == rest[k - 1]);
                    assert((seq![b0] + rest)[k + 1] == rest[k]);
                    assert(rest[k - 1].start < rest[k].start);
                }
            }
        } else {
            assert(cur == rest);
            assert forall|k: int| 0 <= k < cur.len() implies block_wf(
                stream,
                handlers,
                #[trigger] cur[k],
            ) && i <= cur[k].start by {
                assert(cur[k] == rest[k]);
                assert(block_wf(stream, handlers, rest[k]));
            }
        }
    }
}

/// Control may pass from the block `from` to the block starting at
/// `to_address`: the last instruction branches there, or it can fall
/// through and the next instruction sits at that address.
pub open spec fn spec_edge(stream: Seq<(u32, Instruction)>, from: Block, to_address: u32) -> bool {
    let last = stream[from.end - 1].1;
    ||| spec_targets(last).contains(to_address)
    ||| (spec_falls_through(last) && from.end < stream.len() && stream[from.end as int].0
        == to_address)
}

/// Block `k` has at least one predecessor among the blocks before it.
pub open spec fn has_forward_pred(
    stream: Seq<(u32, Instruction)>,
    blocks: Seq<Block>,
    k: int,
) -> bool {
    exists|j: int| 0 <= j < k && #[trigger] spec_edge(stream, blocks[j], blocks[k].address)
}

/// All of block `k`'s earlier predecessors agree on their exit contents.
pub open spec fn shapes_entry_agree(
    stream: Seq<(u32, Instruction)>,
    blocks: Seq<Block>,
    shapes: Seq<StackShape>,
    k: int,
) -> bool {
    forall|j1: int, j2: int|
        #![trigger spec_edge(stream, blocks[j1], blocks[k].address), spec_edge(stream, blocks[j2], blocks[k].address)]
        (0 <= j1 < k && 0 <= j2 < k && spec_edge(stream, blocks[j1], blocks[k].address) && spec_edge(
            stream,
            blocks[j2],
            blocks[k].address,
        )) ==> shapes[j1].values == shapes[j2].values
}

/// The stack contents block `k` inherits: its earlier predecessors'
/// common exit contents, or nothing without a predecessor.
pub open spec fn shapes_entry_vals(
    stream: Seq<(u32, Instruction)>,
    blocks: Seq<Block>,
    shapes: Seq<StackShape>,
    k: int,
) -> Seq<Value> {
    if has_forward_pred(stream, blocks, k) {
        shapes[
            choose|j: int| 0 <= j < k && #[trigger] spec_edge(stream, blocks[j], blocks[k].address)
        ].values
    } else {
        Seq::empty()
    }
}

/// The first pass of the driver over blocks `0 .. k`, in address order:
/// each block starts from its earlier predecessors' merged exit contents
/// — a disagreement is a stack-shape mismatch at the block's address —
/// and is simulated by the effect table.
pub open spec fn spec_drive(
    stream: Seq<(u32, Instruction)>,
    blocks: Seq<Block>,
    pool: Seq<PoolEntry>,
    k: int,
) -> Result<Seq<StackShape>, Failure>
    decreases k,
{
    if k <= 0 {
        Ok(Seq::empty())
    } else {
        match spec_drive(stream, blocks, pool, k - 1) {
            Err(f) => Err(f),
            Ok(shapes) => if !shapes_entry_agree(stream, blocks, shapes, k - 1) {
                Err(
                    Failure {
                        address: blocks[k - 1].address,
                        kind: ErrorKind::StackShapeMismatch,
                    },
                )
            } else {
                let entry = shapes_entry_vals(stream, blocks, shapes, k - 1);
                match spec_run_block(
                    StackShape { inputs: entry, values: entry },
                    stream.subrange(blocks[k - 1].start as int, blocks[k - 1].end as int),
                    pool,
                ) {
                    Ok(sh) => Ok(shapes.push(sh)),
                    Err(f) => Err(f),
                }
            },
        }
    }
}

/// A failed first pass stays failed however far it is extended.
proof fn lemma_drive_err_extends(
    stream: Seq<(u32, Instruction)>,
    blocks: Seq<Block>,
    pool: Seq<PoolEntry>,
    k1: int,
    k2: int,
)
    requires
        0 <= k1 <= k2,
        spec_drive(stream, blocks, pool, k1) is Err,
    ensures
        spec_drive(stream, blocks, pool, k2) == spec_drive(stream, blocks, pool, k1),
    decreases k2 - k1,
{
    if k1 < k2 {
        lemma_drive_err_extends(stream, blocks, pool, k1, k2 - 1);
    }
}

/// Checks that addresses strictly increase along the stream, reporting
/// the first instruction that breaks the order.
fn check_ordered(stream: &[(u32, Instruction)]) -> (r: Result<(), Failure>)
    ensures
        match r {
            Ok(_) => well_ordered(stream@),
            Err(f) => !well_ordered(stream@) && f.kind == ErrorKind::InvalidOrdering
                && exists|k: int|
                #![trigger stream@[k]]
                0 <= k && k + 1 < stream@.len() && stream@[k + 1].0 <= stream@[k].0 && f.address
                    == stream@[k + 1].0 && (forall|i: int|
                    #![trigger stream@[i]]
                    0 <= i < k ==> stream@[i].0 < stream@[i + 1].0),
        },
{
    let n: usize = stream.len();
    if n == 0 {
        proof {
            lemma_adj_ordered(stream@);
        }
        return Ok(());
    }
    let mut i: usize = 0;
    while i < n - 1
        invariant
            n == stream@.len(),
            n >= 1,
            i <= n - 1,
            forall|t: int| #![trigger stream@[t]] 0 <= t < i ==> stream@[t].0 < stream@[t + 1].0,
        decreases stream@.len() - i,
    {
        if stream[i + 1].0 <= stream[i].0 {
            proof {
                assert(!well_ordered(stream@));
            }
            return Err(Failure { address: stream[i + 1].0, kind: ErrorKind::InvalidOrdering });
        }
        i += 1;
    }
    proof {
        lemma_adj_ordered(stream@);
    }
    Ok(())
}

/// Whether `a` occurs in the handler list.
fn contains_u32(handlers: &[u32], a: u32) -> (r: bool)
    ensures
        r == handlers@.contains(a),
{
    let mut i: usize = 0;
    while i < handlers.len()
        invariant
            i <= handlers@.len(),
            forall|t: int| 0 <= t < i ==> handlers@[t] != a,
        decreases handlers@.len() - i,
    {
        if handlers[i] == a {
            return true;
        }
        i += 1;
    }
    false
}

/// Whether `a` is a branch target of any instruction in the stream.
fn is_stream_target(stream: &[(u32, Instruction)], a: u32) -> (r: bool)
    ensures
        r == exists|j: int|
            0 <= j < stream@.len() && #[trigger] spec_targets(stream@[j].1).contains(a),
{
    let mut j: usize = 0;
    while j < stream.len()
        invariant
            j <= stream@.len(),
            forall|t: int| 0 <= t < j ==> !(#[trigger] spec_targets(stream@[t].1).contains(a)),
        decreases stream@.len() - j,
    {
        if stream[j].1.has_target(a) {
            return true;
        }
        j += 1;
    }
    false
}

/// Whether the instruction at index `i` begins a basic block.
fn leader_at(stream: &[(u32, Instruction)], handlers: &[u32], i: usize) -> (r: bool)
    requires
        i < stream@.len(),
    ensures
        r == is_leader_index(stream@, handlers@, i as int),
{
    let a = stream[i].0;
    if a == 0 {
        return true;
    }
    if contains_u32(handlers, a) {
        return true;
    }
    if is_stream_target(stream, a) {
        return true;
    }
    if i > 0 && stream[i - 1].1.marks_successor() {
        return true;
    }
    false
}

/// Grows the block beginning at index `start` forward to its end.
fn scan_end(stream: &[(u32, Instruction)], handlers: &[u32], start: usize) -> (end: usize)
    requires
        start < stream@.len(),
    ensures
        end as int == block_end(stream@, handlers@, start as int),
        start < end <= stream@.len(),
{
    let n: usize = stream.len();
    let mut j: usize = start;
    loop
        invariant
            n == stream@.len(),
            start <= j < n,
            block_end(stream@, handlers@, start as int) == block_end(
                stream@,
                handlers@,
                j as int,
            ),
        ensures
            n == stream@.len(),
            j < n,
            block_end(stream@, handlers@, start as int) == j + 1,
        decreases stream@.len() - j,
    {
        if stream[j].1.is_terminator() {
            break;
        }
        if j + 1 >= stream.len() {
            break;
        }
        if leader_at(stream, handlers, j + 1) {
            break;
        }
        j += 1;
    }
    j + 1
}

/// Splits the stream into basic blocks: every leader index begins one,
/// and each grows forward until a control transfer or the next leader.
/// Fails, with the offending address, if the stream is out of order.
pub fn build_blocks(stream: &[(u32, Instruction)], handlers: &[u32]) -> (r: Result<
    Vec<Block>,
    Failure,
>)
    ensures
        match r {
            Ok(blocks) => well_ordered(stream@) && blocks@ == spec_blocks(stream@, handlers@),
            Err(f) => !well_ordered(stream@) && f.kind == ErrorKind::InvalidOrdering
                && exists|k: int|
                #![trigger stream@[k]]
                0 <= k && k + 1 < stream@.len() && stream@[k + 1].0 <= stream@[k].0 && f.address
                    == stream@[k + 1].0 && (forall|i: int|
                    #![trigger stream@[i]]
                    0 <= i < k ==> stream@[i].0 < stream@[i + 1].0),
        },
{
    match check_ordered(stream) {
        Ok(_) => {},
        Err(f) => {
            return Err(f);
        },
    }
    let mut blocks: Vec<Block> = Vec::new();
    let mut i: usize = 0;
    proof {
        assert(Seq::<Block>::empty() + blocks_from(stream@, handlers@, 0) =~= blocks_from(
            stream@,
            handlers@,
            0,
        ));
    }
    while i < stream.len()
        invariant
            i <= stream@.len(),
            well_ordered(stream@),
            spec_blocks(stream@, handlers@) == blocks@ + blocks_from(stream@, handlers@, i as int),
        decreases stream@.len() - i,
    {
        if leader_at(stream, handlers, i) {
            let end = scan_end(stream, handlers, i);
            let b = Block { start: i, end, address: stream[i].0 };
            proof {
                assert(blocks@ + blocks_from(stream@, handlers@, i as int) =~= blocks@.push(b)
                    + blocks_from(stream@, handlers@, i as int + 1));
            }
            blocks.push(b);
        }
        i += 1;
    }
    proof {
        assert(blocks@ + blocks_from(stream@, handlers@, stream@.len() as int) =~= blocks@);
    }
    Ok(blocks)
}

/// The leader addresses of the stream: each block's start address, in
/// ascending order. Fails, with the offending address, if the stream is
/// out of order.
pub fn find_leaders(stream: &[(u32, Instruction)], handlers: &[u32]) -> (r: Result<
    Vec<u32>,
    Failure,
>)
    ensures
        match r {
            Ok(leaders) => well_ordered(stream@) && leaders@.len() == spec_blocks(
                stream@,
                handlers@,
            ).len() && (forall|k: int|
                0 <= k < leaders@.len() ==> leaders@[k] == spec_blocks(
                    stream@,
                    handlers@,
                )[k].address) && (forall|k: int|
                0 <= k && k + 1 < leaders@.len() ==> #[trigger] leaders@[k] < leaders@[k + 1]),
            Err(f) => !well_ordered(stream@) && f.kind == ErrorKind::InvalidOrdering
                && exists|k: int|
                #![trigger stream@[k]]
                0 <= k && k + 1 < stream@.len() && stream@[k + 1].0 <= stream@[k].0 && f.address
                    == stream@[k + 1].0 && (forall|i: int|
                    #![trigger stream@[i]]
                    0 <= i < k ==> stream@[i].0 < stream@[i + 1].0),
        },
{
    let blocks = match build_blocks(stream, handlers) {
        Ok(blocks) => blocks,
        Err(f) => {
            return Err(f);
        },
    };
    let stream_len: usize = stream.len();
    proof {
        assert(stream@.len() == stream_len);
        lemma_blocks_from_wf(stream@, handlers@, 0);
    }
    let mut leaders: Vec<u32> = Vec::new();
    let mut k: usize = 0;
    while k < blocks.len()
        invariant
            k <= blocks@.len(),
            well_ordered(stream@),
            blocks@ == spec_blocks(stream@, handlers@),
            leaders@.len() == k,
            forall|t: int|
                0 <= t < blocks@.len() ==> block_wf(stream@, handlers@, #[trigger] blocks@[t]),
            forall|t: int|
                0 <= t && t + 1 < blocks@.len() ==> #[trigger] blocks@[t].start < blocks@[t
                    + 1].start,
            forall|t: int| 0 <= t < k ==> leaders@[t] == blocks@[t].address,
        decreases blocks@.len() - k,
    {
        leaders.push(blocks[k].address);
        k += 1;
    }
    proof {
        assert forall|t: int| 0 <= t && t + 1 < leaders@.len() implies #[trigger] leaders@[t]
            < leaders@[t + 1] by {
            assert(blocks@[t].start < blocks@[t + 1].start);
            assert(blocks@[t].address == stream@[blocks@[t].start as int].0);
            assert(blocks@[t + 1].address == stream@[blocks@[t + 1].start as int].0);
        }
    }
    Ok(leaders)
}

/// Whether control may pass from `from` to the block at `to_address`.
fn edge_exec(stream: &[(u32, Instruction)], from: &Block, to_address: u32) -> (r: bool)
    requires
        0 < from.end <= stream@.len(),
    ensures
        r == spec_edge(stream@, *from, to_address),
{
    let last = &stream[from.end - 1].1;
    if last.has_target(to_address) {
        return true;
    }
    last.falls_through() && from.end < stream.len() && stream[from.end].0 == to_address
}

/// Relates a gathered predecessor list to the spec-level merge: the list
/// holds exactly the exits of the earlier blocks with an edge into block
/// `k`, so agreement and the inherited contents coincide.
proof fn lemma_preds_entry(
    stream: Seq<(u32, Instruction)>,
    blocks: Seq<Block>,
    shapes: Seq<StackShape>,
    k: int,
    preds: Seq<Stack>,
    pred_js: Seq<int>,
)
    requires
        0 <= k < blocks.len(),
        preds.len() == pred_js.len(),
        forall|m: int|
            0 <= m < pred_js.len() ==> 0 <= #[trigger] pred_js[m] < k && spec_edge(
                stream,
                blocks[pred_js[m]],
                blocks[k].address,
            ) && preds[m]@ == shapes[pred_js[m]],
        forall|j: int|
            0 <= j < k && #[trigger] spec_edge(stream, blocks[j], blocks[k].address)
                ==> pred_js.contains(j),
    ensures
        stacks_agree(preds) == shapes_entry_agree(stream, blocks, shapes, k),
        stacks_agree(preds) ==> entry_values(preds) == shapes_entry_vals(stream, blocks, shapes, k),
{
    if stacks_agree(preds) {
        assert forall|j1: int, j2: int|
            #![trigger spec_edge(stream, blocks[j1], blocks[k].address), spec_edge(stream, blocks[j2], blocks[k].address)]
            (0 <= j1 < k && 0 <= j2 < k && spec_edge(stream, blocks[j1], blocks[k].address)
                && spec_edge(stream, blocks[j2], blocks[k].address)) implies shapes[j1].values
            == shapes[j2].values by {
            assert(pred_js.contains(j1));
            assert(pred_js.contains(j2));
            let m1 = choose|m: int| 0 <= m < pred_js.len() && pred_js[m] == j1;
            let m2 = choose|m: int| 0 <= m < pred_js.len() && pred_js[m] == j2;
            assert(preds[m1]@.values == preds[0]@.values);
            assert(preds[m2]@.values == preds[0]@.values);
        }
        if has_forward_pred(stream, blocks, k) {
            let jw = choose|j: int|
                0 <= j < k && #[trigger] spec_edge(stream, blocks[j], blocks[k].address);
            assert(pred_js.contains(jw));
            let mw = choose|m: int| 0 <= m < pred_js.len() && pred_js[m] == jw;
            assert(preds.len() > 0);
            assert(preds[mw]@.values == preds[0]@.values);
            assert(preds[0]@ == shapes[pred_js[0]]);
            assert(spec_edge(stream, blocks[pred_js[0]], blocks[k].address));
            assert(shapes[jw].values == shapes[pred_js[0]].values);
        } else {
            if preds.len() > 0 {
                assert(spec_edge(stream, blocks[pred_js[0]], blocks[k].address));
                assert(false);
            }
        }
    } else {
        let m = choose|m: int|
            0 <= m < preds.len() && !(#[trigger] preds[m]@.values == preds[0]@.values);
        assert(!shapes_entry_agree(stream, blocks, shapes, k)) by {
            assert(spec_edge(stream, blocks[pred_js[m]], blocks[k].address));
            assert(spec_edge(stream, blocks[pred_js[0]], blocks[k].address));
            assert(shapes[pred_js[m]].values != shapes[pred_js[0]].values);
        }
    }
}

/// One analyzed basic block: the block itself, the inferred entry-stack
/// shape it requires, and the exit-stack shape it leaves.
#[derive(Clone, Debug)]
pub struct BlockAnalysis {
    /// The block this result describes.
    pub block: Block,
    /// Values the block requires on the operand stack at entry, bottom
    /// first.
    pub entry: Vec<Value>,
    /// The operand-stack contents when control leaves the block, top
    /// last.
    pub exit: Vec<Value>,
}

/// The stack shape a result records.
pub open spec fn spec_shape_of(b: BlockAnalysis) -> StackShape {
    StackShape { inputs: b.entry@, values: b.exit@ }
}

/// The stack shapes a result list records, in block order.
pub open spec fn shapes_of(results: Seq<BlockAnalysis>) -> Seq<StackShape> {
    results.map_values(|b: BlockAnalysis| spec_shape_of(b))
}

/// A back edge from block `j` into block `k` whose exit contents fail to
/// match block `k`'s established entry shape.
pub open spec fn back_edge_mismatch(
    stream: Seq<(u32, Instruction)>,
    blocks: Seq<Block>,
    shapes: Seq<StackShape>,
    k: int,
    j: int,
) -> bool {
    spec_edge(stream, blocks[j], blocks[k].address) && shapes[j].values != shapes[k].inputs
}

/// Analyzes one method: orders and splits the stream into basic blocks,
/// simulates each block's stack starting from its earlier predecessors'
/// merged exit shapes, and finally re-validates every back edge against
/// the target block's established entry shape. On success every block is
/// reported with its inferred entry shape and its exit shape; on failure
/// nothing is, and the failure names the offending address.
#[verifier::rlimit(100)]
#[verifier::spinoff_prover]
pub fn analyze_method(stream: &[(u32, Instruction)], handlers: &[u32], pool: &ConstPool) -> (r:
    Result<Vec<BlockAnalysis>, Failure>)
    ensures
        ({
            let blocks = spec_blocks(stream@, handlers@);
            let n = blocks.len() as int;
            match r {
                Ok(results) => {
                    &&& well_ordered(stream@)
                    &&& results@.len() == n
                    &&& forall|k: int| 0 <= k < n ==> (#[trigger] results@[k]).block == blocks[k]
                    &&& spec_drive(stream@, blocks, pool@, n) == Ok::<Seq<StackShape>, Failure>(
                        shapes_of(results@),
                    )
                    &&& forall|k: int, j: int|
                        0 <= k <= j < n ==> !(#[trigger] back_edge_mismatch(
                            stream@,
                            blocks,
                            shapes_of(results@),
                            k,
                            j,
                        ))
                },
                Err(f) => {
                    ||| (!well_ordered(stream@) && f.kind == ErrorKind::InvalidOrdering
                        && exists|k: int|
                        #![trigger stream@[k]]
                        0 <= k && k + 1 < stream@.len() && stream@[k + 1].0 <= stream@[k].0
                            && f.address == stream@[k + 1].0 && (forall|i: int|
                            #![trigger stream@[i]]
                            0 <= i < k ==> stream@[i].0 < stream@[i + 1].0))
                    ||| (well_ordered(stream@) && spec_drive(stream@, blocks, pool@, n) == Err::<
                        Seq<StackShape>,
                        Failure,
                    >(f))
                    ||| {
                        &&& well_ordered(stream@)
                        &&& spec_drive(stream@, blocks, pool@, n) matches Ok(shapes)
                        &&& f.kind == ErrorKind::StackShapeMismatch
                        &&& exists|k: int, j: int|
                            0 <= k <= j < n && #[trigger] back_edge_mismatch(
                                stream@,
                                blocks,
                                shapes,
                                k,
                                j,
                            ) && f.address == blocks[k].address
                    }
                },
            }
        }),
{
    let blocks = match build_blocks(stream, handlers) {
        Ok(blocks) => blocks,
        Err(f) => {
            return Err(f);
        },
    };
    let stream_len: usize = stream.len();
    proof {
        assert(stream@.len() == stream_len);
        lemma_blocks_from_wf(stream@, handlers@, 0);
    }
    let n = blocks.len();
    let mut stacks: Vec<Stack> = Vec::new();
    proof {
        assert(stacks@.map_values(|s: Stack| s@) =~= Seq::<StackShape>::empty());
    }
    let mut k: usize = 0;
    while k < n
        invariant
            k <= n,
            n == blocks@.len(),
            well_ordered(stream@),
            blocks@ == spec_blocks(stream@, handlers@),
            forall|t: int|
                0 <= t < blocks@.len() ==> block_wf(stream@, handlers@, #[trigger] blocks@[t]),
            stacks@.len() == k,
            spec_drive(stream@, blocks@, pool@, k as int) == Ok::<Seq<StackShape>, Failure>(
                stacks@.map_values(|s: Stack| s@),
            ),
        decreases n - k,
    {
        let b = blocks[k];
        let mut preds: Vec<Stack> = Vec::new();
        let ghost mut pred_js: Seq<int> = Seq::empty();
        let mut j: usize = 0;
        while j < k
            invariant
                j <= k,
                k < blocks@.len(),
                n == blocks@.len(),
                stacks@.len() == k,
                well_ordered(stream@),
                blocks@ == spec_blocks(stream@, handlers@),
                forall|t: int|
                    0 <= t < blocks@.len() ==> block_wf(stream@, handlers@, #[trigger] blocks@[t]),
                b == blocks@[k as int],
                preds@.len() == pred_js.len(),
                forall|m: int|
                    0 <= m < pred_js.len() ==> 0 <= #[trigger] pred_js[m] < k && spec_edge(
                        stream@,
                        blocks@[pred_js[m]],
                        b.address,
                    ) && preds@[m]@ == stacks@[pred_js[m]]@,
                forall|jj: int|
                    0 <= jj < j && #[trigger] spec_edge(stream@, blocks@[jj], b.address)
                        ==> pred_js.contains(jj),
            decreases k - j,
        {
            if edge_exec(stream, &blocks[j], b.address) {
                preds.push(stacks[j].duplicate());
                proof {
                    let old_js = pred_js;
                    pred_js = pred_js.push(j as int);
                    assert forall|jj: int|
                        0 <= jj < j + 1 && #[trigger] spec_edge(stream@, blocks@[jj], b.address)
                        implies pred_js.contains(jj) by {
                        if jj < j {
                            let idx = choose|idx: int|
                                0 <= idx < old_js.len() && old_js[idx] == jj;
                            assert(pred_js[idx] == jj);
                        } else {
                            assert(pred_js[pred_js.len() - 1] == jj);
                        }
                    }
                }
            } else {
                proof {
                    assert forall|jj: int|
                        0 <= jj < j + 1 && #[trigger] spec_edge(stream@, blocks@[jj], b.address)
                        implies pred_js.contains(jj) by {}
                }
            }
            j += 1;
        }
        let sub = &stream[b.start..b.end];
        let ghost shapes = stacks@.map_values(|s: Stack| s@);
        proof {
            assert forall|m: int| 0 <= m < pred_js.len() implies preds@[m]@ == shapes[#[trigger] pred_js[m]] by {
                assert(shapes[pred_js[m]] == stacks@[pred_js[m]]@);
            }
            lemma_preds_entry(stream@, blocks@, shapes, k as int, preds@, pred_js);
            assert(sub@ == stream@.subrange(b.start as int, b.end as int));
        }
        match generate_stack(sub, pool, preds.as_slice()) {
            Ok(st) => {
                proof {
                    assert(spec_entry_shape(preds@) == StackShape {
                        inputs: shapes_entry_vals(stream@, blocks@, shapes, k as int),
                        values: shapes_entry_vals(stream@, blocks@, shapes, k as int),
                    });
                    assert(spec_drive(stream@, blocks@, pool@, k as int + 1) == Ok::<
                        Seq<StackShape>,
                        Failure,
                    >(shapes.push(st@)));
                    assert(stacks@.push(st).map_values(|s: Stack| s@) =~= shapes.push(st@));
                }
                stacks.push(st);
            },
            Err(f) => {
                proof {
                    if stacks_agree(preds@) {
                        assert(spec_entry_shape(preds@) == StackShape {
                            inputs: shapes_entry_vals(stream@, blocks@, shapes, k as int),
                            values: shapes_entry_vals(stream@, blocks@, shapes, k as int),
                        });
                    } else {
                        assert(sub@.len() > 0);
                        assert(sub@[0] == stream@[b.start as int]);
                        assert(block_address(sub@) == b.address);
                    }
                    assert(spec_drive(stream@, blocks@, pool@, k as int + 1) == Err::<
                        Seq<StackShape>,
                        Failure,
                    >(f));
                    lemma_drive_err_extends(stream@, blocks@, pool@, k as int + 1, n as int);
                }
                return Err(f);
            },
        }
        k += 1;
    }
    let mut results: Vec<BlockAnalysis> = Vec::new();
    let mut m: usize = 0;
    while m < n
        invariant
            m <= n,
            n == blocks@.len(),
            stacks@.len() == n,
            results@.len() == m,
            forall|t: int|
                0 <= t < m ==> (#[trigger] results@[t]).block == blocks@[t] && spec_shape_of(
                    results@[t],
                ) == stacks@[t]@,
        decreases n - m,
    {
        let entry = copy_values(stacks[m].inputs());
        let exit = copy_values(stacks[m].values());
        results.push(BlockAnalysis { block: blocks[m], entry, exit });
        m += 1;
    }
    let ghost shapes_fin = shapes_of(results@);
    proof {
        assert(shapes_fin =~= stacks@.map_values(|s: Stack| s@));
    }
    let mut k2: usize = 0;
    while k2 < n
        invariant
            k2 <= n,
            n == blocks@.len(),
            results@.len() == n,
            well_ordered(stream@),
            blocks@ == spec_blocks(stream@, handlers@),
            forall|t: int|
                0 <= t < blocks@.len() ==> block_wf(stream@, handlers@, #[trigger] blocks@[t]),
            shapes_fin == shapes_of(results@),
            spec_drive(stream@, blocks@, pool@, n as int) == Ok::<Seq<StackShape>, Failure>(
                shapes_fin,
            ),
            forall|t: int| 0 <= t < n ==> (#[trigger] results@[t]).block == blocks@[t],
            forall|ka: int, ja: int|
                0 <= ka < k2 && ka <= ja < n ==> !back_edge_mismatch(
                    stream@,
                    blocks@,
                    shapes_fin,
                    ka,
                    ja,
                ),
        decreases n - k2,
    {
        let mut j2: usize = k2;
        while j2 < n
            invariant
                k2 <= j2 <= n,
                k2 < n,
                n == blocks@.len(),
                results@.len() == n,
                well_ordered(stream@),
                blocks@ == spec_blocks(stream@, handlers@),
                forall|t: int|
                    0 <= t < blocks@.len() ==> block_wf(stream@, handlers@, #[trigger] blocks@[t]),
                shapes_fin == shapes_of(results@),
                spec_drive(stream@, blocks@, pool@, n as int) == Ok::<Seq<StackShape>, Failure>(
                    shapes_fin,
                ),
                forall|t: int| 0 <= t < n ==> (#[trigger] results@[t]).block == blocks@[t],
                forall|ka: int, ja: int|
                    0 <= ka < k2 && ka <= ja < n ==> !back_edge_mismatch(
                        stream@,
                        blocks@,
                        shapes_fin,
                        ka,
                        ja,
                    ),
                forall|ja: int|
                    k2 <= ja < j2 ==> !back_edge_mismatch(
                        stream@,
                        blocks@,
                        shapes_fin,
                        k2 as int,
                        ja,
                    ),
            decreases n - j2,
        {
            if edge_exec(stream, &blocks[j2], blocks[k2].address) {
                if !values_equal(&results[j2].exit, &results[k2].entry) {
                    proof {
                        assert(shapes_fin[j2 as int] == spec_shape_of(results@[j2 as int]));
                        assert(shapes_fin[k2 as int] == spec_shape_of(results@[k2 as int]));
                        assert(back_edge_mismatch(
                            stream@,
                            spec_blocks(stream@, handlers@),
                            shapes_fin,
                            k2 as int,
                            j2 as int,
                        ));
                        assert(spec_drive(
                            stream@,
                            spec_blocks(stream@, handlers@),
                            pool@,
                            spec_blocks(stream@, handlers@).len() as int,
                        ) == Ok::<Seq<StackShape>, Failure>(shapes_fin));
                        assert(back_edge_mismatch(
                            stream@,
                            spec_blocks(stream@, handlers@),
                            spec_drive(
                                stream@,
                                spec_blocks(stream@, handlers@),
                                pool@,
                                spec_blocks(stream@, handlers@).len() as int,
                            )->Ok_0,
                            k2 as int,
                            j2 as int,
                        ));
                    }
                    return Err(
                        Failure { address: blocks[k2].address, kind: ErrorKind::StackShapeMismatch },
                    );
                }
            }
            proof {
                assert(shapes_fin[j2 as int] == spec_shape_of(results@[j2 as int]));
                assert(shapes_fin[k2 as int] == spec_shape_of(results@[k2 as int]));
            }
            j2 += 1;
        }
        k2 += 1;
    }
    Ok(results)
}

/// An instruction that does not transfer control has no branch target.
proof fn lemma_no_targets(x: Instruction)
    requires
        !spec_is_terminator(x),
    ensures
        spec_targets(x) =~= Seq::<u32>::empty(),
{
}

/// Past the entry, a stream without branch instructions has no leader.
proof fn lemma_no_later_leader(stream: Seq<(u32, Instruction)>, handlers: Seq<u32>, t: int)
    requires
        well_ordered(stream),
        stream.len() > 0,
        stream[0].0 == 0,
        handlers.len() == 0,
        forall|m: int| 0 <= m < stream.len() ==> !spec_marks_successor(#[trigger] stream[m].1),
        1 <= t < stream.len(),
    ensures
        !is_leader_index(stream, handlers, t),
{
    assert(stream[0].0 < stream[t].0);
    assert forall|j: int| 0 <= j < stream.len() implies !(#[trigger] spec_targets(
        stream[j].1,
    ).contains(stream[t].0)) by {
        assert(!spec_is_terminator(stream[j].1));
        lemma_no_targets(stream[j].1);
    }
}

/// Without branches, no block can end before the stream does.
proof fn lemma_block_end_full(stream: Seq<(u32, Instruction)>, handlers: Seq<u32>, j: int)
    requires
        well_ordered(stream),
        stream.len() > 0,
        stream[0].0 == 0,
        handlers.len() == 0,
        forall|m: int| 0 <= m < stream.len() ==> !spec_marks_successor(#[trigger] stream[m].1),
        0 <= j < stream.len(),
    ensures
        block_end(stream, handlers, j) == stream.len(),
    decreases stream.len() - j,
{
    assert(!spec_is_terminator(stream[j].1));
    if j + 1 < stream.len() {
        lemma_no_later_leader(stream, handlers, j + 1);
        lemma_block_end_full(stream, handlers, j + 1);
    }
}

/// No leader at or past index `i` means no block there either.
proof fn lemma_no_blocks_from(stream: Seq<(u32, Instruction)>, handlers: Seq<u32>, i: int)
    requires
        forall|t: int| i <= t < stream.len() ==> !is_leader_index(stream, handlers, t),
    ensures
        blocks_from(stream, handlers, i) =~= Seq::<Block>::empty(),
    decreases stream.len() - i,
{
    if 0 <= i < stream.len() {
        lemma_no_blocks_from(stream, handlers, i + 1);
    }
}

/// A method with no branches forms a single basic block covering the
/// whole stream, and its analysis is exactly the effect table folded
/// left-to-right over an initially empty stack: the first pass yields
/// that fold's shape, whose working contents are the block's exit shape.
pub proof fn lemma_straight_line(
    stream: Seq<(u32, Instruction)>,
    handlers: Seq<u32>,
    pool: Seq<PoolEntry>,
)
    requires
        0 < stream.len() <= usize::MAX,
        stream[0].0 == 0,
        well_ordered(stream),
        handlers.len() == 0,
        forall|m: int| 0 <= m < stream.len() ==> !spec_marks_successor(#[trigger] stream[m].1),
    ensures
        spec_blocks(stream, handlers) =~= seq![
            Block { start: 0, end: stream.len() as usize, address: 0u32 },
        ],
        spec_drive(stream, spec_blocks(stream, handlers), pool, 1) == (match spec_run_block(
            StackShape { inputs: Seq::empty(), values: Seq::empty() },
            stream,
            pool,
        ) {
            Ok(sh) => Ok::<Seq<StackShape>, Failure>(seq![sh]),
            Err(f) => Err::<Seq<StackShape>, Failure>(f),
        }),
{
    assert(is_leader_index(stream, handlers, 0));
    assert forall|t: int| 1 <= t < stream.len() implies !is_leader_index(
        stream,
        handlers,
        t,
    ) by {
        lemma_no_later_leader(stream, handlers, t);
    }
    lemma_block_end_full(stream, handlers, 0);
    lemma_no_blocks_from(stream, handlers, 1);
    let b0 = Block { start: 0, end: stream.len() as usize, address: 0u32 };
    assert(spec_blocks(stream, handlers) =~= seq![b0]);
    let blocks = spec_blocks(stream, handlers);
    assert(spec_drive(stream, blocks, pool, 0) == Ok::<Seq<StackShape>, Failure>(Seq::empty()));
    assert(shapes_entry_agree(stream, blocks, Seq::empty(), 0));
    assert(!has_forward_pred(stream, blocks, 0));
    assert(shapes_entry_vals(stream, blocks, Seq::empty(), 0) =~= Seq::<Value>::empty());
    assert(stream.subrange(blocks[0].start as int, blocks[0].end as int) =~= stream);
    match spec_run_block(StackShape { inputs: Seq::empty(), values: Seq::empty() }, stream, pool) {
        Ok(sh) => {
            assert(spec_drive(stream, blocks, pool, 1) == Ok::<Seq<StackShape>, Failure>(
                Seq::empty().push(sh),
            ));
            assert(Seq::empty().push(sh) =~= seq![sh]);
        },
        Err(f) => {
        },
    }
}

} // verus!
