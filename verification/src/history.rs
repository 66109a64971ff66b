//! Laws of the store under whole histories of operations. Concurrent
//! operations on the one shared store are linearizable — each `set` and `get`
//! holds the store exclusively for its instant — so any concurrent execution
//! is some interleaving: a sequence of operations applied in a total order.
//! These lemmas state what every such order guarantees.

use crate::command::{reply_of, store_after, OpView, ReplyView};
use vstd::prelude::*;

verus! {

/// The store contents after a sequence of operations, applied oldest first.
pub open spec fn run_ops(m: Map<Seq<char>, Seq<u8>>, ops: Seq<OpView>) -> Map<Seq<char>, Seq<u8>>
    decreases ops.len(),
{
    if ops.len() == 0 {
        m
    } else {
        store_after(run_ops(m, ops.drop_last()), ops.last())
    }
}

/// Whether one operation writes key `k`.
pub open spec fn writes_key(op: OpView, k: Seq<char>) -> bool {
    op matches OpView::Put { key, .. } && key == k
}

/// Law: last writer wins. If the operation at position `i` stores `v` under
/// `k` and no later operation writes `k`, then after the whole history the
/// store holds exactly `v` under `k` — whatever else the history does.
pub proof fn lemma_last_write_wins(
    m: Map<Seq<char>, Seq<u8>>,
    ops: Seq<OpView>,
    i: int,
    k: Seq<char>,
    v: Seq<u8>,
)
    requires
        0 <= i < ops.len(),
        ops[i] == (OpView::Put { key: k, value: v }),
        forall|j: int| i < j < ops.len() ==> !writes_key(ops[j], k),
    ensures
        run_ops(m, ops).contains_key(k),
        run_ops(m, ops)[k] == v,
    decreases ops.len(),
{
    if i == ops.len() - 1 {
        assert(ops.last() == (OpView::Put { key: k, value: v }));
    } else {
        assert(ops.drop_last()[i] == ops[i]);
        lemma_last_write_wins(m, ops.drop_last(), i, k, v);
        assert(!writes_key(ops.last(), k));
    }
}

/// Law: a key no operation writes keeps whatever binding it started with —
/// in particular, a key never written stays absent.
pub proof fn lemma_unwritten_key_untouched(
    m: Map<Seq<char>, Seq<u8>>,
    ops: Seq<OpView>,
    k: Seq<char>,
)
    requires
        forall|j: int| 0 <= j < ops.len() ==> !writes_key(ops[j], k),
    ensures
        run_ops(m, ops).contains_key(k) == m.contains_key(k),
        m.contains_key(k) ==> run_ops(m, ops)[k] == m[k],
    decreases ops.len(),
{
    if ops.len() > 0 {
        assert(forall|j: int|
            0 <= j < ops.drop_last().len() ==> !writes_key(ops.drop_last()[j], k));
        lemma_unwritten_key_untouched(m, ops.drop_last(), k);
        assert(!writes_key(ops.last(), k));
    }
}

/// Law: a get of a key never written, after any history over the initially
/// empty store, earns the absence indicator — never an error.
pub proof fn lemma_get_never_written_is_null(ops: Seq<OpView>, k: Seq<char>)
    requires
        forall|j: int| 0 <= j < ops.len() ==> !writes_key(ops[j], k),
    ensures
        reply_of(run_ops(Map::empty(), ops), OpView::Get { key: k }) == ReplyView::Null,
{
    lemma_unwritten_key_untouched(Map::empty(), ops, k);
}

/// Law: a get after a set of `k`, with no other write of `k` in between,
/// earns exactly the value that set stored.
pub proof fn lemma_get_after_set(
    m: Map<Seq<char>, Seq<u8>>,
    ops: Seq<OpView>,
    i: int,
    k: Seq<char>,
    v: Seq<u8>,
)
    requires
        0 <= i < ops.len(),
        ops[i] == (OpView::Put { key: k, value: v }),
        forall|j: int| i < j < ops.len() ==> !writes_key(ops[j], k),
    ensures
        reply_of(run_ops(m, ops), OpView::Get { key: k }) == ReplyView::Bulk(v),
{
    lemma_last_write_wins(m, ops, i, k, v);
}

/// Law: sets on distinct keys commute — the order in which two concurrent
/// sets on different keys are linearized does not affect the store, so
/// neither can disturb the other.
pub proof fn lemma_distinct_sets_commute(
    m: Map<Seq<char>, Seq<u8>>,
    k1: Seq<char>,
    v1: Seq<u8>,
    k2: Seq<char>,
    v2: Seq<u8>,
)
    requires
        k1 != k2,
    ensures
        store_after(store_after(m, (OpView::Put { key: k1, value: v1 })), (OpView::Put {
            key: k2,
            value: v2,
        })) == store_after(store_after(m, (OpView::Put { key: k2, value: v2 })), (OpView::Put {
            key: k1,
            value: v1,
        })),
{
    assert(m.insert(k1, v1).insert(k2, v2) =~= m.insert(k2, v2).insert(k1, v1));
}

/// Law: sets on the same key never corrupt the stored value. Whichever way
/// two concurrent sets on one key are linearized, the key afterwards holds
/// the later writer's value whole — never a mixture of the two.
pub proof fn lemma_same_key_sets_keep_one_whole_value(
    m: Map<Seq<char>, Seq<u8>>,
    k: Seq<char>,
    va: Seq<u8>,
    vb: Seq<u8>,
)
    ensures
        store_after(store_after(m, (OpView::Put { key: k, value: va })), (OpView::Put {
            key: k,
            value: vb,
        }))[k] == vb,
        store_after(store_after(m, (OpView::Put { key: k, value: vb })), (OpView::Put {
            key: k,
            value: va,
        }))[k] == va,
{
}

/// One observable step of some connection: either it executed an operation,
/// or it terminated — cleanly, on a decode failure, or on a send failure —
/// which executes nothing.
pub type ConnStep = Option<OpView>;

/// The store contents after a sequence of connection steps: terminations
/// contribute nothing.
pub open spec fn run_steps(m: Map<Seq<char>, Seq<u8>>, steps: Seq<ConnStep>) -> Map<
    Seq<char>,
    Seq<u8>,
>
    decreases steps.len(),
{
    if steps.len() == 0 {
        m
    } else {
        match steps.last() {
            Some(op) => store_after(run_steps(m, steps.drop_last()), op),
            None => run_steps(m, steps.drop_last()),
        }
    }
}

/// Law: failures are isolated. Inserting a termination step — a connection
/// that hit a decode failure, for instance — anywhere into a history leaves
/// the store exactly as it would have been, so every other connection's
/// exchanges are unaffected.
pub proof fn lemma_termination_isolated(
    m: Map<Seq<char>, Seq<u8>>,
    steps: Seq<ConnStep>,
    i: int,
)
    requires
        0 <= i <= steps.len(),
    ensures
        run_steps(m, steps.insert(i, None)) == run_steps(m, steps),
    decreases steps.len(),
{
    let t = steps.insert(i, None);
    if i == steps.len() {
        assert(t.drop_last() =~= steps);
        assert(t.last() is None);
    } else {
        assert(t.drop_last() =~= steps.drop_last().insert(i, None));
        assert(t.last() == steps.last());
        lemma_termination_isolated(m, steps.drop_last(), i);
    }
}

/// Law: the response of a well-formed exchange does not change when some
/// other connection terminates at any earlier point of the history.
pub proof fn lemma_reply_unaffected_by_termination(
    m: Map<Seq<char>, Seq<u8>>,
    steps: Seq<ConnStep>,
    i: int,
    op: OpView,
)
    requires
        0 <= i <= steps.len(),
    ensures
        reply_of(run_steps(m, steps.insert(i, None)), op) == reply_of(run_steps(m, steps), op),
{
    lemma_termination_isolated(m, steps, i);
}

} // verus!
