//! The lifecycle of one control block, as an abstract state machine over
//! its two counters.
//!
//! The handle operations in [`crate::arc`] each change the counters of
//! one block by a fixed step; this module states those steps once, as a
//! transition system, and proves the protocol laws that hold over every
//! sequence of steps — that is, over every interleaving of handle
//! operations, however many handles are in play:
//!
//! - the payload is destroyed at most once, and exactly once in any run
//!   that drops all strong handles;
//! - destruction happens at the drop of the last strong handle, and no
//!   strong handle exists or can be made afterwards;
//! - a block moves through its three stages — live, value destroyed,
//!   deallocated — monotonically and irreversibly.
//!
//! An event is enabled only when a handle of the right kind can exist at
//! all under the counting discipline: strong events need an outstanding
//! strong handle, weak events a standalone weak handle. These enabling
//! conditions are the `valid` predicates of the handle types, and the
//! step effects are the counter clauses of their contracts.
use crate::arc::Heap;
use vstd::prelude::*;

verus! {

/// The abstract state of one control block.
pub struct BlockState {
    /// Outstanding strong handles.
    pub strong: nat,
    /// Outstanding weak references (standalone handles plus the one
    /// embedded in each strong handle), plus one aggregate strong unit
    /// while strong handles exist.
    pub total: nat,
    /// The payload has not been destroyed.
    pub alive: bool,
    /// The block's memory has not been reclaimed.
    pub allocated: bool,
}

/// The three stages of a block's life.
pub enum Stage {
    /// Strong handles remain; the payload is intact.
    Live,
    /// The payload is destroyed; the memory is kept for weak observers.
    ValueDestroyed,
    /// The memory has been reclaimed.
    Deallocated,
}

/// One handle operation on the block.
pub enum Event {
    /// A strong handle is cloned.
    CloneStrong,
    /// A strong handle is dropped.
    DropStrong,
    /// A strong handle mints a standalone weak handle.
    Downgrade,
    /// A standalone weak handle is cloned.
    CloneWeak,
    /// A standalone weak handle is dropped.
    DropWeak,
    /// A standalone weak handle is upgraded while the payload is alive.
    UpgradeOk,
    /// An upgrade is attempted after the payload is gone.
    UpgradeFail,
}

/// The state of a freshly created block: one strong handle out, and a
/// total of 2 for the aggregate strong unit plus that handle's embedded
/// weak reference.
pub open spec fn init() -> BlockState {
    BlockState { strong: 1, total: 2, alive: true, allocated: true }
}

/// A strong handle can exist in `s`.
pub open spec fn has_strong(s: BlockState) -> bool {
    s.allocated && s.strong >= 1
}

/// A standalone weak handle can exist in `s`: the total count covers one
/// unit beyond the aggregate strong unit and the embedded weak
/// references.
pub open spec fn has_standalone_weak(s: BlockState) -> bool {
    s.allocated && if s.strong >= 1 {
        s.total >= s.strong + 2
    } else {
        s.total >= 1
    }
}

/// When an event can happen: a handle able to perform it must exist.
pub open spec fn enabled(s: BlockState, e: Event) -> bool {
    match e {
        Event::CloneStrong => has_strong(s),
        Event::DropStrong => has_strong(s),
        Event::Downgrade => has_strong(s),
        Event::CloneWeak => has_standalone_weak(s),
        Event::DropWeak => has_standalone_weak(s),
        Event::UpgradeOk => has_standalone_weak(s) && s.strong >= 1,
        Event::UpgradeFail => has_standalone_weak(s) && s.strong == 0,
    }
}

/// The effect of one event: exactly the counter clauses of the handle
/// operations' contracts.
pub open spec fn step(s: BlockState, e: Event) -> BlockState
    recommends
        enabled(s, e),
{
    match e {
        Event::CloneStrong => BlockState { strong: s.strong + 1, total: s.total + 1, ..s },
        Event::DropStrong => if s.strong >= 2 {
            BlockState { strong: (s.strong - 1) as nat, total: (s.total - 1) as nat, ..s }
        } else if s.total >= 3 {
            // Last strong handle out: the payload goes, then the
            // aggregate unit and the embedded weak reference retire.
            BlockState { strong: 0, total: (s.total - 2) as nat, alive: false, ..s }
        } else {
            // No weak observer remains either: the memory goes too.
            BlockState { strong: 0, total: 0, alive: false, allocated: false }
        },
        Event::Downgrade => BlockState { total: s.total + 1, ..s },
        Event::CloneWeak => BlockState { total: s.total + 1, ..s },
        Event::DropWeak => if s.total >= 2 {
            BlockState { total: (s.total - 1) as nat, ..s }
        } else {
            BlockState { strong: 0, total: 0, alive: false, allocated: false }
        },
        Event::UpgradeOk => BlockState { strong: s.strong + 1, total: s.total + 1, ..s },
        Event::UpgradeFail => s,
    }
}

/// The counting invariant, in abstract form.
pub open spec fn state_wf(s: BlockState) -> bool {
    if s.allocated {
        &&& (s.strong == 0 <==> !s.alive)
        &&& s.total >= 1
        &&& s.strong >= 1 ==> s.total >= s.strong + 1
    } else {
        s.strong == 0 && s.total == 0 && !s.alive
    }
}

/// The stage a state is in.
pub open spec fn stage_of(s: BlockState) -> Stage {
    if !s.allocated {
        Stage::Deallocated
    } else if !s.alive {
        Stage::ValueDestroyed
    } else {
        Stage::Live
    }
}

/// Stages are ordered: live, then value destroyed, then deallocated.
pub open spec fn stage_le(a: Stage, b: Stage) -> bool {
    match a {
        Stage::Live => true,
        Stage::ValueDestroyed => !(b is Live),
        Stage::Deallocated => b is Deallocated,
    }
}

/// The state after the first `i` events of `t`, starting from a freshly
/// created block.
pub open spec fn state_at(t: Seq<Event>, i: int) -> BlockState
    decreases i,
{
    if i <= 0 {
        init()
    } else {
        step(state_at(t, i - 1), t[i - 1])
    }
}

/// Every event of `t` is enabled when it happens.
pub open spec fn trace_valid(t: Seq<Event>) -> bool {
    forall|i: int| 0 <= i < t.len() ==> enabled(state_at(t, i), #[trigger] t[i])
}

/// Event `i` of `t` destroys the payload: the last strong handle is
/// dropped there.
pub open spec fn destroys_at(t: Seq<Event>, i: int) -> bool {
    0 <= i < t.len() && t[i] is DropStrong && state_at(t, i).strong == 1
}

/// Each step preserves the counting invariant.
pub proof fn lemma_step_preserves_wf(s: BlockState, e: Event)
    requires
        state_wf(s),
        enabled(s, e),
    ensures
        state_wf(step(s, e)),
{
}

/// Along a valid trace, every state satisfies the counting invariant.
pub proof fn lemma_trace_wf(t: Seq<Event>, i: int)
    requires
        trace_valid(t),
        0 <= i <= t.len(),
    ensures
        state_wf(state_at(t, i)),
    decreases i,
{
    if i > 0 {
        lemma_trace_wf(t, i - 1);
        lemma_step_preserves_wf(state_at(t, i - 1), t[i - 1]);
    }
}

/// Once the strong count has reached zero it stays at zero: no event can
/// mint a strong handle out of nothing.
pub proof fn lemma_strong_stays_zero(t: Seq<Event>, i: int, j: int)
    requires
        trace_valid(t),
        0 <= i <= j <= t.len(),
        state_at(t, i).strong == 0,
    ensures
        state_at(t, j).strong == 0,
    decreases j - i,
{
    if j > i {
        lemma_strong_stays_zero(t, i, j - 1);
    }
}

/// The payload is destroyed at most once: two destruction events of one
/// valid trace are the same event.
pub proof fn lemma_destroys_at_most_once(t: Seq<Event>, i: int, j: int)
    requires
        trace_valid(t),
        destroys_at(t, i),
        destroys_at(t, j),
    ensures
        i == j,
{
    if i < j {
        assert(state_at(t, i + 1).strong == 0);
        lemma_strong_stays_zero(t, i + 1, j);
    }
    if j < i {
        assert(state_at(t, j + 1).strong == 0);
        lemma_strong_stays_zero(t, j + 1, i);
    }
}

/// The payload is destroyed exactly once in any run that ends with no
/// strong handle left — and the destroying event is a strong drop, not a
/// weak one.
pub proof fn lemma_destroys_exactly_once(t: Seq<Event>, n: int)
    requires
        trace_valid(t),
        0 <= n <= t.len(),
        state_at(t, n).strong == 0,
    ensures
        exists|i: int| 0 <= i < n && destroys_at(t, i),
        forall|i: int, j: int| #[trigger] destroys_at(t, i) && #[trigger] destroys_at(t, j) ==> i
            == j,
    decreases n,
{
    assert forall|i: int, j: int| #[trigger] destroys_at(t, i) && #[trigger] destroys_at(
        t,
        j,
    ) implies i == j by {
        lemma_destroys_at_most_once(t, i, j);
    }
    assert(init().strong == 1);
    let s = state_at(t, n - 1);
    if s.strong == 0 {
        lemma_destroys_exactly_once(t, n - 1);
        let i = choose|i: int| 0 <= i < n - 1 && destroys_at(t, i);
        assert(destroys_at(t, i));
    } else {
        lemma_trace_wf(t, n - 1);
        assert(t[n - 1] is DropStrong && s.strong == 1);
        assert(destroys_at(t, n - 1));
    }
}

/// After the destruction event, no strong handle exists anywhere in the
/// rest of the run: the destroyer was the last strong handle out.
pub proof fn lemma_destruction_is_last(t: Seq<Event>, i: int, j: int)
    requires
        trace_valid(t),
        destroys_at(t, i),
        i < j <= t.len(),
    ensures
        state_at(t, j).strong == 0,
        !state_at(t, j).alive,
{
    lemma_strong_stays_zero(t, i + 1, j);
    lemma_trace_wf(t, j);
}

/// Only the drop of the last strong handle destroys the payload: no
/// weak operation, and no strong drop with company left, touches it.
pub proof fn lemma_only_last_strong_drop_destroys(s: BlockState, e: Event)
    requires
        state_wf(s),
        enabled(s, e),
        s.alive,
        !step(s, e).alive,
    ensures
        e is DropStrong,
        s.strong == 1,
{
}

/// A deallocated block is terminal: no handle can exist for it, so no
/// event is enabled.
pub proof fn lemma_deallocated_is_terminal(s: BlockState, e: Event)
    requires
        !s.allocated,
    ensures
        !enabled(s, e),
{
}

/// An upgrade can only succeed while the payload is alive, and leaves
/// it alive: no interleaving hands out a handle to a destroyed payload.
pub proof fn lemma_upgrade_never_revives(t: Seq<Event>, i: int)
    requires
        trace_valid(t),
        0 <= i < t.len(),
        t[i] is UpgradeOk,
    ensures
        state_at(t, i).alive,
        state_at(t, i + 1).alive,
{
    lemma_trace_wf(t, i);
    lemma_trace_wf(t, i + 1);
}

/// The abstract state of the block in slot `id` of a store.
pub open spec fn block_state_of<T>(heap: Heap<T>, id: int) -> BlockState {
    if heap.allocated(id) {
        BlockState {
            strong: heap.strong_of(id),
            total: heap.total_of(id),
            alive: heap.payload_of(id) is Some,
            allocated: true,
        }
    } else {
        BlockState { strong: 0, total: 0, alive: false, allocated: false }
    }
}

/// A block of a well-formed store abstracts to a well-formed state.
pub proof fn lemma_heap_block_wf<T>(heap: Heap<T>, id: int)
    requires
        heap.wf(),
        heap.allocated(id),
    ensures
        state_wf(block_state_of(heap, id)),
{
    assert(heap.block(id).wf());
}

/// A fresh block abstracts to the machine's initial state: this is
/// `Arc::new`'s contract seen abstractly.
pub proof fn lemma_new_refines<T>(post: Heap<T>, id: int)
    requires
        post.allocated(id),
        post.strong_of(id) == 1,
        post.total_of(id) == 2,
        post.payload_of(id) is Some,
    ensures
        block_state_of(post, id) == init(),
{
}

/// The counter clauses of `Arc::clone`'s contract move a block by
/// exactly one `CloneStrong` step.
pub proof fn lemma_clone_strong_refines<T>(pre: Heap<T>, post: Heap<T>, id: int)
    requires
        pre.wf(),
        pre.allocated(id),
        pre.strong_of(id) >= 1,
        post.allocated(id),
        post.strong_of(id) == pre.strong_of(id) + 1,
        post.total_of(id) == pre.total_of(id) + 1,
        post.payload_of(id) == pre.payload_of(id),
    ensures
        enabled(block_state_of(pre, id), Event::CloneStrong),
        block_state_of(post, id) == step(block_state_of(pre, id), Event::CloneStrong),
{
    assert(pre.block(id).wf());
}

/// The counter clauses of `Arc::downgrade`'s contract move a block by
/// exactly one `Downgrade` step; those of `Weak::clone` are the same
/// `total`-raising step, as `CloneWeak`.
pub proof fn lemma_downgrade_refines<T>(pre: Heap<T>, post: Heap<T>, id: int)
    requires
        pre.wf(),
        pre.allocated(id),
        pre.strong_of(id) >= 1,
        post.allocated(id),
        post.strong_of(id) == pre.strong_of(id),
        post.total_of(id) == pre.total_of(id) + 1,
        post.payload_of(id) == pre.payload_of(id),
    ensures
        enabled(block_state_of(pre, id), Event::Downgrade),
        block_state_of(post, id) == step(block_state_of(pre, id), Event::Downgrade),
{
    assert(pre.block(id).wf());
}

/// The clauses of `Weak::upgrade`'s contract on a live block move it by
/// exactly one `UpgradeOk` step; on a dead block the store is unchanged,
/// which is the `UpgradeFail` step.
pub proof fn lemma_upgrade_refines<T>(pre: Heap<T>, post: Heap<T>, id: int)
    requires
        pre.wf(),
        pre.allocated(id),
        pre.strong_of(id) >= 1 ==> pre.total_of(id) >= pre.strong_of(id) + 2,
        pre.strong_of(id) >= 1 ==> post.allocated(id) && post.strong_of(id) == pre.strong_of(id)
            + 1 && post.total_of(id) == pre.total_of(id) + 1 && post.payload_of(id)
            == pre.payload_of(id),
        pre.strong_of(id) == 0 ==> post == pre,
    ensures
        pre.strong_of(id) >= 1 ==> enabled(block_state_of(pre, id), Event::UpgradeOk)
            && block_state_of(post, id) == step(block_state_of(pre, id), Event::UpgradeOk),
        pre.strong_of(id) == 0 ==> enabled(block_state_of(pre, id), Event::UpgradeFail)
            && block_state_of(post, id) == step(block_state_of(pre, id), Event::UpgradeFail),
{
    assert(pre.block(id).wf());
}

/// The clauses of `Arc::drop`'s contract move a block by exactly one
/// `DropStrong` step, in each of its three cases: another strong handle
/// remains; the payload goes while weak observers remain; or the block
/// goes entirely.
pub proof fn lemma_drop_strong_refines<T>(pre: Heap<T>, post: Heap<T>, id: int)
    requires
        pre.wf(),
        pre.allocated(id),
        pre.strong_of(id) >= 1,
        pre.strong_of(id) >= 2 ==> post.allocated(id) && post.strong_of(id) == pre.strong_of(id)
            - 1 && post.total_of(id) == pre.total_of(id) - 1 && post.payload_of(id)
            == pre.payload_of(id),
        pre.strong_of(id) == 1 && pre.total_of(id) >= 3 ==> post.allocated(id) && post.strong_of(
            id,
        ) == 0 && post.total_of(id) == pre.total_of(id) - 2 && post.payload_of(id) is None,
        pre.strong_of(id) == 1 && pre.total_of(id) == 2 ==> !post.allocated(id),
    ensures
        enabled(block_state_of(pre, id), Event::DropStrong),
        block_state_of(post, id) == step(block_state_of(pre, id), Event::DropStrong),
{
    assert(pre.block(id).wf());
}

/// The clauses of `Weak::drop`'s contract move a block by exactly one
/// `DropWeak` step: the total count falls, and the last handle out
/// reclaims the block.
pub proof fn lemma_drop_weak_refines<T>(pre: Heap<T>, post: Heap<T>, id: int)
    requires
        pre.wf(),
        pre.allocated(id),
        pre.strong_of(id) >= 1 ==> pre.total_of(id) >= pre.strong_of(id) + 2,
        pre.total_of(id) >= 2 ==> post.allocated(id) && post.strong_of(id) == pre.strong_of(id)
            && post.total_of(id) == pre.total_of(id) - 1 && post.payload_of(id) == pre.payload_of(
            id,
        ),
        pre.total_of(id) == 1 ==> !post.allocated(id),
    ensures
        enabled(block_state_of(pre, id), Event::DropWeak),
        block_state_of(post, id) == step(block_state_of(pre, id), Event::DropWeak),
{
    assert(pre.block(id).wf());
}

/// A block's stages only ever move forward: live, then value destroyed,
/// then deallocated, irreversibly.
pub proof fn lemma_stage_monotone(t: Seq<Event>, i: int, j: int)
    requires
        trace_valid(t),
        0 <= i <= j <= t.len(),
    ensures
        stage_le(stage_of(state_at(t, i)), stage_of(state_at(t, j))),
    decreases j - i,
{
    if j > i {
        lemma_stage_monotone(t, i, j - 1);
        lemma_trace_wf(t, j - 1);
        lemma_step_preserves_wf(state_at(t, j - 1), t[j - 1]);
    }
}

} // verus!
