//! The single tracker: one aggregate counter drawn against a known total.

use crate::layout::bar_style;
use indicatif::ProgressBar;
use vstd::prelude::*;

verus! {

/// The steady redraw cadence of an aggregate bar, in milliseconds.
pub const TICK_MS: u64 = 100;

/// `a + b`, held at `u64::MAX` where the sum does not fit.
pub open spec fn saturating_sum(a: int, b: int) -> u64 {
    if a + b > u64::MAX { u64::MAX } else { (a + b) as u64 }
}

/// What a single tracker records.
pub struct ProgressModel {
    pub initialized: bool,
    pub total: u64,
    pub position: u64,
    pub finished: bool,
}

/// One call on a single tracker after it was made.
pub enum ProgressOp {
    Update(u64),
    SetPosition(u64),
    Finish,
}

impl ProgressModel {
    /// The state before any `init`.
    pub open spec fn uninitialized() -> ProgressModel {
        ProgressModel { initialized: false, total: 0, position: 0, finished: false }
    }

    /// `init(total)`: the first call sets the total and starts at zero; later
    /// calls change nothing.
    pub open spec fn after_init(self, total: u64) -> ProgressModel {
        if self.initialized {
            self
        } else {
            ProgressModel { initialized: true, total, position: 0, finished: false }
        }
    }

    /// `update(delta)`: adds `delta` to the position, held at `u64::MAX`.
    pub open spec fn after_update(self, delta: u64) -> ProgressModel {
        if self.initialized {
            ProgressModel { position: saturating_sum(self.position as int, delta as int), ..self }
        } else {
            self
        }
    }

    /// `set_position(pos)`: the position becomes `pos`.
    pub open spec fn after_set_position(self, pos: u64) -> ProgressModel {
        if self.initialized {
            ProgressModel { position: pos, ..self }
        } else {
            self
        }
    }

    /// `finish()`: the tracker enters its completed state.
    pub open spec fn after_finish(self) -> ProgressModel {
        if self.initialized {
            ProgressModel { finished: true, ..self }
        } else {
            self
        }
    }

    pub open spec fn after_op(self, op: ProgressOp) -> ProgressModel {
        match op {
            ProgressOp::Update(delta) => self.after_update(delta),
            ProgressOp::SetPosition(pos) => self.after_set_position(pos),
            ProgressOp::Finish => self.after_finish(),
        }
    }

    /// The state after the calls `ops`, in order.
    pub open spec fn after_ops(self, ops: Seq<ProgressOp>) -> ProgressModel
        decreases ops.len(),
    {
        if ops.len() == 0 {
            self
        } else {
            self.after_ops(ops.drop_last()).after_op(ops.last())
        }
    }

    /// The state after `update(d)` for each `d` of `deltas`, in order.
    pub open spec fn after_updates(self, deltas: Seq<u64>) -> ProgressModel
        decreases deltas.len(),
    {
        if deltas.len() == 0 {
            self
        } else {
            self.after_updates(deltas.drop_last()).after_update(deltas.last())
        }
    }

    /// The state after `init(t)` for each `t` of `totals`, in order.
    pub open spec fn after_inits(self, totals: Seq<u64>) -> ProgressModel
        decreases totals.len(),
    {
        if totals.len() == 0 {
            self
        } else {
            self.after_inits(totals.drop_last()).after_init(totals.last())
        }
    }
}

/// The sum of `deltas`.
pub open spec fn sum(deltas: Seq<u64>) -> int
    decreases deltas.len(),
{
    if deltas.len() == 0 {
        0
    } else {
        sum(deltas.drop_last()) + deltas.last()
    }
}

/// The single tracker. Its bar exists exactly when it has been initialized.
pub struct ProgressTracker {
    bar: Option<ProgressBar>,
    total: u64,
    position: u64,
    finished: bool,
}

impl View for ProgressTracker {
    type V = ProgressModel;

    closed spec fn view(&self) -> ProgressModel {
        if self.bar.is_some() {
            ProgressModel {
                initialized: true,
                total: self.total,
                position: self.position,
                finished: self.finished,
            }
        } else {
            ProgressModel::uninitialized()
        }
    }
}

impl ProgressTracker {
    /// A tracker that has not been initialized.
    pub fn new() -> (r: ProgressTracker)
        ensures
            r@ == ProgressModel::uninitialized(),
    {
        ProgressTracker { bar: None, total: 0, position: 0, finished: false }
    }

    pub fn is_initialized(&self) -> (r: bool)
        ensures
            r == self@.initialized,
    {
        self.bar.is_some()
    }

    pub fn total(&self) -> (r: u64)
        ensures
            r == self@.total,
    {
        if self.bar.is_some() { self.total } else { 0 }
    }

    pub fn position(&self) -> (r: u64)
        ensures
            r == self@.position,
    {
        if self.bar.is_some() { self.position } else { 0 }
    }

    pub fn is_finished(&self) -> (r: bool)
        ensures
            r == self@.finished,
    {
        self.bar.is_some() && self.finished
    }
}

/// Creates the bar on the first call, drawing against `len` with a steady
/// redraw; a later call changes nothing. `spinner` says whether the console
/// can draw the spinner glyphs.
pub fn init_progress_bar(tracker: &mut ProgressTracker, len: u64, spinner: bool)
    ensures
        final(tracker)@ == old(tracker)@.after_init(len),
{
    if tracker.bar.is_none() {
        let bar = ProgressBar::new(len).with_style(bar_style(spinner));
        bar.enable_steady_tick(TICK_MS);
        bar.reset();
        tracker.bar = Some(bar);
        tracker.total = len;
        tracker.position = 0;
        tracker.finished = false;
    }
}

/// Advances the position by `inc`; nothing happens before `init`.
pub fn update_bar(tracker: &mut ProgressTracker, inc: u64)
    ensures
        final(tracker)@ == old(tracker)@.after_update(inc),
{
    match &tracker.bar {
        Some(bar) => {
            bar.inc(inc);
            tracker.position = tracker.position.saturating_add(inc);
        },
        None => {},
    }
}

/// Moves the position to `pos`; nothing happens before `init`.
pub fn set_pos(tracker: &mut ProgressTracker, pos: u64)
    ensures
        final(tracker)@ == old(tracker)@.after_set_position(pos),
{
    match &tracker.bar {
        Some(bar) => {
            bar.set_position(pos);
            tracker.position = pos;
        },
        None => {},
    }
}

/// Draws the completed state once; later calls, and calls before `init`,
/// change nothing.
pub fn finish_progress_bar(tracker: &mut ProgressTracker)
    ensures
        final(tracker)@ == old(tracker)@.after_finish(),
{
    match &tracker.bar {
        Some(bar) => {
            if !tracker.finished {
                bar.finish();
                tracker.finished = true;
            }
        },
        None => {},
    }
}

pub(crate) proof fn lemma_sum_nonnegative(deltas: Seq<u64>)
    ensures
        sum(deltas) >= 0,
    decreases deltas.len(),
{
    if deltas.len() > 0 {
        lemma_sum_nonnegative(deltas.drop_last());
    }
}

proof fn lemma_sum_remove(deltas: Seq<u64>, i: int)
    requires
        0 <= i < deltas.len(),
    ensures
        sum(deltas) == sum(deltas.remove(i)) + deltas[i],
    decreases deltas.len(),
{
    let rest = deltas.remove(i);
    if i == deltas.len() - 1 {
        assert(rest =~= deltas.drop_last());
    } else {
        lemma_sum_remove(deltas.drop_last(), i);
        assert(rest.drop_last() =~= deltas.drop_last().remove(i));
        assert(rest.last() == deltas.last());
    }
}

/// Sequences holding the same deltas, in any order, have the same sum.
proof fn lemma_sum_reordered(a: Seq<u64>, b: Seq<u64>)
    requires
        a.to_multiset() == b.to_multiset(),
    ensures
        sum(a) == sum(b),
    decreases a.len(),
{
    broadcast use vstd::seq_lib::group_to_multiset_ensures, vstd::multiset::group_multiset_axioms;

    if a.len() == 0 {
        assert(a.to_multiset().len() == 0);
        assert(b.len() == 0);
    } else {
        let x = a.last();
        let rest = a.drop_last();
        assert(rest.push(x) =~= a);
        assert(b.to_multiset().count(x) > 0);
        assert(b.contains(x));
        let i = choose|i: int| 0 <= i < b.len() && b[i] == x;
        assert(b.remove(i).to_multiset() =~= rest.to_multiset());
        lemma_sum_reordered(rest, b.remove(i));
        lemma_sum_remove(b, i);
    }
}

/// Increments accumulate: after `update(d)` for each `d` of `deltas`, the
/// position is the earlier position plus the sum of the deltas, held at
/// `u64::MAX`; the total and the completed state are unchanged.
pub proof fn lemma_updates_accumulate(m: ProgressModel, deltas: Seq<u64>)
    requires
        m.initialized,
    ensures
        m.after_updates(deltas) == (ProgressModel {
            position: saturating_sum(m.position as int, sum(deltas)),
            ..m
        }),
    decreases deltas.len(),
{
    if deltas.len() > 0 {
        lemma_updates_accumulate(m, deltas.drop_last());
        lemma_sum_nonnegative(deltas.drop_last());
    } else {
        assert(saturating_sum(m.position as int, 0) == m.position);
    }
}

/// Increments commute: the same deltas, arriving in any order (as they do
/// from concurrent workers), leave the tracker in the same state.
pub proof fn lemma_update_order_irrelevant(m: ProgressModel, a: Seq<u64>, b: Seq<u64>)
    requires
        a.to_multiset() == b.to_multiset(),
    ensures
        m.after_updates(a) == m.after_updates(b),
{
    if m.initialized {
        lemma_updates_accumulate(m, a);
        lemma_updates_accumulate(m, b);
        lemma_sum_reordered(a, b);
    } else {
        lemma_uninitialized_updates(m, a);
        lemma_uninitialized_updates(m, b);
    }
}

proof fn lemma_uninitialized_updates(m: ProgressModel, deltas: Seq<u64>)
    requires
        !m.initialized,
    ensures
        m.after_updates(deltas) == m,
    decreases deltas.len(),
{
    if deltas.len() > 0 {
        lemma_uninitialized_updates(m, deltas.drop_last());
    }
}

/// The first `init` wins: after `init(t)` for each `t` of `totals`, the total
/// is the first one and the position is zero; an initialized tracker is left
/// as it was by every later `init`.
pub proof fn lemma_first_init_wins(m: ProgressModel, totals: Seq<u64>)
    requires
        totals.len() > 0,
    ensures
        !m.initialized ==> m.after_inits(totals) == (ProgressModel {
            initialized: true,
            total: totals[0],
            position: 0,
            finished: false,
        }),
        m.initialized ==> m.after_inits(totals) == m,
    decreases totals.len(),
{
    let earlier = totals.drop_last();
    if totals.len() > 1 {
        lemma_first_init_wins(m, earlier);
        assert(earlier[0] == totals[0]);
    } else {
        assert(m.after_inits(earlier) == m);
    }
}

/// Before `init`, updates, position changes and `finish` have no effect.
pub proof fn lemma_uninitialized_ignores(ops: Seq<ProgressOp>)
    ensures
        ProgressModel::uninitialized().after_ops(ops) == ProgressModel::uninitialized(),
    decreases ops.len(),
{
    if ops.len() > 0 {
        lemma_uninitialized_ignores(ops.drop_last());
    }
}

/// `finish` is idempotent: a second call changes nothing, whether or not any
/// update came before.
pub proof fn lemma_finish_idempotent(m: ProgressModel)
    ensures
        m.after_finish().after_finish() == m.after_finish(),
        m.initialized ==> m.after_finish().finished,
{
}

} // verus!
