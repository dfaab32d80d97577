//! The multi-worker tracker: one status line per worker, in worker order,
//! and one aggregate bar below them.

use crate::layout::{bar_style, ordinal_label, padded_label, worker_bar};
use crate::render::set_bar_message;
use crate::single::{lemma_sum_nonnegative, saturating_sum, sum, TICK_MS};
use indicatif::{MultiProgress, ProgressBar, ProgressDrawTarget};
use vstd::prelude::*;

verus! {

/// A caller's mistake reported by the multi-worker tracker.
#[derive(Debug, Clone, Copy, PartialEq, Eq, Structural)]
pub enum ProgressError {
    /// A worker index that addresses none of the worker lines.
    WorkerOutOfRange { index: usize, workers: usize },
}

/// What one display line shows.
pub enum LineModel {
    /// A worker's line: its fixed label and its current message.
    Worker { label: Seq<char>, message: Seq<char> },
    /// The aggregate bar.
    Aggregate { total: u64, position: u64 },
}

impl LineModel {
    pub open spec fn label(self) -> Seq<char> {
        match self {
            LineModel::Worker { label, .. } => label,
            LineModel::Aggregate { .. } => Seq::empty(),
        }
    }

    /// The line after `delta` is added to an aggregate bar.
    pub open spec fn advanced(self, delta: u64) -> LineModel {
        match self {
            LineModel::Aggregate { total, position } => LineModel::Aggregate {
                total,
                position: saturating_sum(position as int, delta as int),
            },
            LineModel::Worker { .. } => self,
        }
    }
}

/// What a multi-worker tracker records: its lines in display order.
pub struct MultiModel {
    pub initialized: bool,
    pub lines: Seq<LineModel>,
    pub finished: bool,
}

/// One call on a multi-worker tracker after it was made.
pub enum MultiOp {
    Message(usize, Seq<char>),
    Update(u64),
    Finish,
}

impl MultiModel {
    /// The state before any `init`.
    pub open spec fn uninitialized() -> MultiModel {
        MultiModel { initialized: false, lines: Seq::empty(), finished: false }
    }

    /// The number of worker lines.
    pub open spec fn workers(self) -> int {
        self.lines.len() - 1
    }

    /// The lines that `init(total, workers)` lays out: the workers in order,
    /// labelled by their 1-based ordinal with empty messages, then the
    /// aggregate bar at zero.
    pub open spec fn initial_lines(total: u64, workers: nat) -> Seq<LineModel> {
        Seq::new(
            workers + 1,
            |i: int|
                if i < workers {
                    LineModel::Worker { label: padded_label((i + 1) as nat), message: Seq::empty() }
                } else {
                    LineModel::Aggregate { total, position: 0 }
                },
        )
    }

    /// `init(total, workers)`: the first call lays out the lines; later calls
    /// change nothing.
    pub open spec fn after_init(self, total: u64, workers: usize) -> MultiModel {
        if self.initialized {
            self
        } else {
            MultiModel {
                initialized: true,
                lines: MultiModel::initial_lines(total, workers as nat),
                finished: false,
            }
        }
    }

    /// `set_worker_message(index, message)` on a worker that exists.
    pub open spec fn after_message(self, index: usize, message: Seq<char>) -> MultiModel {
        if self.initialized && index < self.workers() {
            MultiModel {
                lines: self.lines.update(
                    index as int,
                    LineModel::Worker { label: self.lines[index as int].label(), message },
                ),
                ..self
            }
        } else {
            self
        }
    }

    /// `update(delta)`: advances the last line, the aggregate bar.
    pub open spec fn after_update(self, delta: u64) -> MultiModel {
        if self.initialized {
            MultiModel {
                lines: self.lines.update(
                    self.lines.len() - 1,
                    self.lines[self.lines.len() - 1].advanced(delta),
                ),
                ..self
            }
        } else {
            self
        }
    }

    /// `finish()`: every line enters its completed state.
    pub open spec fn after_finish(self) -> MultiModel {
        if self.initialized {
            MultiModel { finished: true, ..self }
        } else {
            self
        }
    }

    pub open spec fn after_op(self, op: MultiOp) -> MultiModel {
        match op {
            MultiOp::Message(index, message) => self.after_message(index, message),
            MultiOp::Update(delta) => self.after_update(delta),
            MultiOp::Finish => self.after_finish(),
        }
    }

    /// The state after `update(d)` for each `d` of `deltas`, in order.
    pub open spec fn after_updates(self, deltas: Seq<u64>) -> MultiModel
        decreases deltas.len(),
    {
        if deltas.len() == 0 {
            self
        } else {
            self.after_updates(deltas.drop_last()).after_update(deltas.last())
        }
    }

    /// The state after the calls `ops`, in order.
    pub open spec fn after_ops(self, ops: Seq<MultiOp>) -> MultiModel
        decreases ops.len(),
    {
        if ops.len() == 0 {
            self
        } else {
            self.after_ops(ops.drop_last()).after_op(ops.last())
        }
    }
}

struct MultiState {
    multi: MultiProgress,
    bars: Vec<ProgressBar>,
    labels: Vec<String>,
    messages: Vec<String>,
    total: u64,
    position: u64,
    finished: bool,
}

/// The multi-worker tracker. Once initialized it holds one bar per worker
/// and the aggregate bar last, beside the labels and messages it drew.
pub struct MultiTracker {
    state: Option<MultiState>,
}

impl View for MultiTracker {
    type V = MultiModel;

    closed spec fn view(&self) -> MultiModel {
        match self.state {
            Some(st) => MultiModel {
                initialized: true,
                lines: Seq::new(
                    st.labels@.len() + 1,
                    |i: int|
                        if i < st.labels@.len() {
                            LineModel::Worker { label: st.labels@[i]@, message: st.messages@[i]@ }
                        } else {
                            LineModel::Aggregate { total: st.total, position: st.position }
                        },
                ),
                finished: st.finished,
            },
            None => MultiModel::uninitialized(),
        }
    }
}

impl MultiTracker {
    /// One bar for each line, labels and messages for each worker.
    pub closed spec fn wf(&self) -> bool {
        match self.state {
            Some(st) => {
                &&& st.bars@.len() == st.labels@.len() + 1
                &&& st.messages@.len() == st.labels@.len()
            },
            None => true,
        }
    }

    /// A tracker that has not been initialized.
    pub fn new() -> (r: MultiTracker)
        ensures
            r.wf(),
            r@ == MultiModel::uninitialized(),
    {
        MultiTracker { state: None }
    }

    pub fn is_initialized(&self) -> (r: bool)
        ensures
            r == self@.initialized,
    {
        self.state.is_some()
    }

    pub fn is_finished(&self) -> (r: bool)
        ensures
            r == self@.finished,
    {
        match &self.state {
            Some(st) => st.finished,
            None => false,
        }
    }

    /// The number of display lines; none before `init`.
    pub fn line_count(&self) -> (r: usize)
        requires
            self.wf(),
        ensures
            r == self@.lines.len(),
    {
        match &self.state {
            Some(st) => st.bars.len(),
            None => 0,
        }
    }

    /// The label of worker `index`, if it exists.
    pub fn worker_label(&self, index: usize) -> (r: Option<String>)
        requires
            self.wf(),
        ensures
            match r {
                Some(label) => self@.initialized && index < self@.workers()
                    && label@ == self@.lines[index as int].label(),
                None => !(self@.initialized && index < self@.workers()),
            },
    {
        match &self.state {
            Some(st) => {
                if index < st.labels.len() {
                    Some(st.labels[index].clone())
                } else {
                    None
                }
            },
            None => None,
        }
    }

    /// The message on worker `index`'s line, if that worker exists.
    pub fn worker_message(&self, index: usize) -> (r: Option<String>)
        requires
            self.wf(),
        ensures
            match r {
                Some(message) => self@.initialized && index < self@.workers()
                    && self@.lines[index as int] == (LineModel::Worker {
                        label: self@.lines[index as int].label(),
                        message: message@,
                    }),
                None => !(self@.initialized && index < self@.workers()),
            },
    {
        match &self.state {
            Some(st) => {
                if index < st.messages.len() {
                    Some(st.messages[index].clone())
                } else {
                    None
                }
            },
            None => None,
        }
    }

    /// The aggregate bar's `(position, total)`, once initialized.
    pub fn aggregate(&self) -> (r: Option<(u64, u64)>)
        requires
            self.wf(),
        ensures
            match r {
                Some((position, total)) => self@.initialized
                    && self@.lines.last() == (LineModel::Aggregate { total, position }),
                None => !self@.initialized,
            },
    {
        match &self.state {
            Some(st) => Some((st.position, st.total)),
            None => None,
        }
    }
}

/// Lays out `workers` hidden worker lines and the aggregate bar below them,
/// attaches them to one surface drawing to stderr, on the first call; a later
/// call changes nothing. `spinner` says whether the console can draw the
/// spinner glyphs.
pub fn init_multi_progress_bar(tracker: &mut MultiTracker, len: u64, workers: usize, spinner: bool)
    requires
        old(tracker).wf(),
        workers < usize::MAX,
    ensures
        final(tracker).wf(),
        final(tracker)@ == old(tracker)@.after_init(len, workers),
{
    if tracker.state.is_none() {
        let multi = MultiProgress::new();
        let mut bars: Vec<ProgressBar> = Vec::new();
        let mut labels: Vec<String> = Vec::new();
        let mut messages: Vec<String> = Vec::new();
        let mut i: usize = 0;
        while i < workers
            invariant
                i <= workers < usize::MAX,
                bars@.len() == i,
                labels@.len() == i,
                messages@.len() == i,
                forall|j: int|
                    0 <= j < i ==> #[trigger] labels@[j]@ == padded_label((j + 1) as nat)
                        && messages@[j]@ == Seq::<char>::empty(),
            decreases workers - i,
        {
            let label = ordinal_label(i + 1);
            let bar = worker_bar(&label);
            bars.push(multi.add(bar));
            labels.push(label);
            messages.push(String::new());
            i = i + 1;
        }
        let aggregate = ProgressBar::hidden().with_style(bar_style(spinner));
        aggregate.enable_steady_tick(TICK_MS);
        aggregate.set_length(len);
        aggregate.reset();
        bars.push(multi.add(aggregate));
        multi.set_draw_target(ProgressDrawTarget::stderr());
        tracker.state = Some(
            MultiState { multi, bars, labels, messages, total: len, position: 0, finished: false },
        );
        assert(tracker@.lines =~= MultiModel::initial_lines(len, workers as nat));
    }
}

/// Replaces the message on worker `worker_idx`'s line. An index that
/// addresses no worker is reported and changes nothing; before `init` the
/// call changes nothing.
pub fn update_mp_msg(tracker: &mut MultiTracker, worker_idx: usize, msg: String) -> (r: Result<(), ProgressError>)
    requires
        old(tracker).wf(),
    ensures
        final(tracker).wf(),
        r is Err <==> (old(tracker)@.initialized && worker_idx >= old(tracker)@.workers()),
        match r {
            Ok(()) => final(tracker)@ == old(tracker)@.after_message(worker_idx, msg@),
            Err(e) => final(tracker)@ == old(tracker)@ && e == (ProgressError::WorkerOutOfRange {
                index: worker_idx,
                workers: old(tracker)@.workers() as usize,
            }),
        },
{
    match &mut tracker.state {
        Some(st) => {
            if worker_idx < st.labels.len() {
                set_bar_message(&st.bars[worker_idx], msg.clone());
                st.messages.set(worker_idx, msg);
                assert(tracker@.lines =~= old(tracker)@.after_message(worker_idx, msg@).lines);
                Ok(())
            } else {
                Err(ProgressError::WorkerOutOfRange { index: worker_idx, workers: st.labels.len() })
            }
        },
        None => Ok(()),
    }
}

/// Advances the aggregate bar, always the last line, by `inc`; nothing
/// happens before `init`.
pub fn update_mp_bar(tracker: &mut MultiTracker, inc: u64)
    requires
        old(tracker).wf(),
    ensures
        final(tracker).wf(),
        final(tracker)@ == old(tracker)@.after_update(inc),
{
    match &mut tracker.state {
        Some(st) => {
            let last = st.bars.len() - 1;
            st.bars[last].inc(inc);
            st.position = st.position.saturating_add(inc);
            assert(tracker@.lines =~= old(tracker)@.after_update(inc).lines);
        },
        None => {},
    }
}

/// Finishes every line in display order, once; later calls, and calls
/// before `init`, change nothing.
pub fn finish_multi_progress_bar(tracker: &mut MultiTracker)
    requires
        old(tracker).wf(),
    ensures
        final(tracker).wf(),
        final(tracker)@ == old(tracker)@.after_finish(),
{
    match &mut tracker.state {
        Some(st) => {
            if !st.finished {
                let mut i: usize = 0;
                while i < st.bars.len()
                    decreases st.bars.len() - i,
                {
                    st.bars[i].finish();
                    i = i + 1;
                }
                st.finished = true;
            }
        },
        None => {},
    }
}

/// The layout of a fresh tracker: `workers + 1` lines, worker `i` labelled
/// with its zero-padded ordinal `i + 1` and an empty message, the aggregate
/// bar last at zero against `total`. Once initialized, a later `init`
/// changes nothing.
pub proof fn lemma_init_layout(m: MultiModel, total: u64, workers: usize)
    ensures
        !m.initialized ==> {
            let n = m.after_init(total, workers);
            &&& n.lines.len() == workers + 1
            &&& n.workers() == workers
            &&& n.lines.last() == (LineModel::Aggregate { total, position: 0 })
            &&& forall|i: int|
                0 <= i < workers ==> #[trigger] n.lines[i] == (LineModel::Worker {
                    label: padded_label((i + 1) as nat),
                    message: Seq::empty(),
                })
        },
        m.initialized ==> m.after_init(total, workers) == m,
{
}

/// A message reaches its own worker's line only: its label stays, and every
/// other line, the aggregate bar included, is unchanged.
pub proof fn lemma_message_touches_one_line(m: MultiModel, index: usize, message: Seq<char>)
    requires
        m.initialized,
        index < m.workers(),
    ensures
        m.after_message(index, message).lines.len() == m.lines.len(),
        m.after_message(index, message).lines[index as int] == (LineModel::Worker {
            label: m.lines[index as int].label(),
            message,
        }),
        forall|j: int|
            0 <= j < m.lines.len() && j != index ==> #[trigger] m.after_message(index, message).lines[j]
                == m.lines[j],
{
}

/// Before `init`, messages, updates and `finish` have no effect.
pub proof fn lemma_uninitialized_ignores(ops: Seq<MultiOp>)
    ensures
        MultiModel::uninitialized().after_ops(ops) == MultiModel::uninitialized(),
    decreases ops.len(),
{
    if ops.len() > 0 {
        lemma_uninitialized_ignores(ops.drop_last());
    }
}

/// `finish` is idempotent: a second call changes nothing, whether or not any
/// update came before.
pub proof fn lemma_finish_idempotent(m: MultiModel)
    ensures
        m.after_finish().after_finish() == m.after_finish(),
        m.initialized ==> m.after_finish().finished,
{
}

/// Increments of the aggregate bar accumulate: after `update(d)` for each
/// `d` of `deltas`, in any order, its position is the earlier one plus their
/// sum, held at `u64::MAX`; the worker lines are unchanged.
pub proof fn lemma_aggregate_updates_accumulate(m: MultiModel, total: u64, position: u64, deltas: Seq<u64>)
    requires
        m.initialized,
        m.lines.len() >= 1,
        m.lines.last() == (LineModel::Aggregate { total, position }),
    ensures
        m.after_updates(deltas) == (MultiModel {
            lines: m.lines.update(
                m.lines.len() - 1,
                LineModel::Aggregate { total, position: saturating_sum(position as int, sum(deltas)) },
            ),
            ..m
        }),
    decreases deltas.len(),
{
    if deltas.len() > 0 {
        lemma_aggregate_updates_accumulate(m, total, position, deltas.drop_last());
        lemma_sum_nonnegative(deltas.drop_last());
        assert(m.after_updates(deltas).lines =~= m.lines.update(
            m.lines.len() - 1,
            LineModel::Aggregate { total, position: saturating_sum(position as int, sum(deltas)) },
        ));
    } else {
        assert(m.lines.update(m.lines.len() - 1, LineModel::Aggregate { total, position }) =~= m.lines);
    }
}

} // verus!
