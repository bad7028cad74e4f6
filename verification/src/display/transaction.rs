//! Operations on the panel as sequences of steps.
//!
//! The driver does not touch the bus, the reset line or a timer. It hands
//! out an operation as a [`Transaction`]: the steps to perform, in order.
//! Whoever owns the hardware performs one step, reports how it went, and is
//! told what comes next.

use super::instruction::Instruction;
use super::{Error, Orientation};
use vstd::prelude::*;

verus! {

/// One thing to do on the hardware.
#[derive(Debug, PartialEq, Eq)]
pub enum Step {
    /// Send one command byte.
    Command(Instruction),
    /// Send parameter bytes, in order.
    Data(Vec<u8>),
    /// Send pixel values in order, each as two bytes, high byte first.
    Pixels(Vec<u16>),
    /// Wait for at least this many microseconds.
    DelayUs(u32),
    /// Drive the reset line high.
    ResetHigh,
    /// Drive the reset line low.
    ResetLow,
}

/// A [`Step`] as a mathematical value.
pub enum StepView {
    Command(Instruction),
    Data(Seq<u8>),
    Pixels(Seq<u16>),
    DelayUs(u32),
    ResetHigh,
    ResetLow,
}

impl View for Step {
    type V = StepView;

    open spec fn view(&self) -> StepView {
        match self {
            Step::Command(instruction) => StepView::Command(*instruction),
            Step::Data(bytes) => StepView::Data(bytes@),
            Step::Pixels(colors) => StepView::Pixels(colors@),
            Step::DelayUs(us) => StepView::DelayUs(*us),
            Step::ResetHigh => StepView::ResetHigh,
            Step::ResetLow => StepView::ResetLow,
        }
    }
}

/// The steps of a vector as mathematical values.
pub open spec fn steps_view(steps: Seq<Step>) -> Seq<StepView> {
    Seq::new(steps.len(), |i: int| steps[i]@)
}

/// Why a step could not be performed.
#[derive(Debug, PartialEq, Eq)]
pub enum Failure<PinE> {
    /// The channel reported that a transmission failed.
    Bus,
    /// The reset line could not be driven.
    Pin(PinE),
}

/// The error that an operation ends with after `failure`.
pub open spec fn error_of<PinE>(failure: Failure<PinE>) -> Error<PinE> {
    match failure {
        Failure::Bus => Error::DisplayError,
        Failure::Pin(e) => Error::Pin(e),
    }
}

/// An operation in flight: the steps that are still to be performed, and
/// the orientation that the driver records once all of them succeeded.
pub struct Transaction {
    steps: Vec<Step>,
    commit: Option<Orientation>,
}

/// A [`Transaction`] as a mathematical value.
pub struct TransactionView {
    /// The steps that are still to be performed, next one first.
    pub steps: Seq<StepView>,
    /// The orientation to record on success, if the operation sets one.
    pub commit: Option<Orientation>,
}

impl View for Transaction {
    type V = TransactionView;

    closed spec fn view(&self) -> TransactionView {
        TransactionView { steps: steps_view(self.steps@), commit: self.commit }
    }
}

/// What to do next for an operation.
pub enum Progress<PinE> {
    /// Perform this step, then report its outcome for the transaction that
    /// holds the rest.
    Perform(Step, Transaction),
    /// The operation is over, with this result.
    Finished(Result<(), Error<PinE>>),
}

/// A [`Progress`] as a mathematical value.
pub enum ProgressView<PinE> {
    Perform(StepView, TransactionView),
    Finished(Result<(), Error<PinE>>),
}

impl<PinE> View for Progress<PinE> {
    type V = ProgressView<PinE>;

    open spec fn view(&self) -> ProgressView<PinE> {
        match self {
            Progress::Perform(step, rest) => ProgressView::Perform(step@, rest@),
            Progress::Finished(result) => ProgressView::Finished(*result),
        }
    }
}

/// The transition of an operation: from the orientation on record, the
/// steps that are left and the outcome of the step performed last, to the
/// orientation on record afterwards and what to do next.
///
/// A failure ends the operation at once with the matching error. Otherwise
/// the next step is handed out; when none is left the operation ends in
/// success, and only then the orientation it set out to record is recorded.
pub open spec fn spec_advance<PinE>(
    orientation: Orientation,
    txn: TransactionView,
    last: Result<(), Failure<PinE>>,
) -> (Orientation, ProgressView<PinE>) {
    match last {
        Err(failure) => (orientation, ProgressView::Finished(Err(error_of(failure)))),
        Ok(_) => if txn.steps.len() == 0 {
            (
                match txn.commit {
                    Some(o) => o,
                    None => orientation,
                },
                ProgressView::Finished(Ok(())),
            )
        } else {
            (
                orientation,
                ProgressView::Perform(
                    txn.steps[0],
                    TransactionView { steps: txn.steps.skip(1), commit: txn.commit },
                ),
            )
        },
    }
}

impl Transaction {
    /// A transaction of the given steps that records `commit` on success.
    pub(crate) fn new(steps: Vec<Step>, commit: Option<Orientation>) -> (txn: Transaction)
        ensures
            txn@ == (TransactionView { steps: steps_view(steps@), commit }),
    {
        Transaction { steps, commit }
    }

    /// Number of steps that are still to be performed.
    pub fn remaining(&self) -> (n: usize)
        ensures
            n == self@.steps.len(),
    {
        self.steps.len()
    }

    /// Takes the next step out of the transaction, or tells what it records
    /// on success when no step is left.
    pub(crate) fn take(self) -> (r: Result<(Step, Transaction), Option<Orientation>>)
        ensures
            match r {
                Ok((step, rest)) => self@.steps.len() > 0 && step@ == self@.steps[0] && rest@ == (
                    TransactionView { steps: self@.steps.skip(1), commit: self@.commit }
                ),
                Err(commit) => self@.steps.len() == 0 && commit == self@.commit,
            },
    {
        let Transaction { mut steps, commit } = self;
        if steps.len() == 0 {
            Err(commit)
        } else {
            let ghost before = steps@;
            let step = steps.remove(0);
            proof {
                assert(steps_view(steps@) =~= steps_view(before).skip(1));
            }
            Ok((step, Transaction { steps, commit }))
        }
    }
}

} // verus!

verus! {

/// What an operation comes to when it is carried through.
pub struct Outcome<PinE> {
    /// The steps that were handed out, in order.
    pub issued: Seq<StepView>,
    /// The result the operation ended with.
    pub result: Result<(), Error<PinE>>,
    /// The orientation on record at the end.
    pub orientation: Orientation,
}

/// Carries an operation through from the transition [`spec_advance`]:
/// `last` is the outcome reported for the step before, `reports[0]` the one
/// that will be reported for the step handed out next, `reports[1]` for the
/// one after it, and so on.
pub open spec fn run_from<PinE>(
    orientation: Orientation,
    txn: TransactionView,
    last: Result<(), Failure<PinE>>,
    reports: Seq<Result<(), Failure<PinE>>>,
) -> Outcome<PinE>
    decreases txn.steps.len(),
{
    let (recorded, next) = spec_advance(orientation, txn, last);
    match next {
        ProgressView::Finished(result) => Outcome {
            issued: Seq::empty(),
            result,
            orientation: recorded,
        },
        ProgressView::Perform(step, rest) => {
            let tail = run_from(recorded, rest, reports[0], reports.skip(1));
            Outcome {
                issued: seq![step] + tail.issued,
                result: tail.result,
                orientation: tail.orientation,
            }
        },
    }
}

/// Carries a fresh operation through: `reports[i]` is the outcome reported
/// for the step that is handed out as number `i`.
pub open spec fn run<PinE>(
    orientation: Orientation,
    txn: TransactionView,
    reports: Seq<Result<(), Failure<PinE>>>,
) -> Outcome<PinE> {
    run_from(orientation, txn, Ok(()), reports)
}

/// An operation hands out its steps in their order and stops at the first
/// one that fails.
///
/// Let `k` be the number of steps that succeed before the first failure.
/// Where a step fails, exactly the first `k + 1` steps are handed out, the
/// failed one last; the operation ends with the error for that failure and
/// the orientation on record is the one from before. Where none fails, all
/// steps are handed out, the operation ends in success, and the orientation
/// on record is the one the operation was to set, if it was to set one.
pub proof fn lemma_run_stops_at_first_failure<PinE>(
    orientation: Orientation,
    txn: TransactionView,
    reports: Seq<Result<(), Failure<PinE>>>,
    k: int,
)
    requires
        0 <= k <= txn.steps.len() <= reports.len(),
        forall|j: int| 0 <= j < k ==> (#[trigger] reports[j]) is Ok,
        k < txn.steps.len() ==> reports[k] is Err,
    ensures
        k < txn.steps.len() ==> run(orientation, txn, reports) == (Outcome::<PinE> {
            issued: txn.steps.take(k + 1),
            result: Err(error_of(reports[k]->Err_0)),
            orientation,
        }),
        k == txn.steps.len() ==> run(orientation, txn, reports) == (Outcome::<PinE> {
            issued: txn.steps,
            result: Ok(()),
            orientation: match txn.commit {
                Some(o) => o,
                None => orientation,
            },
        }),
    decreases txn.steps.len(),
{
    if txn.steps.len() == 0 {
        assert(run(orientation, txn, reports).issued =~= txn.steps);
    } else {
        let rest = TransactionView { steps: txn.steps.skip(1), commit: txn.commit };
        let later = reports.skip(1);
        let tail = run_from(orientation, rest, reports[0], later);
        if k == 0 {
            assert(tail.issued =~= Seq::<StepView>::empty());
            assert(seq![txn.steps[0]] + tail.issued =~= txn.steps.take(1));
        } else {
            assert(reports[0] is Ok);
            assert forall|j: int| 0 <= j < k - 1 implies (#[trigger] later[j]) is Ok by {
                assert(reports[j + 1] is Ok);
            }
            lemma_run_stops_at_first_failure(orientation, rest, later, k - 1);
            if k < txn.steps.len() {
                assert(later[k - 1] == reports[k]);
                assert(seq![txn.steps[0]] + rest.steps.take(k) =~= txn.steps.take(k + 1));
            } else {
                assert(seq![txn.steps[0]] + rest.steps =~= txn.steps);
            }
        }
    }
}

} // verus!
