//! Where a sequence of steps stands.
use vstd::prelude::*;

verus! {

/// Where a sequence of steps stands: at a step that is still to be performed, at its end, or at
/// the message with which it failed.
#[derive(Debug, PartialEq, Eq)]
pub enum Progress<S> {
    Continue(S),
    Finished,
    Failed(String),
}

/// `Progress` with its message as a sequence.
pub enum ProgressView<S> {
    Continue(S),
    Finished,
    Failed(Seq<char>),
}

impl<S> View for Progress<S> {
    type V = ProgressView<S>;

    open spec fn view(&self) -> ProgressView<S> {
        match *self {
            Progress::Continue(step) => ProgressView::Continue(step),
            Progress::Finished => ProgressView::Finished,
            Progress::Failed(message) => ProgressView::Failed(message@),
        }
    }
}

/// What came of a step, with the cause of a failure as a sequence.
pub open spec fn outcome_view(outcome: Result<(), String>) -> Result<(), Seq<char>> {
    match outcome {
        Ok(()) => Ok(()),
        Err(cause) => Err(cause@),
    }
}

/// A message made of what failed and of its cause.
pub fn failed<S>(what: &str, cause: &str) -> (r: Progress<S>)
    ensures
        r@ == ProgressView::<S>::Failed(what@ + cause@),
{
    let mut message: String = what.to_owned();
    message.append(cause);
    Progress::Failed(message)
}

}
