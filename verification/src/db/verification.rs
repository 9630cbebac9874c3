//! Storing that a member is verified.

use vstd::prelude::*;

use crate::text::{own, same};

verus! {

/// What became of an attempt to store that a member is verified.
#[derive(Debug)]
pub enum UpsertResult {
    /// The member was not verified before.
    Created,
    /// The member was verified under the same name before.
    Refreshed,
    /// The member was verified under another name before.
    Rebound {
        /// The name before.
        from: String,
        /// The name now.
        to: String,
    },
    /// Somebody else in the server is verified under the name; nothing was stored.
    IgnTaken {
        /// Who that is.
        holder: i64,
    },
}

/// What became of an attempt, over views.
pub ghost enum UpsertResultView {
    Created,
    Refreshed,
    Rebound { from: Seq<char>, to: Seq<char> },
    IgnTaken { holder: i64 },
}

impl View for UpsertResult {
    type V = UpsertResultView;

    open spec fn view(&self) -> UpsertResultView {
        match self {
            UpsertResult::Created => UpsertResultView::Created,
            UpsertResult::Refreshed => UpsertResultView::Refreshed,
            UpsertResult::Rebound { from, to } => UpsertResultView::Rebound {
                from: from@,
                to: to@,
            },
            UpsertResult::IgnTaken { holder } => UpsertResultView::IgnTaken { holder: *holder },
        }
    }
}

/// What is known so far of an attempt. What is not known is `None`.
pub struct CompleteFacts {
    /// Who else in the server is verified under the name, or that nobody is.
    pub holder: Option<Option<i64>>,
    /// The name under which the member was verified before, or that there is none.
    pub prior: Option<Option<String>>,
    /// Whether the new row was stored and the pending one deleted.
    pub stored: bool,
}

/// What to do about an attempt.
#[derive(Debug)]
pub enum CompleteStep {
    /// Find out who else is verified under the name.
    FindHolder,
    /// Find out the name before.
    FindPrior,
    /// Store the new row and delete the pending one, both or neither.
    Store,
    /// It is over.
    Done(UpsertResult),
}

/// What to do about an attempt, over views.
pub ghost enum CompleteStepView {
    FindHolder,
    FindPrior,
    Store,
    Done(UpsertResultView),
}

impl View for CompleteStep {
    type V = CompleteStepView;

    open spec fn view(&self) -> CompleteStepView {
        match self {
            CompleteStep::FindHolder => CompleteStepView::FindHolder,
            CompleteStep::FindPrior => CompleteStepView::FindPrior,
            CompleteStep::Store => CompleteStepView::Store,
            CompleteStep::Done(r) => CompleteStepView::Done(r@),
        }
    }
}

/// What a row that was stored means for the member.
pub open spec fn stored_as(prior: Option<String>, ign: Seq<char>) -> UpsertResultView {
    match prior {
        Some(p) => if p@ != ign {
            UpsertResultView::Rebound { from: p@, to: ign }
        } else {
            UpsertResultView::Refreshed
        },
        None => UpsertResultView::Created,
    }
}

/// What to do about an attempt: nothing is stored where somebody else has the name.
pub open spec fn complete_step_of(f: CompleteFacts, ign: Seq<char>) -> CompleteStepView {
    match f.holder {
        None => CompleteStepView::FindHolder,
        Some(Some(holder)) => CompleteStepView::Done(UpsertResultView::IgnTaken { holder }),
        Some(None) => match f.prior {
            None => CompleteStepView::FindPrior,
            Some(prior) => if f.stored {
                CompleteStepView::Done(stored_as(prior, ign))
            } else {
                CompleteStepView::Store
            },
        },
    }
}

/// What to do next about an attempt.
pub fn complete_step(f: &CompleteFacts, realmeye_ign: &str) -> (r: CompleteStep)
    ensures
        r@ == complete_step_of(*f, realmeye_ign@),
{
    match f.holder {
        None => {
            return CompleteStep::FindHolder;
        },
        Some(Some(holder)) => {
            return CompleteStep::Done(UpsertResult::IgnTaken { holder });
        },
        Some(None) => {},
    }
    match &f.prior {
        None => CompleteStep::FindPrior,
        Some(prior) => if f.stored {
            CompleteStep::Done(
                match prior {
                    Some(p) => if !same(p, realmeye_ign) {
                        UpsertResult::Rebound { from: own(p), to: own(realmeye_ign) }
                    } else {
                        UpsertResult::Refreshed
                    },
                    None => UpsertResult::Created,
                },
            )
        } else {
            CompleteStep::Store
        },
    }
}

/// A name belongs to one member of a server: where somebody else has it, nothing is
/// ever stored, and the answer names who has it.
pub proof fn names_are_not_taken_over(f: CompleteFacts, ign: Seq<char>, holder: i64)
    requires
        f.holder == Some(Some(holder)),
    ensures
        complete_step_of(f, ign) == CompleteStepView::Done(UpsertResultView::IgnTaken { holder }),
{
}

/// A name that nobody else holds is stored, once it is known what the member was called
/// before; what is told then is that they are new, that nothing changed, or from which
/// name they changed to which.
pub proof fn free_names_are_stored(f: CompleteFacts, ign: Seq<char>)
    requires
        f.holder == Some(None::<i64>),
    ensures
        f.prior is None ==> complete_step_of(f, ign) is FindPrior,
        f.prior is Some && !f.stored ==> complete_step_of(f, ign) is Store,
        f.prior == Some(None::<String>) && f.stored ==> complete_step_of(f, ign)
            == CompleteStepView::Done(UpsertResultView::Created),
        f.prior is Some && f.prior->0 is Some && f.prior->0->0@ == ign && f.stored
            ==> complete_step_of(f, ign) == CompleteStepView::Done(UpsertResultView::Refreshed),
        f.prior is Some && f.prior->0 is Some && f.prior->0->0@ != ign && f.stored
            ==> complete_step_of(f, ign) == CompleteStepView::Done(
            UpsertResultView::Rebound { from: f.prior->0->0@, to: ign },
        ),
{
}

/// Nothing is stored before it is known that nobody else holds the name.
pub proof fn nothing_is_stored_over_a_holder(f: CompleteFacts, ign: Seq<char>)
    ensures
        complete_step_of(f, ign) is Store ==> f.holder == Some(None::<i64>) && !f.stored,
        f.holder is None ==> complete_step_of(f, ign) is FindHolder,
{
}

/// A name that was bound anew tells the one before and the one after, each as itself.
pub proof fn rebinding_tells_both_names(from: String, to: String, holder: i64)
    ensures
        (UpsertResult::Rebound { from, to })@ == (UpsertResultView::Rebound { from: from@, to: to@ }),
        (UpsertResult::IgnTaken { holder })@ == (UpsertResultView::IgnTaken { holder }),
        UpsertResult::Created@ is Created,
        UpsertResult::Refreshed@ is Refreshed,
{
}

} // verus!
