//! Loading a file, or asking the user for what it should hold.

use crate::error::{LoadError, Outcome};
use crate::extension::Extension;
use crate::load::{begin, starts};
use crate::runs::{lemma_outcome, lemma_recovery_fails_only_by_prompt, Answers};
use crate::session::{Reply, Step, StepView};
use vstd::prelude::*;

verus! {

/// Starts the load of `filename` in the format that `extension` names, with
/// recovery by prompt.
///
/// The session first probes for the file. A file that exists is read and
/// decoded, and its value ends the session. A file that is missing, or that
/// cannot be read or decoded, leads to a prompt; the prompted value is saved
/// in the same format if the user confirms, and ends the session either way.
pub fn load_or_prompt<T>(filename: &str, extension: &str) -> (step: Step<T>)
    ensures
        starts(filename@, extension@, true, step),
{
    begin(filename, extension, true)
}

/// What a load with recovery comes to: `InvalidExtension` with the token
/// for an extension that names no format; else the value of the file where
/// it exists and loads; else what recovery gives. Nothing is said of a call
/// that has to save in a format without encoder.
pub proof fn lemma_load_or_prompt_returns<T>(
    filename: Seq<char>,
    extension: Seq<char>,
    step: Step<T>,
    answers: Answers<T>,
)
    requires
        starts(filename, extension, true, step),
        answers.saves() ==> (Extension::classification(extension) matches Some(format)
            ==> format.encoding() is Some),
    ensures
        match step@ {
            StepView::Pending(session) => {
                &&& Extension::classification(extension) is Some
                &&& session.outcome(answers) == answers.loaded_or_recovered()
            },
            StepView::Finished(outcome) => {
                &&& Extension::classification(extension) is None
                &&& outcome matches Outcome::Failed(LoadError::InvalidExtension(token)) && token@
                    == extension
            },
        },
{
    if let StepView::Pending(session) = step@ {
        lemma_outcome(session, answers);
    }
}

/// A load with recovery is left without a value only by an extension that
/// names no format or by a prompt that fails: whatever the replies, no
/// failure to read or decode the file ends it.
pub proof fn lemma_load_or_prompt_recovers<T>(
    filename: Seq<char>,
    extension: Seq<char>,
    step: Step<T>,
    replies: Seq<Reply<T>>,
)
    requires
        starts(filename, extension, true, step),
    ensures
        match step@ {
            StepView::Pending(session) => session.after(replies) matches StepView::Finished(
                Outcome::Failed(error),
            ) ==> error is Prompt,
            StepView::Finished(outcome) => outcome matches Outcome::Failed(error)
                && error is InvalidExtension,
        },
{
    if let StepView::Pending(session) = step@ {
        lemma_recovery_fails_only_by_prompt(session, replies);
    }
}

} // verus!
