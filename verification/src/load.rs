//! Loading a file: name it, read it, decode it.

use crate::error::{LoadError, Outcome};
use crate::extension::Extension;
use crate::runs::{
    lemma_outcome, lemma_plain_load_only_reads, lemma_target_is_fixed, lemma_wf_is_kept, Answers,
};
use crate::session::{Phase, Reply, Session, SessionView, Step, StepView};
use vstd::prelude::*;
use vstd::string::*;

verus! {

/// The name of the file that holds `filename` in `format`: the base name,
/// a dot, and the canonical suffix of the format, whatever token named it.
pub open spec fn resolved_name(filename: Seq<char>, format: Extension) -> Seq<char> {
    filename + seq!['.'] + format.canonical()
}

/// How a call on `filename` and `extension` starts. An extension that names
/// no format ends the call at once with `InvalidExtension`, before anything
/// is asked of the caller. Otherwise a session is pending on the resolved
/// file name, in the classified format: it first probes for the file where
/// it recovers, and first reads it where it does not.
pub open spec fn starts<T>(
    filename: Seq<char>,
    extension: Seq<char>,
    recovers: bool,
    step: Step<T>,
) -> bool {
    match Extension::classification(extension) {
        Some(format) => step@ == StepView::Pending(
            SessionView {
                file_name: resolved_name(filename, format),
                format,
                recovers,
                phase: if recovers {
                    Phase::<T>::Probing
                } else {
                    Phase::<T>::Reading
                },
            },
        ),
        None => step matches Step::Finished(Outcome::Failed(LoadError::InvalidExtension(token)))
            && token@ == extension,
    }
}

/// The name of the file that holds `filename` in `format`.
pub fn resolve(filename: &str, format: Extension) -> (file_name: String)
    ensures
        file_name@ == resolved_name(filename@, format),
{
    let mut file_name = filename.to_owned();
    proof {
        reveal_strlit(".");
    }
    file_name.append(".");
    file_name.append(format.canonical_extension());
    assert(file_name@ =~= resolved_name(filename@, format));
    file_name
}

/// Starts a call on `filename` and `extension`.
pub(crate) fn begin<T>(filename: &str, extension: &str, recovers: bool) -> (step: Step<T>)
    ensures
        starts(filename@, extension@, recovers, step),
{
    match Extension::classify(extension) {
        Ok(format) => {
            let phase = if recovers {
                Phase::Probing
            } else {
                Phase::Reading
            };
            Step::Pending(Session::open(resolve(filename, format), format, recovers, phase))
        },
        Err(error) => Step::Finished(Outcome::Failed(LoadError::InvalidExtension(error.token))),
    }
}

/// Starts the load of `filename` in the format that `extension` names.
///
/// The session asks for the file's text and then for its decoding. It ends
/// with the decoded value, with `Io` where the read failed, or with `Decode`
/// where the decoding failed; it never asks for anything else.
pub fn load<T>(filename: &str, extension: &str) -> (step: Step<T>)
    ensures
        starts(filename@, extension@, false, step),
{
    begin(filename, extension, false)
}

/// A call keeps the format that its extension was classified to: whatever
/// the replies, the session works on the file that was resolved at the
/// start, and what it encodes, it encodes with the encoder of that format.
pub proof fn lemma_call_keeps_its_format<T>(
    filename: Seq<char>,
    extension: Seq<char>,
    recovers: bool,
    step: Step<T>,
    replies: Seq<Reply<T>>,
)
    requires
        starts(filename, extension, recovers, step),
    ensures
        step@ matches StepView::Pending(session) ==> (session.after(replies) matches StepView::Pending(
            next,
        ) ==> {
            &&& Extension::classification(extension) == Some(next.format)
            &&& next.file_name == resolved_name(filename, next.format)
            &&& next.phase matches Phase::Encoding(_, encoder) ==> next.format.encoding() == Some(
                encoder,
            )
        }),
{
    if let StepView::Pending(session) = step@ {
        lemma_target_is_fixed(session, replies);
        lemma_wf_is_kept(session, replies);
    }
}

/// What a load returns: `InvalidExtension` with the token for an extension
/// that names no format; else `Io` where the read fails, `Decode` where the
/// decoding fails, and the decoded value where neither does.
pub proof fn lemma_load_returns<T>(
    filename: Seq<char>,
    extension: Seq<char>,
    step: Step<T>,
    answers: Answers<T>,
)
    requires
        starts(filename, extension, false, step),
    ensures
        match step@ {
            StepView::Pending(session) => {
                &&& Extension::classification(extension) is Some
                &&& session.outcome(answers).as_result() == answers.loaded()
                &&& !(session.outcome(answers) is Unsaved)
            },
            StepView::Finished(outcome) => {
                &&& Extension::classification(extension) is None
                &&& outcome matches Outcome::Failed(LoadError::InvalidExtension(token)) && token@
                    == extension
            },
        },
{
    if let StepView::Pending(session) = step@ {
        lemma_outcome(session, answers);
    }
}

/// A load surfaces the first fault and does nothing about it: whatever the
/// replies, it asks for a read and a decoding and for nothing else, so it
/// never prompts and never writes, and it ends with the decoded value or
/// with `InvalidExtension`, `Io` or `Decode`.
pub proof fn lemma_load_only_reads<T>(
    filename: Seq<char>,
    extension: Seq<char>,
    step: Step<T>,
    replies: Seq<Reply<T>>,
)
    requires
        starts(filename, extension, false, step),
    ensures
        match step@ {
            StepView::Pending(session) => match session.after(replies) {
                StepView::Pending(next) => next.phase is Reading || next.phase is Decoding,
                StepView::Finished(outcome) => {
                    ||| outcome is Ready
                    ||| outcome matches Outcome::Failed(error) && (error is Io || error is Decode)
                },
            },
            StepView::Finished(outcome) => outcome matches Outcome::Failed(error)
                && error is InvalidExtension,
        },
{
    if let StepView::Pending(session) = step@ {
        lemma_plain_load_only_reads(session, replies);
    }
}

} // verus!
