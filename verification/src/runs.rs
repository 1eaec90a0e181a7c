//! What holds of every run of a session.
//!
//! A run is a session and the replies that it is given, one after the
//! other. The laws here speak of all runs: of what a session can come to,
//! of what it never asks for, and of how soon it ends.

use crate::error::{LoadError, Outcome};
use crate::session::{Phase, Reply, SessionView, StepView};
use vstd::prelude::*;

verus! {

/// What the collaborators of one call answer when they are asked: the
/// file system, the decoder, the user, the encoder. A call asks each of
/// them once at most, so one answer each tells all that they contribute.
pub struct Answers<T> {
    /// Whether the file exists.
    pub exists: bool,
    /// The file's text, if it is read.
    pub read: Result<String, String>,
    /// The value that the text decodes to, if it is decoded.
    pub decoded: Result<T, String>,
    /// The value that the user fills in, if the user is asked.
    pub prompted: Result<T, String>,
    /// Whether the user wants the value saved, if the user is asked.
    pub confirmed: bool,
    /// The text that the value encodes to, if it is encoded.
    pub encoded: Result<String, String>,
    /// Whether the write succeeds, if it is tried.
    pub written: Result<(), String>,
}

impl<T> Answers<T> {
    /// The reply to the request of a phase.
    pub open spec fn reply(self, phase: Phase<T>) -> Reply<T> {
        match phase {
            Phase::Probing => Reply::Probed(self.exists),
            Phase::Reading => Reply::Read(self.read),
            Phase::Decoding(_) => Reply::Decoded(self.decoded),
            Phase::Prompting => Reply::Prompted(self.prompted),
            Phase::Confirming(_) => Reply::Confirmed(self.confirmed),
            Phase::Encoding(_, _) => Reply::Encoded(self.encoded),
            Phase::Writing(_, _) => Reply::Written(self.written),
        }
    }

    /// What a plain load comes to: the decoded value, or the failure of the
    /// read, or else that of the decoding.
    pub open spec fn loaded(self) -> Result<T, LoadError> {
        match self.read {
            Err(fault) => Err(LoadError::Io(fault)),
            Ok(_) => match self.decoded {
                Err(fault) => Err(LoadError::Decode(fault)),
                Ok(value) => Ok(value),
            },
        }
    }

    /// What recovery comes to: no value where the prompt fails; else the
    /// prompted value, which is saved if the user confirms, and is handed
    /// out with the diagnostic where the encoder or the write fails.
    pub open spec fn recovered(self) -> Outcome<T> {
        match self.prompted {
            Err(fault) => Outcome::Failed(LoadError::Prompt(fault)),
            Ok(value) => if !self.confirmed {
                Outcome::Ready(value)
            } else {
                match self.encoded {
                    Err(fault) => Outcome::Unsaved { value, diagnostic: fault },
                    Ok(_) => match self.written {
                        Err(fault) => Outcome::Unsaved { value, diagnostic: fault },
                        Ok(_) => Outcome::Ready(value),
                    },
                }
            },
        }
    }

    /// Whether a load with recovery comes to saving a value: the file is
    /// missing or does not load, the prompt gives a value, and the user
    /// confirms.
    pub open spec fn saves(self) -> bool {
        &&& !(self.exists && self.loaded() is Ok)
        &&& self.prompted is Ok
        &&& self.confirmed
    }

    /// What a load with recovery comes to: the value of a file that exists
    /// and loads, and recovery in every other case.
    pub open spec fn loaded_or_recovered(self) -> Outcome<T> {
        if self.exists && self.loaded() is Ok {
            Outcome::Ready(self.loaded()->Ok_0)
        } else {
            self.recovered()
        }
    }
}

impl<T> SessionView<T> {
    /// What holds of every session that the library hands out: one that
    /// does not recover only ever reads and decodes, and one that encodes
    /// or writes does so with the encoder of its own format.
    pub open spec fn wf(self) -> bool {
        &&& !self.recovers ==> self.phase is Reading || self.phase is Decoding
        &&& self.phase matches Phase::Encoding(_, encoder) ==> self.format.encoding() == Some(
            encoder,
        )
        &&& self.phase is Writing ==> self.format.encoding() is Some
    }

    /// The largest number of replies that the session can still take
    /// before it ends.
    pub open spec fn steps_left(self) -> nat {
        match self.phase {
            Phase::Probing => 7,
            Phase::Reading => 6,
            Phase::Decoding(_) => 5,
            Phase::Prompting => 4,
            Phase::Confirming(_) => 3,
            Phase::Encoding(_, _) => 2,
            Phase::Writing(_, _) => 1,
        }
    }

    /// Whether each of `replies`, given in turn, answers the request that
    /// is pending when it is given, the last of them at the latest ending
    /// the session, and none of them asking to save without an encoder.
    pub open spec fn answered_by(self, replies: Seq<Reply<T>>) -> bool
        decreases replies.len(),
    {
        replies.len() == 0 || {
            &&& self.expects(replies[0])
            &&& !self.saves_without_encoder(replies[0])
            &&& match self.advance(replies[0]) {
                StepView::Pending(next) => next.answered_by(replies.drop_first()),
                StepView::Finished(_) => replies.len() == 1,
            }
        }
    }

    /// The step that `replies`, given in turn, lead to. Replies that come
    /// after the session has ended count for nothing.
    pub open spec fn after(self, replies: Seq<Reply<T>>) -> StepView<T>
        decreases replies.len(),
    {
        if replies.len() == 0 {
            StepView::Pending(self)
        } else {
            match self.advance(replies[0]) {
                StepView::Pending(next) => next.after(replies.drop_first()),
                StepView::Finished(outcome) => StepView::Finished(outcome),
            }
        }
    }

    /// The outcome of the session when each of its requests is answered
    /// from `answers`. It says nothing of a save that is confirmed in a
    /// format without encoder.
    pub open spec fn outcome(self, answers: Answers<T>) -> Outcome<T>
        decreases self.steps_left(),
    {
        match self.advance(answers.reply(self.phase)) {
            StepView::Finished(outcome) => outcome,
            StepView::Pending(next) => if next.steps_left() < self.steps_left() {
                next.outcome(answers)
            } else {
                arbitrary()
            },
        }
    }
}

/// A session works on one file in one format under one policy from its
/// first request to its last: whatever the replies, none changes any of
/// the three.
pub proof fn lemma_target_is_fixed<T>(session: SessionView<T>, replies: Seq<Reply<T>>)
    ensures
        session.after(replies) matches StepView::Pending(next) ==> {
            &&& next.file_name == session.file_name
            &&& next.format == session.format
            &&& next.recovers == session.recovers
        },
    decreases replies.len(),
{
    if replies.len() > 0 {
        if let StepView::Pending(next) = session.advance(replies[0]) {
            lemma_target_is_fixed(next, replies.drop_first());
        }
    }
}

/// A well-formed session stays well-formed, whatever the replies.
pub proof fn lemma_wf_is_kept<T>(session: SessionView<T>, replies: Seq<Reply<T>>)
    requires
        session.wf(),
    ensures
        session.after(replies) matches StepView::Pending(next) ==> next.wf(),
    decreases replies.len(),
{
    if replies.len() > 0 {
        if let StepView::Pending(next) = session.advance(replies[0]) {
            lemma_wf_is_kept(next, replies.drop_first());
        }
    }
}

/// A session that does not recover never asks for more than a read and a
/// decoding, whatever the replies: it never prompts and never writes. It
/// ends with the decoded value or with the failure of one of the two.
pub proof fn lemma_plain_load_only_reads<T>(session: SessionView<T>, replies: Seq<Reply<T>>)
    requires
        session.wf(),
        !session.recovers,
    ensures
        match session.after(replies) {
            StepView::Pending(next) => next.phase is Reading || next.phase is Decoding,
            StepView::Finished(outcome) => {
                ||| outcome is Ready
                ||| outcome matches Outcome::Failed(error) && (error is Io || error is Decode)
            },
        },
    decreases replies.len(),
{
    if replies.len() > 0 {
        if let StepView::Pending(next) = session.advance(replies[0]) {
            lemma_plain_load_only_reads(next, replies.drop_first());
        }
    }
}

/// A session that recovers never ends on a failure to read or decode the
/// file, whatever the replies: the only failure that leaves it without a
/// value is that of the prompt.
pub proof fn lemma_recovery_fails_only_by_prompt<T>(
    session: SessionView<T>,
    replies: Seq<Reply<T>>,
)
    requires
        session.recovers,
    ensures
        session.after(replies) matches StepView::Finished(Outcome::Failed(error))
            ==> error is Prompt,
    decreases replies.len(),
{
    if replies.len() > 0 {
        if let StepView::Pending(next) = session.advance(replies[0]) {
            lemma_recovery_fails_only_by_prompt(next, replies.drop_first());
        }
    }
}

/// A session that is about to read and does not recover comes to what the
/// read and the decoding give. A session that is about to probe comes to
/// the loaded value or to what recovery gives, in every case in which it
/// does not have to save without an encoder.
pub proof fn lemma_outcome<T>(session: SessionView<T>, answers: Answers<T>)
    requires
        session.wf(),
        session.phase is Probing && answers.saves() ==> session.format.encoding() is Some,
    ensures
        session.phase is Reading && !session.recovers ==> {
            &&& session.outcome(answers).as_result() == answers.loaded()
            &&& !(session.outcome(answers) is Unsaved)
        },
        session.phase is Probing ==> session.outcome(answers) == answers.loaded_or_recovered(),
{
    reveal_with_fuel(SessionView::outcome, 8);
}

/// Nothing is tried twice: a reply that answers the pending request either
/// ends the session or leaves it with fewer steps to go.
pub proof fn lemma_answer_makes_progress<T>(session: SessionView<T>, reply: Reply<T>)
    requires
        session.expects(reply),
        !session.saves_without_encoder(reply),
    ensures
        session.advance(reply) matches StepView::Pending(next) ==> next.steps_left()
            < session.steps_left(),
{
}

/// Every session ends: a run of answers is no longer than the number of
/// steps that the session had left, which is seven at most, and what it
/// leaves pending has that many steps fewer to go.
pub proof fn lemma_session_ends<T>(session: SessionView<T>, replies: Seq<Reply<T>>)
    requires
        session.answered_by(replies),
    ensures
        replies.len() <= session.steps_left() <= 7,
        session.after(replies) matches StepView::Pending(next) ==> next.steps_left()
            + replies.len() <= session.steps_left(),
    decreases replies.len(),
{
    if replies.len() > 0 {
        lemma_answer_makes_progress(session, replies[0]);
        if let StepView::Pending(next) = session.advance(replies[0]) {
            lemma_session_ends(next, replies.drop_first());
        }
    }
}

} // verus!
