//! A load as a conversation: the session asks, the caller answers.
//!
//! A session stands for one call on one file. It issues one request at a
//! time; the caller performs it and reports with the matching reply, and the
//! session answers with the next request or with the outcome. The format is
//! classified once, when the session starts, and carried to the end: the
//! decoder and the encoder that the requests name are always those of that
//! one format.
//!
//! This module holds the session and its one step; what follows from the
//! step for whole runs is proved in `runs`.

use crate::error::{LoadError, Outcome};
use crate::extension::{Encoder, Extension};
use vstd::prelude::*;

verus! {

/// Where a session stands: the request that is pending, with what it holds.
#[derive(Debug, PartialEq, Eq)]
pub enum Phase<T> {
    /// Waiting to learn whether the file exists.
    Probing,
    /// Waiting for the file's text.
    Reading,
    /// Waiting for the value decoded from this text.
    Decoding(String),
    /// Waiting for the value that the user is asked to fill in.
    Prompting,
    /// Holding the prompted value, waiting for the user's leave to save it.
    Confirming(T),
    /// Holding the prompted value, waiting for its text from this encoder.
    Encoding(T, Encoder),
    /// Holding the prompted value, waiting for this text to be written.
    Writing(T, String),
}

/// What the caller has to do next. Every request names what it works on.
#[derive(Debug, PartialEq, Eq)]
pub enum Request<'a, T> {
    /// Report whether the file exists.
    Probe { file_name: &'a str },
    /// Read the file as text.
    Read { file_name: &'a str },
    /// Decode the text with the decoder of the format.
    Decode { format: Extension, text: &'a str },
    /// Tell the user that the file is missing or corrupted, and build a
    /// value from the user's answers.
    Prompt { file_name: &'a str },
    /// Ask the user whether the value is to be saved in the file.
    Confirm { file_name: &'a str },
    /// Encode the value with the encoder.
    Encode { encoder: Encoder, value: &'a T },
    /// Create or truncate the file and write the text to it.
    Write { file_name: &'a str, text: &'a str },
}

/// What the caller reports. Each reply answers the request of the same
/// name; where the work can fail, the reply carries the diagnostic.
#[derive(Debug, PartialEq, Eq)]
pub enum Reply<T> {
    /// Whether the file exists.
    Probed(bool),
    /// The file's text.
    Read(Result<String, String>),
    /// The value that the text decodes to.
    Decoded(Result<T, String>),
    /// The value that the user filled in.
    Prompted(Result<T, String>),
    /// Whether the user wants the value saved.
    Confirmed(bool),
    /// The text that the value encodes to.
    Encoded(Result<String, String>),
    /// That the text was written.
    Written(Result<(), String>),
}

/// The file that a session works on.
#[derive(Debug)]
struct Target {
    file_name: String,
    format: Extension,
}

/// One load in progress.
#[derive(Debug)]
pub struct Session<T> {
    target: Target,
    recovers: bool,
    phase: Phase<T>,
}

/// A session as contracts see it.
pub struct SessionView<T> {
    /// The name of the file, without its directory.
    pub file_name: Seq<char>,
    /// The format that the extension was classified to.
    pub format: Extension,
    /// Whether a missing or unreadable file is answered by a prompt.
    pub recovers: bool,
    /// The pending request.
    pub phase: Phase<T>,
}

/// A session after a reply: still asking, or done.
#[derive(Debug)]
pub enum Step<T> {
    /// The session has a request pending.
    Pending(Session<T>),
    /// The session has ended.
    Finished(Outcome<T>),
}

/// A step as contracts see it.
pub enum StepView<T> {
    /// The session has a request pending.
    Pending(SessionView<T>),
    /// The session has ended.
    Finished(Outcome<T>),
}

impl<T> View for Session<T> {
    type V = SessionView<T>;

    closed spec fn view(&self) -> SessionView<T> {
        SessionView {
            file_name: self.target.file_name@,
            format: self.target.format,
            recovers: self.recovers,
            phase: self.phase,
        }
    }
}

impl<T> View for Step<T> {
    type V = StepView<T>;

    open spec fn view(&self) -> StepView<T> {
        match *self {
            Step::Pending(session) => StepView::Pending(session@),
            Step::Finished(outcome) => StepView::Finished(outcome),
        }
    }
}

impl<T> SessionView<T> {
    /// The same session with another request pending.
    pub open spec fn at(self, phase: Phase<T>) -> StepView<T> {
        StepView::Pending(SessionView { phase, ..self })
    }

    /// What follows a failure to read or decode the file: a prompt where
    /// the session recovers, the failure itself where it does not.
    pub open spec fn after_failed_load(self, error: LoadError) -> StepView<T> {
        if self.recovers {
            self.at(Phase::Prompting)
        } else {
            StepView::Finished(Outcome::Failed(error))
        }
    }

    /// Whether a request is the pending one: it is of the kind that the
    /// phase waits for, and names the session's own file, format, encoder,
    /// text and value.
    pub open spec fn asks<'a>(self, request: Request<'a, T>) -> bool {
        match self.phase {
            Phase::Probing => request matches Request::Probe { file_name }
                && file_name@ == self.file_name,
            Phase::Reading => request matches Request::Read { file_name }
                && file_name@ == self.file_name,
            Phase::Decoding(held) => request matches Request::Decode { format, text }
                && format == self.format && text@ == held@,
            Phase::Prompting => request matches Request::Prompt { file_name }
                && file_name@ == self.file_name,
            Phase::Confirming(_) => request matches Request::Confirm { file_name }
                && file_name@ == self.file_name,
            Phase::Encoding(held, chosen) => request matches Request::Encode { encoder, value }
                && encoder == chosen && *value == held,
            Phase::Writing(_, held) => request matches Request::Write { file_name, text }
                && file_name@ == self.file_name && text@ == held@,
        }
    }

    /// Whether a reply answers the pending request.
    pub open spec fn expects(self, reply: Reply<T>) -> bool {
        match self.phase {
            Phase::Probing => reply is Probed,
            Phase::Reading => reply is Read,
            Phase::Decoding(_) => reply is Decoded,
            Phase::Prompting => reply is Prompted,
            Phase::Confirming(_) => reply is Confirmed,
            Phase::Encoding(_, _) => reply is Encoded,
            Phase::Writing(_, _) => reply is Written,
        }
    }

    /// Whether a reply asks to save a value in a format that has no encoder.
    pub open spec fn saves_without_encoder(self, reply: Reply<T>) -> bool {
        &&& self.phase is Confirming
        &&& reply == Reply::<T>::Confirmed(true)
        &&& self.format.encoding() is None
    }

    /// The step that a reply leads to. A reply that does not answer the
    /// pending request changes nothing.
    pub open spec fn advance(self, reply: Reply<T>) -> StepView<T> {
        match (self.phase, reply) {
            (Phase::Probing, Reply::Probed(true)) => self.at(Phase::Reading),
            (Phase::Probing, Reply::Probed(false)) => self.at(Phase::Prompting),
            (Phase::Reading, Reply::Read(Ok(text))) => self.at(Phase::Decoding(text)),
            (Phase::Reading, Reply::Read(Err(fault))) => self.after_failed_load(
                LoadError::Io(fault),
            ),
            (Phase::Decoding(_), Reply::Decoded(Ok(value))) => StepView::Finished(
                Outcome::Ready(value),
            ),
            (Phase::Decoding(_), Reply::Decoded(Err(fault))) => self.after_failed_load(
                LoadError::Decode(fault),
            ),
            (Phase::Prompting, Reply::Prompted(Ok(value))) => self.at(Phase::Confirming(value)),
            (Phase::Prompting, Reply::Prompted(Err(fault))) => StepView::Finished(
                Outcome::Failed(LoadError::Prompt(fault)),
            ),
            (Phase::Confirming(value), Reply::Confirmed(false)) => StepView::Finished(
                Outcome::Ready(value),
            ),
            (Phase::Confirming(value), Reply::Confirmed(true)) => match self.format.encoding() {
                Some(encoder) => self.at(Phase::Encoding(value, encoder)),
                None => StepView::Pending(self),
            },
            (Phase::Encoding(value, _), Reply::Encoded(Ok(text))) => self.at(
                Phase::Writing(value, text),
            ),
            (Phase::Encoding(value, _), Reply::Encoded(Err(fault))) => StepView::Finished(
                Outcome::Unsaved { value, diagnostic: fault },
            ),
            (Phase::Writing(value, _), Reply::Written(Ok(_))) => StepView::Finished(
                Outcome::Ready(value),
            ),
            (Phase::Writing(value, _), Reply::Written(Err(fault))) => StepView::Finished(
                Outcome::Unsaved { value, diagnostic: fault },
            ),
            _ => StepView::Pending(self),
        }
    }
}

impl<T> Session<T> {
    /// A session on `file_name` in `format` that waits for `phase`.
    pub(crate) fn open(
        file_name: String,
        format: Extension,
        recovers: bool,
        phase: Phase<T>,
    ) -> (session: Session<T>)
        ensures
            session@ == (SessionView { file_name: file_name@, format, recovers, phase }),
    {
        Session { target: Target { file_name, format }, recovers, phase }
    }

    /// The name of the file that the session works on, without its directory.
    pub fn file_name(&self) -> (file_name: &str)
        ensures
            file_name@ == self@.file_name,
    {
        self.target.file_name.as_str()
    }

    /// The format that the session decodes and encodes in.
    pub fn format(&self) -> (format: Extension)
        ensures
            format == self@.format,
    {
        self.target.format
    }

    /// Whether the session answers a missing or unreadable file by a prompt.
    pub fn recovers(&self) -> (recovers: bool)
        ensures
            recovers == self@.recovers,
    {
        self.recovers
    }

    /// The pending request.
    pub fn request(&self) -> (request: Request<'_, T>)
        ensures
            self@.asks(request),
    {
        let file_name = self.target.file_name.as_str();
        match &self.phase {
            Phase::Probing => Request::Probe { file_name },
            Phase::Reading => Request::Read { file_name },
            Phase::Decoding(text) => Request::Decode {
                format: self.target.format,
                text: text.as_str(),
            },
            Phase::Prompting => Request::Prompt { file_name },
            Phase::Confirming(_) => Request::Confirm { file_name },
            Phase::Encoding(value, encoder) => Request::Encode { encoder: *encoder, value },
            Phase::Writing(_, text) => Request::Write { file_name, text: text.as_str() },
        }
    }

    /// Whether `advance` takes this reply: it does unless the reply confirms
    /// the save of a value in a format that has no encoder.
    pub fn accepts(&self, reply: &Reply<T>) -> (accepted: bool)
        ensures
            accepted == !self@.saves_without_encoder(*reply),
    {
        match (&self.phase, reply) {
            (Phase::Confirming(_), Reply::Confirmed(true)) => self.target.format.encoder().is_some(),
            _ => true,
        }
    }

    /// The step that a reply leads to.
    ///
    /// Saving a value in a format that has no encoder is not supported: the
    /// caller must not confirm the save of such a session.
    pub fn advance(self, reply: Reply<T>) -> (step: Step<T>)
        requires
            !self@.saves_without_encoder(reply),
        ensures
            step@ == self@.advance(reply),
    {
        let Session { target, recovers, phase } = self;
        match (phase, reply) {
            (Phase::Probing, Reply::Probed(true)) => Session::at(target, recovers, Phase::Reading),
            (Phase::Probing, Reply::Probed(false)) => Session::at(
                target,
                recovers,
                Phase::Prompting,
            ),
            (Phase::Reading, Reply::Read(Ok(text))) => Session::at(
                target,
                recovers,
                Phase::Decoding(text),
            ),
            (Phase::Reading, Reply::Read(Err(fault))) => Session::after_failed_load(
                target,
                recovers,
                LoadError::Io(fault),
            ),
            (Phase::Decoding(_), Reply::Decoded(Ok(value))) => Step::Finished(
                Outcome::Ready(value),
            ),
            (Phase::Decoding(_), Reply::Decoded(Err(fault))) => Session::after_failed_load(
                target,
                recovers,
                LoadError::Decode(fault),
            ),
            (Phase::Prompting, Reply::Prompted(Ok(value))) => Session::at(
                target,
                recovers,
                Phase::Confirming(value),
            ),
            (Phase::Prompting, Reply::Prompted(Err(fault))) => Step::Finished(
                Outcome::Failed(LoadError::Prompt(fault)),
            ),
            (Phase::Confirming(value), Reply::Confirmed(false)) => Step::Finished(
                Outcome::Ready(value),
            ),
            (Phase::Confirming(value), Reply::Confirmed(true)) => match target.format.encoder() {
                Some(encoder) => Session::at(target, recovers, Phase::Encoding(value, encoder)),
                // Ruled out by the precondition.
                None => Session::at(target, recovers, Phase::Confirming(value)),
            },
            (Phase::Encoding(value, _), Reply::Encoded(Ok(text))) => Session::at(
                target,
                recovers,
                Phase::Writing(value, text),
            ),
            (Phase::Encoding(value, _), Reply::Encoded(Err(fault))) => Step::Finished(
                Outcome::Unsaved { value, diagnostic: fault },
            ),
            (Phase::Writing(value, _), Reply::Written(Ok(_))) => Step::Finished(
                Outcome::Ready(value),
            ),
            (Phase::Writing(value, _), Reply::Written(Err(fault))) => Step::Finished(
                Outcome::Unsaved { value, diagnostic: fault },
            ),
            (phase, _) => Session::at(target, recovers, phase),
        }
    }

    /// A session on `target` with `phase` pending.
    fn at(target: Target, recovers: bool, phase: Phase<T>) -> (step: Step<T>)
        ensures
            step@ == StepView::Pending(
                SessionView {
                    file_name: target.file_name@,
                    format: target.format,
                    recovers,
                    phase,
                },
            ),
    {
        Step::Pending(Session { target, recovers, phase })
    }

    /// What follows a failure to read or decode the file.
    fn after_failed_load(target: Target, recovers: bool, error: LoadError) -> (step: Step<T>)
        ensures
            step@ == (SessionView::<T> {
                file_name: target.file_name@,
                format: target.format,
                recovers,
                phase: Phase::Prompting,
            }).after_failed_load(error),
    {
        if recovers {
            Session::at(target, recovers, Phase::Prompting)
        } else {
            Step::Finished(Outcome::Failed(error))
        }
    }
}

} // verus!
