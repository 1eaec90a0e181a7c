//! Loading of configuration files by extension, as a verified decision core.
//!
//! A configuration lives in a file whose name is a base name and the
//! canonical suffix of its format. `load` has such a file read and decoded;
//! `load_or_default` falls back on a default value where that fails;
//! `load_or_prompt` falls back on asking the user, and has what the user
//! entered saved if the user agrees.
//!
//! The crate never touches the file system, the terminal or a codec itself.
//! It classifies the extension, names the file, and then tells its caller,
//! one `Request` at a time, what to do next: probe, read, decode, prompt,
//! confirm, encode or write. The caller performs each request and reports
//! with a `Reply`; the `Session` answers with the next request or with the
//! `Outcome`. Which request follows which reply is fixed by the contract of
//! `Session::advance`, and what holds of every run of a session is proved
//! beside it.
//!
//! `copy_dir` mirrors a directory tree in the same manner: the crate
//! decides what is probed, created, listed and copied, and in which order;
//! the caller does it.

pub mod copy_dir;
pub mod error;
pub mod extension;
pub mod load;
pub mod load_or_default;
pub mod load_or_prompt;
pub mod runs;
pub mod session;
mod text;

pub use copy_dir::{copy_dir, CopyError, CopyReply, CopyRequest, CopyStep, EntryKind};
pub use error::{LoadError, Outcome};
pub use extension::{ClassificationError, Encoder, Extension};
pub use load::{load, resolve};
pub use load_or_default::load_or_default;
pub use load_or_prompt::load_or_prompt;
pub use runs::Answers;
pub use session::{Phase, Reply, Request, Session, SessionView, Step, StepView};
