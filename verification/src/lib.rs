//! A data-driven test harness core: it turns a directory of fixture files,
//! or an in-memory tree of them, into a list of runnable test cases.
//!
//! A registration ([`Requirements`]) binds a test function shape, a fixture
//! source, a selection pattern and a group name. Expanding it enumerates the
//! source, filters candidate paths by the pattern, and derives a stable
//! display name for each surviving file; resolving an exact filter maps one
//! display name back to exactly one file, without consulting the pattern.
//! The [`runner::Coordinator`] owns the run-scoped state and enforces that
//! setup and teardown run exactly once around the collected cases.
//!
//! The name codec, the hidden-file rules, the dispatch over function shapes,
//! the mode selection and the sort are verified. Regular-expression matching
//! and UTF-8 decoding are delegated to outside code behind narrow trusted
//! contracts; walking a directory on disk and invoking the registered
//! functions are left to the surrounding shell, which hands plain values in
//! and takes plain values back.

pub mod codec;
pub mod dispatch;
pub mod errors;
pub mod pattern;
pub mod runner;
pub mod source;
pub mod strutil;
pub mod test_kinds;

pub use dispatch::PreparedInput;
pub use dispatch::TestFn;
pub use dispatch::TestFnBase;
pub use dispatch::TestFnLoadBinary;
pub use dispatch::TestFnLoadString;
pub use errors::ConfigError;
pub use runner::Case;
pub use runner::Coordinator;
pub use runner::ExactOutcome;
pub use runner::NextestKind;
pub use runner::Requirements;
pub use runner::RunMode;
pub use runner::RunStatus;
pub use runner::TestArgs;
pub use source::EmbeddedFile;
pub use source::FixtureSource;
