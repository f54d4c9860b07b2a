//! A registry of known incompatibilities between package versions.
//!
//! An [`IncompatRecord`] states that a version range of one [`Target`]
//! conflicts with a version range of another, with an optional reason and
//! optional references. A record answers six questions about its two sides
//! and renders itself as diagnostic text; [`matching`] and [`first_match`]
//! put a question to a whole collection.
//!
//! Ranges and versions are those of `semver`, locators those of `url`. The
//! library never opens them: it decides which range to consult and where each
//! text goes, and leaves containment and display to the two crates.

pub mod laws;
pub mod layout;
pub mod locator;
pub mod names;
pub mod range;
pub mod record;
pub mod reference;
pub mod registry;
pub mod target;

pub use record::IncompatRecord;
pub use reference::RefType;
pub use registry::first_match;
pub use registry::matching;
pub use registry::Query;
pub use target::Target;
