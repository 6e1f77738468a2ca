//! An actor runtime core: actor addressing, per-actor mailboxes with
//! supervision, and the one-shot future behind the ask pattern.
pub mod actor_ref;
pub mod future;
pub mod cell;
pub mod counter;
