//! The message collaborator: the one capability this layer needs of the
//! surrounding reflection stack's dynamic message type.
//!
//! This layer never inspects a message.  It carries message values through,
//! treats every message as non-zero, and clones one only when a borrowed view
//! is promoted to an owned value.  Everything else about messages (their
//! descriptors, their fields, recovering a concrete message type) belongs to
//! the stack that implements this trait.

use vstd::prelude::*;

verus! {

/// The dynamic message type of the surrounding reflection stack.  Instances
/// are immutable once constructed and shareable across threads.
pub trait MessageValue: Sized + Send + Sync {
    /// Clones the message polymorphically, by its own descriptor.  The clone
    /// is equal to the original.
    fn clone_message(&self) -> (r: Self)
        ensures
            r == *self,
    ;
}

} // verus!
