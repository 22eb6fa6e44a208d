//! Configuration for the background execution context of a periodic
//! task.  The two fields are handed through unchanged to the underlying
//! thread-creation facility when the task is spawned; neither is
//! validated here.

use vstd::prelude::*;

verus! {

/// Optional settings for the thread that will run a periodic task: a
/// name and a stack size in bytes.  Each field is set at most once per
/// call; a later call overwrites an earlier one.  The configuration is
/// immutable once the task has been spawned, because spawning consumes
/// it.
pub struct Builder {
    /// The requested thread name.
    pub name: Option<String>,

    /// The requested stack size, in bytes.
    pub stack_size: Option<usize>,
}

impl Builder {
    /// A configuration with neither field set.
    pub fn new() -> (b: Builder)
        ensures
            b.name is None,
            b.stack_size is None,
    {
        Builder { name: None, stack_size: None }
    }

    /// Request a name for the background thread.  The last write wins;
    /// the other field is untouched.
    pub fn name(self, name: String) -> (b: Builder)
        ensures
            b.name == Some(name),
            b.stack_size == self.stack_size,
    {
        Builder { name: Some(name), stack_size: self.stack_size }
    }

    /// Request a stack size, in bytes, for the background thread.  The
    /// last write wins; the other field is untouched.
    pub fn stack_size(self, size: usize) -> (b: Builder)
        ensures
            b.stack_size == Some(size),
            b.name == self.name,
    {
        Builder { name: self.name, stack_size: Some(size) }
    }
}

} // verus!
