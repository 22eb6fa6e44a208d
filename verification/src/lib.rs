//! A minimal periodic-task runner: a callable is invoked at a fixed
//! cadence on a dedicated background execution context until the task's
//! handle cancels it.  This crate holds the configuration builder and
//! the cancellation-and-join protocol: which step the background loop
//! takes after each read of the shared cancellation flag, and what every
//! interleaving of loop checks, cancellation and join guarantees about
//! the number of invocations of the callable.

pub mod builder;
pub mod protocol;

pub use builder::Builder;
pub use protocol::loop_decision;
pub use protocol::LoopDirective;
pub use protocol::TaskEvent;
pub use protocol::TaskState;
