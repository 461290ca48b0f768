//! The kernel of an actor runtime: what an actor keeps between messages
//! (stash, timers, children, receive timeout), the decisions of its
//! dispatcher, the flags of its mailbox, the options it is created with and
//! the registry of an actor system. Each is stated over a mathematical model
//! and proved; the runtime around it runs the behaviours, the threads and
//! the timers, and hands the kernel plain values.

pub mod context;
pub mod dispatcher;
pub mod mailbox;
pub mod message;
pub mod naming;
pub mod options;
pub mod path;
pub mod queue;
pub mod registry;
pub mod system;

pub use context::{ActorContext, Handles, SuspendReason, Timer, TimerMessage};
pub use dispatcher::{Delivery, Dispatcher, InternalStep, NextStep};
pub use mailbox::{MailboxState, RunBudget};
pub use message::{AutoMessage, AutoRef, InternalMessage, Message, SystemMessage};
pub use naming::base64;
pub use options::PropsOption;
pub use path::ActorPath;
pub use registry::Registry;
pub use queue::CrossbeamSegQueue;
pub use system::{user_path, ActorError, UserGuard};
