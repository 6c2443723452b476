//! A safety wrapper around a host application's native plugin interface.
//!
//! The host runtime loads this kind of library and calls exported entry
//! points either with a row of raw, tagged argument slots (fixed-signature
//! functions) or over a single bidirectional expression channel
//! (channel-mode functions).  The modules here form the verified
//! marshalling boundary between those two worlds:
//!
//! * [`expr`] — symbolic expression trees, the open-ended interchange
//!   values of the channel protocol.
//! * [`codec`] — type-directed conversion between raw argument slots and
//!   native values, including typed arrays and structured records.
//! * [`dispatch`] — decoding of whole argument lists for both entry-point
//!   forms.
//! * [`channel`] — the process-wide callback channel used to ask the host
//!   to evaluate expressions, with its exclusive-access discipline.
//! * [`failure`] — translation of unwinding failures into host-visible
//!   failure objects or status codes; an unwind never crosses the
//!   boundary.
//! * [`registry`] — the explicit table of exported functions and the
//!   loader listing the host uses to batch-load them.
//! * [`tasks`] — bookkeeping for background tasks that push events to the
//!   host over their own task-scoped channels.
//!
//! Everything host-facing — the raw binary interface, the link transport,
//! the catching of unwinds, threads, and the environment toggle for
//! diagnostic traces — stays outside this crate; each contract here states
//! what holds for every outcome such work can hand in.

pub mod channel;
pub mod codec;
pub mod dispatch;
pub mod expr;
pub mod failure;
pub mod registry;
pub mod tasks;

pub use channel::{aborted, evaluate, try_evaluate};
