//! Console attach session: the decisions that turn a local terminal into a
//! remote console over one duplex streaming channel.
pub mod envelope;
pub mod terminal;
pub mod relay;
pub mod session;
pub mod models;

pub use envelope::{decode, record_from_members, DecodeError, OutputKind, OutputRecord};
pub use terminal::{raw_mode, TermConfig, TerminalGuard};
pub use relay::{heartbeat_message, keystroke_message, to_frame, Frame, OutboundMessage, Relay, RelayState, HEARTBEAT_INTERVAL_SECS};
pub use session::{route, with_restore, Action, AttachError, Event, Phase, Session};
pub use models::{CargoReplication, DisplayFormat, ReplicaValue};
