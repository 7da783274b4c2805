//! A channel-based relay: a hub that tracks which connections belong to which
//! channel and fans text out to them, and the per-connection session state
//! machine that turns stream frames into hub requests.

mod hub;
mod protocol;
mod session;

pub use hub::{lemma_channel_present_iff_nonempty, ChatServer, Member};
pub use protocol::{ClientMessage, Connect, Delivery, Disconnect, Message};
pub use session::{is_id_char, Action, CloseReason, Frame, ProtocolError, Session, SessionState, ID_LEN};
