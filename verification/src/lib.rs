//! Wire protocol of a tunnelling service: the handshake messages exchanged once
//! per control connection, the identifiers they carry, and the binary framing of
//! the control packets that multiplex logical streams over that connection.

pub mod domain;
pub mod encoding;
pub mod hello;
pub mod ident;
pub mod packet;
pub mod random;
pub mod text;
pub mod version;

pub use hello::{ClientHello, ClientType, ServerHello};
pub use ident::{ClientId, ReconnectToken, SecretKey, StreamId, EMPTY_STREAM, TOKEN_STREAM};
pub use packet::{ControlPacket, FrameError, PacketView, PING_INTERVAL};
pub use version::ProtocolVersion;
