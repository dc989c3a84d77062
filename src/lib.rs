//! The open-init step of a channel handshake: validating a request to open a
//! channel over an established connection and producing the new channel record
//! together with its trace log and notification event.

pub mod channel;
pub mod handler;
pub mod ids;
pub mod list;
pub mod output;
pub mod theorems;

pub use channel::{
    Attributes, ChannelEnd, ChannelIdState, ConnectionEnd, Counterparty, Height, IbcEvent, OpenInit,
    Order, State, Version,
};
pub use handler::{
    ChannelReader, ChannelResult, ErrorKind, MsgChannelOpenInit, check_connection,
    check_connection_hops, open_init, open_init_output, process,
};
pub use ids::{Capability, ChannelId, ClientId, ConnectionId, PortId, Signer};
pub use list::List;
pub use output::{HandlerOutput, HandlerOutputBuilder};
