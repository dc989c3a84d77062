//! The open-init handler: validates a request against the read context and
//! builds the new channel, its trace and its event.

use vstd::prelude::*;
use crate::channel::{
    Attributes, ChannelEnd, ChannelIdState, ConnectionEnd, IbcEvent, OpenInit, State,
    is_default_but_channel_id, order_feature,
};
use crate::ids::{Capability, ChannelId, ConnectionId, PortId, Signer, channel_name};
use crate::list::{List, string_views};
use crate::output::HandlerOutput;

verus! {

/// Why a request was turned down.
#[derive(Debug)]
pub enum ErrorKind {
    InvalidConnectionHopsLength(usize, usize),
    MissingConnection(ConnectionId),
    InvalidVersionLengthConnection,
    ChannelFeatureNotSupportedByConnection,
    InvalidVersion,
}

/// Read-only access to the chain state that the handler consults.
pub trait ChannelReader {
    /// The record of the connection `connection_id`, if there is one.
    fn connection_end(&self, connection_id: &ConnectionId) -> Option<ConnectionEnd>;

    /// The capability of the caller over `port_id`, or why it has none.
    fn authenticated_capability(&self, port_id: &PortId) -> Result<Capability, ErrorKind>;

    /// The counter from which the next channel identifier is generated.
    fn channel_counter(&self) -> u64;
}

/// A request to open a channel.
pub struct MsgChannelOpenInit {
    pub port_id: PortId,
    pub channel: ChannelEnd,
    pub signer: Signer,
}

impl MsgChannelOpenInit {
    pub fn port_id(&self) -> (r: &PortId)
        ensures
            *r == self.port_id,
    {
        &self.port_id
    }

    pub fn channel(&self) -> (r: &ChannelEnd)
        ensures
            *r == self.channel,
    {
        &self.channel
    }
}

/// What a successful open-init hands back for the caller to store.
pub struct ChannelResult {
    pub port_id: PortId,
    pub channel_id: ChannelId,
    pub channel_id_state: ChannelIdState,
    pub channel_cap: Capability,
    pub channel_end: ChannelEnd,
}

/// The first trace line of a successful run.
pub open spec fn generated_line() -> Seq<char> {
    "success: generated new channel identifier"@
}

/// The second trace line of a successful run.
pub open spec fn channel_built_line() -> Seq<char> {
    "success: built channel end in state Init"@
}

/// The error that the checks after port authorization find in `channel`,
/// given the recorded connection of its first hop; `None` when it passes.
pub open spec fn open_init_error(channel: ChannelEnd, connection_end: Option<ConnectionEnd>) -> Option<
    ErrorKind,
> {
    let hops = channel.connection_hops@;
    if hops.len() != 1 {
        Some(ErrorKind::InvalidConnectionHopsLength(1, hops.len() as usize))
    } else {
        match connection_end {
            None => Some(ErrorKind::MissingConnection(hops[0])),
            Some(conn) => if conn.versions@.len() != 1 {
                Some(ErrorKind::InvalidVersionLengthConnection)
            } else if !string_views(conn.versions@[0].features@).contains(
                order_feature(channel.ordering),
            ) {
                Some(ErrorKind::ChannelFeatureNotSupportedByConnection)
            } else if channel.version@.len() == 0 {
                Some(ErrorKind::InvalidVersion)
            } else {
                None
            },
        }
    }
}

/// `out` is the output of a successful open-init of `msg`, authorized by
/// `cap`, with the channel counter at `counter`.
pub open spec fn is_open_init_output(
    msg: MsgChannelOpenInit,
    cap: Capability,
    counter: u64,
    out: HandlerOutput<ChannelResult>,
) -> bool {
    &&& out.result.port_id == msg.port_id
    &&& out.result.channel_id@ == channel_name(counter)
    &&& out.result.channel_id_state == ChannelIdState::Generated
    &&& out.result.channel_cap == cap
    &&& out.result.channel_end == (ChannelEnd {
        state: State::Init,
        ordering: msg.channel.ordering,
        remote: msg.channel.remote,
        connection_hops: msg.channel.connection_hops,
        version: msg.channel.version,
    })
    &&& string_views(out.log@) == seq![generated_line(), channel_built_line()]
    &&& out.events@.len() == 1
    &&& match out.events@[0] {
        IbcEvent::OpenInitChannel(OpenInit(attrs)) => {
            &&& is_default_but_channel_id(attrs)
            &&& attrs.channel_id is Some
            &&& attrs.channel_id->Some_0@ == channel_name(counter)
        },
    }
}

/// `r` is the outcome of open-init on `msg` when the read context answers
/// `cap` for the port, `connection_end` for the first hop and `counter` for
/// the channel counter.
pub open spec fn is_open_init_outcome(
    msg: MsgChannelOpenInit,
    cap: Result<Capability, ErrorKind>,
    connection_end: Option<ConnectionEnd>,
    counter: u64,
    r: Result<HandlerOutput<ChannelResult>, ErrorKind>,
) -> bool {
    match cap {
        Err(e) => r == Err::<HandlerOutput<ChannelResult>, ErrorKind>(e),
        Ok(c) => match open_init_error(msg.channel, connection_end) {
            Some(e) => r == Err::<HandlerOutput<ChannelResult>, ErrorKind>(e),
            None => r is Ok && is_open_init_output(msg, c, counter, r->Ok_0),
        },
    }
}

/// Checks that the channel runs over exactly one connection.
pub fn check_connection_hops(channel: &ChannelEnd) -> (r: Result<(), ErrorKind>)
    requires
        channel.connection_hops@.len() <= usize::MAX,
    ensures
        r is Ok <==> channel.connection_hops@.len() == 1,
        r is Err ==> r == Err::<(), ErrorKind>(
            ErrorKind::InvalidConnectionHopsLength(1, channel.connection_hops@.len() as usize),
        ),
{
    let n = channel.connection_hops.len();
    if n != 1 {
        Err(ErrorKind::InvalidConnectionHopsLength(1, n))
    } else {
        Ok(())
    }
}

/// Checks a single-hop channel against `connection_end`, the recorded
/// connection of its hop.
pub fn check_connection(channel: &ChannelEnd, connection_end: Option<ConnectionEnd>) -> (r: Result<
    (),
    ErrorKind,
>)
    requires
        channel.connection_hops@.len() == 1,
    ensures
        r is Ok <==> open_init_error(*channel, connection_end) is None,
        r is Err ==> r == Err::<(), ErrorKind>(open_init_error(*channel, connection_end)->Some_0),
{
    let conn = match connection_end {
        Some(v) => v,
        None => {
            return Err(ErrorKind::MissingConnection(channel.connection_hops.first().clone()));
        },
    };
    let version = match conn.versions() {
        List::Cons(version, tail) => match **tail {
            List::Nil => {
                proof {
                    assert(conn.versions@ == seq![*version] + tail@);
                    assert(conn.versions@[0] == *version);
                }
                version
            },
            List::Cons(_, _) => {
                proof {
                    assert(tail@.len() >= 1);
                    assert(conn.versions@ == seq![*version] + tail@);
                }
                return Err(ErrorKind::InvalidVersionLengthConnection);
            },
        },
        List::Nil => {
            return Err(ErrorKind::InvalidVersionLengthConnection);
        },
    };
    let channel_feature = String::from_str(channel.ordering().as_string());
    if !version.is_supported_feature(channel_feature) {
        return Err(ErrorKind::ChannelFeatureNotSupportedByConnection);
    }
    if channel.version.as_str().is_empty() {
        return Err(ErrorKind::InvalidVersion);
    }
    Ok(())
}

/// Builds the output of an accepted request: the channel `channel-<counter>`
/// in state `Init`, two trace lines and one event.
pub fn open_init_output(msg: MsgChannelOpenInit, channel_cap: Capability, counter: u64) -> (r:
    HandlerOutput<ChannelResult>)
    ensures
        is_open_init_output(msg, channel_cap, counter, r),
{
    let output = HandlerOutput::builder();
    let chan_id = ChannelId::new(counter);
    let output = output.log("success: generated new channel identifier");
    let new_channel_end = ChannelEnd {
        state: State::Init,
        ordering: msg.channel.ordering,
        remote: msg.channel.remote,
        connection_hops: msg.channel.connection_hops,
        version: msg.channel.version,
    };
    let output = output.log("success: built channel end in state Init");
    let result = ChannelResult {
        port_id: msg.port_id,
        channel_id: chan_id.clone(),
        channel_end: new_channel_end,
        channel_id_state: ChannelIdState::Generated,
        channel_cap,
    };
    let mut event_attributes = Attributes::default();
    event_attributes.channel_id = Some(chan_id);
    let output = output.emit(IbcEvent::OpenInitChannel(OpenInit::from(event_attributes)));
    let r = output.with_result(result);
    proof {
        assert(string_views(r.log@) =~= seq![generated_line(), channel_built_line()]);
    }
    r
}

/// The whole open-init pipeline on the answers of a read context: `channel_cap`
/// for the request's port, `connection_end` for its first hop (consulted only
/// when there is exactly one hop) and `counter` for the channel counter
/// (consulted only when every check passed).
pub fn open_init(
    msg: MsgChannelOpenInit,
    channel_cap: Result<Capability, ErrorKind>,
    connection_end: Option<ConnectionEnd>,
    counter: u64,
) -> (r: Result<HandlerOutput<ChannelResult>, ErrorKind>)
    requires
        msg.channel.connection_hops@.len() <= usize::MAX,
    ensures
        is_open_init_outcome(msg, channel_cap, connection_end, counter, r),
{
    let channel_cap = match channel_cap {
        Ok(c) => c,
        Err(e) => {
            return Err(e);
        },
    };
    match check_connection_hops(&msg.channel) {
        Ok(()) => {},
        Err(e) => {
            return Err(e);
        },
    }
    match check_connection(&msg.channel, connection_end) {
        Ok(()) => {},
        Err(e) => {
            return Err(e);
        },
    }
    Ok(open_init_output(msg, channel_cap, counter))
}

/// Handles a request to open a channel, consulting `ctx`. The outcome is the
/// one that `open_init` gives on whatever answers `ctx` returned.
pub fn process<C: ChannelReader>(ctx: &C, msg: MsgChannelOpenInit) -> (r: Result<
    HandlerOutput<ChannelResult>,
    ErrorKind,
>)
    requires
        msg.channel.connection_hops@.len() <= usize::MAX,
    ensures
        exists|
            cap: Result<Capability, ErrorKind>,
            connection_end: Option<ConnectionEnd>,
            counter: u64,
        | #[trigger] is_open_init_outcome(msg, cap, connection_end, counter, r),
{
    let ghost m = msg;
    let channel_cap = match ctx.authenticated_capability(msg.port_id()) {
        Ok(c) => c,
        Err(e) => {
            let r = Err(e);
            proof {
                let cap = Err::<Capability, ErrorKind>(e);
                assert(is_open_init_outcome(m, cap, None, 0, r));
            }
            return r;
        },
    };
    let ghost cap = Ok::<Capability, ErrorKind>(channel_cap);
    match check_connection_hops(msg.channel()) {
        Ok(()) => {},
        Err(e) => {
            let r = Err(e);
            proof {
                assert(is_open_init_outcome(m, cap, None, 0, r));
            }
            return r;
        },
    }
    let connection_end = ctx.connection_end(msg.channel().connection_hops().first());
    let ghost conn = connection_end;
    match check_connection(msg.channel(), connection_end) {
        Ok(()) => {},
        Err(e) => {
            let r = Err(e);
            proof {
                assert(is_open_init_outcome(m, cap, conn, 0, r));
            }
            return r;
        },
    }
    let counter = ctx.channel_counter();
    let r = Ok(open_init_output(msg, channel_cap, counter));
    proof {
        assert(is_open_init_outcome(m, cap, conn, counter, r));
    }
    r
}

} // verus!
