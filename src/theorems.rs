//! What holds of every run of the open-init handler.

use vstd::prelude::*;
use crate::channel::{ConnectionEnd, IbcEvent, OpenInit, Order, State, order_feature};
use crate::handler::{
    ChannelResult, ErrorKind, MsgChannelOpenInit, is_open_init_outcome,
};
use crate::ids::{Capability, ChannelId, channel_name};
use crate::list::string_views;
use crate::output::HandlerOutput;

verus! {

/// The characters of an optional channel identifier.
pub open spec fn channel_id_view(id: Option<ChannelId>) -> Option<Seq<char>> {
    match id {
        Some(c) => Some(c@),
        None => None,
    }
}

/// The two events carry the same attributes, compared by their characters.
pub open spec fn same_event(e1: IbcEvent, e2: IbcEvent) -> bool {
    match (e1, e2) {
        (IbcEvent::OpenInitChannel(OpenInit(a)), IbcEvent::OpenInitChannel(OpenInit(b))) => {
            &&& a.height == b.height
            &&& a.port_id@ == b.port_id@
            &&& channel_id_view(a.channel_id) == channel_id_view(b.channel_id)
            &&& a.connection_id@ == b.connection_id@
            &&& a.counterparty_port_id@ == b.counterparty_port_id@
            &&& channel_id_view(a.counterparty_channel_id) == channel_id_view(
                b.counterparty_channel_id,
            )
        },
    }
}

/// The two outcomes are the same error, or the same result with the same
/// trace and the same events, strings compared by their characters.
pub open spec fn same_outcome(
    r1: Result<HandlerOutput<ChannelResult>, ErrorKind>,
    r2: Result<HandlerOutput<ChannelResult>, ErrorKind>,
) -> bool {
    match (r1, r2) {
        (Err(e1), Err(e2)) => e1 == e2,
        (Ok(o1), Ok(o2)) => {
            &&& o1.result.port_id == o2.result.port_id
            &&& o1.result.channel_id@ == o2.result.channel_id@
            &&& o1.result.channel_id_state == o2.result.channel_id_state
            &&& o1.result.channel_cap == o2.result.channel_cap
            &&& o1.result.channel_end == o2.result.channel_end
            &&& string_views(o1.log@) == string_views(o2.log@)
            &&& o1.events@.len() == o2.events@.len()
            &&& forall|i: int|
                0 <= i < o1.events@.len() ==> same_event(#[trigger] o1.events@[i], o2.events@[i])
        },
        _ => false,
    }
}

/// Once the port is authorized, a channel that does not run over exactly one
/// connection is refused with the expected and the actual hop count, whatever
/// the rest of the state.
pub proof fn hop_count_is_checked(
    msg: MsgChannelOpenInit,
    cap: Capability,
    connection_end: Option<ConnectionEnd>,
    counter: u64,
    r: Result<HandlerOutput<ChannelResult>, ErrorKind>,
)
    requires
        msg.channel.connection_hops@.len() != 1,
        msg.channel.connection_hops@.len() <= usize::MAX,
        is_open_init_outcome(msg, Ok(cap), connection_end, counter, r),
    ensures
        r == Err::<HandlerOutput<ChannelResult>, ErrorKind>(
            ErrorKind::InvalidConnectionHopsLength(1, msg.channel.connection_hops@.len() as usize),
        ),
{
}

/// Once the port is authorized, a single hop that names no recorded
/// connection is refused with that very connection identifier.
pub proof fn unknown_connection_is_refused(
    msg: MsgChannelOpenInit,
    cap: Capability,
    counter: u64,
    r: Result<HandlerOutput<ChannelResult>, ErrorKind>,
)
    requires
        msg.channel.connection_hops@.len() == 1,
        is_open_init_outcome(msg, Ok(cap), None, counter, r),
    ensures
        r == Err::<HandlerOutput<ChannelResult>, ErrorKind>(
            ErrorKind::MissingConnection(msg.channel.connection_hops@[0]),
        ),
{
}

/// Once the port is authorized and the single hop is recorded, a connection
/// that does not carry exactly one negotiated version is refused.
pub proof fn connection_version_count_is_checked(
    msg: MsgChannelOpenInit,
    cap: Capability,
    conn: ConnectionEnd,
    counter: u64,
    r: Result<HandlerOutput<ChannelResult>, ErrorKind>,
)
    requires
        msg.channel.connection_hops@.len() == 1,
        conn.versions@.len() != 1,
        is_open_init_outcome(msg, Ok(cap), Some(conn), counter, r),
    ensures
        r == Err::<HandlerOutput<ChannelResult>, ErrorKind>(
            ErrorKind::InvalidVersionLengthConnection,
        ),
{
}

/// Every ordering has one of three feature names, and no two orderings share
/// one.
pub proof fn order_features_are_distinct(o1: Order, o2: Order)
    ensures
        order_feature(o1) == "UNINITIALIZED"@ || order_feature(o1) == "ORDER_UNORDERED"@
            || order_feature(o1) == "ORDER_ORDERED"@,
        order_feature(o1) == order_feature(o2) ==> o1 == o2,
{
    reveal_strlit("UNINITIALIZED");
    reveal_strlit("ORDER_UNORDERED");
    reveal_strlit("ORDER_ORDERED");
    assert("UNINITIALIZED"@[0] != "ORDER_UNORDERED"@[0]);
    assert("UNINITIALIZED"@[0] != "ORDER_ORDERED"@[0]);
    assert("ORDER_UNORDERED"@[6] != "ORDER_ORDERED"@[6]);
}

/// A request that passes every check is accepted: the new channel is
/// `channel-<counter>` for the counter read from the context, in state `Init`.
pub proof fn valid_request_is_accepted(
    msg: MsgChannelOpenInit,
    cap: Capability,
    conn: ConnectionEnd,
    counter: u64,
    r: Result<HandlerOutput<ChannelResult>, ErrorKind>,
)
    requires
        msg.channel.connection_hops@.len() == 1,
        conn.versions@.len() == 1,
        string_views(conn.versions@[0].features@).contains(order_feature(msg.channel.ordering)),
        msg.channel.version@.len() > 0,
        is_open_init_outcome(msg, Ok(cap), Some(conn), counter, r),
    ensures
        r is Ok,
        r->Ok_0.result.channel_id@ == channel_name(counter),
        r->Ok_0.result.channel_end.state == State::Init,
        r->Ok_0.result.channel_cap == cap,
{
}

/// Two runs on the same request and the same answers of the read context end
/// in the same outcome.
pub proof fn outcome_is_deterministic(
    msg: MsgChannelOpenInit,
    cap: Result<Capability, ErrorKind>,
    connection_end: Option<ConnectionEnd>,
    counter: u64,
    r1: Result<HandlerOutput<ChannelResult>, ErrorKind>,
    r2: Result<HandlerOutput<ChannelResult>, ErrorKind>,
)
    requires
        is_open_init_outcome(msg, cap, connection_end, counter, r1),
        is_open_init_outcome(msg, cap, connection_end, counter, r2),
    ensures
        same_outcome(r1, r2),
{
    if r1 is Ok {
        let o1 = r1->Ok_0;
        let o2 = r2->Ok_0;
        assert forall|i: int| 0 <= i < o1.events@.len() implies same_event(
            #[trigger] o1.events@[i],
            o2.events@[i],
        ) by {
            assert(i == 0);
        }
    }
}

} // verus!
