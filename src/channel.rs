//! Channel and connection records, and the event that announces a new channel.

use vstd::prelude::*;
use crate::ids::{ChannelId, ConnectionId, PortId, channel_name, connection_name, default_port_name};
use crate::list::{List, string_views};

verus! {

/// A position in a chain's history.
#[derive(Clone, Copy, Debug, PartialEq, Eq)]
pub struct Height {
    pub revision_number: u64,
    pub revision_height: u64,
}

impl Default for Height {
    fn default() -> (r: Self)
        ensures
            r.revision_number == 0,
            r.revision_height == 0,
    {
        Height { revision_height: 0, revision_number: 0 }
    }
}

/// What an event says of the channel it is about.
pub struct Attributes {
    pub height: Height,
    pub port_id: PortId,
    pub channel_id: Option<ChannelId>,
    pub connection_id: ConnectionId,
    pub counterparty_port_id: PortId,
    pub counterparty_channel_id: Option<ChannelId>,
}

/// `a` holds the default of every attribute but the channel identifier.
pub open spec fn is_default_but_channel_id(a: Attributes) -> bool {
    &&& a.height == Height { revision_number: 0, revision_height: 0 }
    &&& a.port_id@ == default_port_name()
    &&& a.connection_id@ == connection_name(0)
    &&& a.counterparty_port_id@ == default_port_name()
    &&& a.counterparty_channel_id is None
}

impl Default for Attributes {
    fn default() -> (r: Self)
        ensures
            is_default_but_channel_id(r),
            r.channel_id is None,
    {
        Attributes {
            height: Height::default(),
            port_id: PortId::default(),
            channel_id: None,
            connection_id: ConnectionId::default(),
            counterparty_port_id: PortId::default(),
            counterparty_channel_id: None,
        }
    }
}

/// The handshake state of a channel.
#[derive(Clone, Copy, Debug, PartialEq, Eq)]
pub enum State {
    Uninitialized,
    Init,
    TryOpen,
    Open,
    Closed,
}

/// Whether a channel identifier was newly generated or taken over.
#[derive(Clone, Copy, Debug, PartialEq, Eq)]
pub enum ChannelIdState {
    Generated,
    Reused,
}

/// The delivery ordering of a channel.
#[derive(Clone, Copy, Debug, PartialEq, Eq)]
pub enum Order {
    Uninitialized,
    Unordered,
    Ordered,
}

/// The feature name under which a connection version supports an ordering.
pub open spec fn order_feature(o: Order) -> Seq<char> {
    match o {
        Order::Uninitialized => "UNINITIALIZED"@,
        Order::Unordered => "ORDER_UNORDERED"@,
        Order::Ordered => "ORDER_ORDERED"@,
    }
}

impl Order {
    /// The feature name of this ordering.
    pub fn as_string(&self) -> (r: &'static str)
        ensures
            r@ == order_feature(*self),
    {
        match self {
            Self::Uninitialized => "UNINITIALIZED",
            Self::Unordered => "ORDER_UNORDERED",
            Self::Ordered => "ORDER_ORDERED",
        }
    }
}

/// The remote side of a channel.
pub struct Counterparty {
    pub port_id: PortId,
    pub channel_id: Option<ChannelId>,
}

impl Clone for Counterparty {
    fn clone(&self) -> (r: Self)
        ensures
            r == *self,
    {
        Counterparty {
            port_id: self.port_id.clone(),
            channel_id: match &self.channel_id {
                Some(id) => Some(id.clone()),
                None => None,
            },
        }
    }
}

/// The record of a channel.
pub struct ChannelEnd {
    pub state: State,
    pub ordering: Order,
    pub remote: Counterparty,
    pub connection_hops: List<ConnectionId>,
    pub version: String,
}

impl ChannelEnd {
    pub fn connection_hops(&self) -> (r: &List<ConnectionId>)
        ensures
            *r == self.connection_hops,
    {
        &self.connection_hops
    }

    pub fn ordering(&self) -> (r: &Order)
        ensures
            *r == self.ordering,
    {
        &self.ordering
    }

    pub fn counterparty(&self) -> (r: &Counterparty)
        ensures
            *r == self.remote,
    {
        &self.remote
    }

    pub fn version(&self) -> (r: String)
        ensures
            r == self.version,
    {
        self.version.clone()
    }
}

/// A negotiated connection version: the features it supports.
pub struct Version {
    pub features: List<String>,
}

impl Version {
    /// Whether `feature` is among the supported features.
    pub fn is_supported_feature(&self, feature: String) -> (r: bool)
        ensures
            r == string_views(self.features@).contains(feature@),
    {
        self.features.contains(&feature)
    }
}

/// The record of a connection, as far as channels depend on it.
pub struct ConnectionEnd {
    pub versions: List<Version>,
}

impl ConnectionEnd {
    pub fn versions(&self) -> (r: &List<Version>)
        ensures
            *r == self.versions,
    {
        &self.versions
    }
}

/// The payload of the event announcing an initialized channel.
pub struct OpenInit(pub Attributes);

impl From<Attributes> for OpenInit {
    fn from(attrs: Attributes) -> (r: Self) {
        OpenInit(attrs)
    }
}

impl vstd::std_specs::convert::FromSpecImpl<Attributes> for OpenInit {
    open spec fn obeys_from_spec() -> bool {
        true
    }

    open spec fn from_spec(attrs: Attributes) -> OpenInit {
        OpenInit(attrs)
    }
}

/// An event emitted by a handler.
pub enum IbcEvent {
    OpenInitChannel(OpenInit),
}

} // verus!
