//! String-backed identifiers, with the decimal naming scheme of generated ones.

use vstd::prelude::*;

verus! {

/// The character of a decimal digit.
pub open spec fn digit_char(d: nat) -> char {
    if d == 0 {
        '0'
    } else if d == 1 {
        '1'
    } else if d == 2 {
        '2'
    } else if d == 3 {
        '3'
    } else if d == 4 {
        '4'
    } else if d == 5 {
        '5'
    } else if d == 6 {
        '6'
    } else if d == 7 {
        '7'
    } else if d == 8 {
        '8'
    } else {
        '9'
    }
}

/// The decimal notation of `n`, without sign or leading zeros.
pub open spec fn decimal(n: nat) -> Seq<char>
    decreases n,
{
    if n < 10 {
        seq![digit_char(n)]
    } else {
        decimal(n / 10).push(digit_char(n % 10))
    }
}

/// The name of the channel generated from `counter`: `channel-<counter>`.
pub open spec fn channel_name(counter: u64) -> Seq<char> {
    "channel-"@ + decimal(counter as nat)
}

/// The name of the connection generated from `counter`: `connection-<counter>`.
pub open spec fn connection_name(counter: u64) -> Seq<char> {
    "connection-"@ + decimal(counter as nat)
}

/// The name of the default port.
pub open spec fn default_port_name() -> Seq<char> {
    "defaultPort"@
}

fn digit_str(d: u64) -> (r: &'static str)
    requires
        d < 10,
    ensures
        r@ == seq![digit_char(d as nat)],
{
    proof {
        reveal_strlit("0");
        reveal_strlit("1");
        reveal_strlit("2");
        reveal_strlit("3");
        reveal_strlit("4");
        reveal_strlit("5");
        reveal_strlit("6");
        reveal_strlit("7");
        reveal_strlit("8");
        reveal_strlit("9");
    }
    match d {
        0 => "0",
        1 => "1",
        2 => "2",
        3 => "3",
        4 => "4",
        5 => "5",
        6 => "6",
        7 => "7",
        8 => "8",
        _ => "9",
    }
}

/// Appends the decimal notation of `n` to `s`.
fn append_decimal(s: &mut String, n: u64)
    ensures
        final(s)@ == old(s)@ + decimal(n as nat),
    decreases n,
{
    if n >= 10 {
        append_decimal(s, n / 10);
    }
    s.append(digit_str(n % 10));
    proof {
        if n >= 10 {
            assert(decimal(n as nat) == decimal((n / 10) as nat).push(digit_char((n % 10) as nat)));
        }
        assert(old(s)@ + decimal(n as nat) =~= final(s)@);
    }
}

/// Identifies a channel.
pub struct ChannelId(pub String);

impl View for ChannelId {
    type V = Seq<char>;

    open spec fn view(&self) -> Seq<char> {
        self.0@
    }
}

impl ChannelId {
    /// The identifier `channel-<counter>`.
    pub fn new(counter: u64) -> (r: Self)
        ensures
            r@ == channel_name(counter),
    {
        let mut s = String::from_str("channel-");
        append_decimal(&mut s, counter);
        ChannelId(s)
    }
}

impl Default for ChannelId {
    fn default() -> (r: Self)
        ensures
            r@ == channel_name(0),
    {
        Self::new(0)
    }
}

impl Clone for ChannelId {
    fn clone(&self) -> (r: Self)
        ensures
            r == *self,
    {
        ChannelId(self.0.clone())
    }
}

/// Identifies a port.
pub struct PortId(pub String);

impl View for PortId {
    type V = Seq<char>;

    open spec fn view(&self) -> Seq<char> {
        self.0@
    }
}

impl Clone for PortId {
    fn clone(&self) -> (r: Self)
        ensures
            r == *self,
    {
        PortId(self.0.clone())
    }
}

impl Default for PortId {
    fn default() -> (r: Self)
        ensures
            r@ == default_port_name(),
    {
        PortId(String::from_str("defaultPort"))
    }
}

/// Identifies a connection.
#[derive(Debug)]
pub struct ConnectionId(pub String);

impl View for ConnectionId {
    type V = Seq<char>;

    open spec fn view(&self) -> Seq<char> {
        self.0@
    }
}

impl ConnectionId {
    /// The identifier `connection-<counter>`.
    pub fn new(counter: u64) -> (r: Self)
        ensures
            r@ == connection_name(counter),
    {
        let mut s = String::from_str("connection-");
        append_decimal(&mut s, counter);
        ConnectionId(s)
    }
}

impl Default for ConnectionId {
    fn default() -> (r: Self)
        ensures
            r@ == connection_name(0),
    {
        Self::new(0)
    }
}

impl Clone for ConnectionId {
    fn clone(&self) -> (r: Self)
        ensures
            r == *self,
    {
        ConnectionId(self.0.clone())
    }
}

/// Identifies a light client.
pub struct ClientId(pub String);

/// The identity of whoever signed a request.
pub struct Signer(pub String);

/// A token authorizing its holder to act on behalf of a port.
pub struct Capability {
    pub index: u64,
}

} // verus!
