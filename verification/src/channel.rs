//! Single-ownership model of the native client channel.
//!
//! A channel connects to a server at an IPv4 socket address and carries the
//! scalar options (RPC timeout, retry limit) that the native runtime is
//! configured with. The native initializer receives the peer as the text
//! `a.b.c.d:port`; that rendering is verified here, including that it never
//! contains a NUL byte, so it can always be handed across the C boundary.

use vstd::prelude::*;
use vstd::string::StrSliceExecFns;
use vstd::string::StringExecFns;

verus! {

/// An IPv4 socket address: four octets and a TCP port.
#[derive(Clone, Copy, Debug, PartialEq, Eq, Structural)]
pub struct SocketAddress {
    /// First octet of the IPv4 address.
    pub a: u8,
    /// Second octet.
    pub b: u8,
    /// Third octet.
    pub c: u8,
    /// Fourth octet.
    pub d: u8,
    /// TCP port.
    pub port: u16,
}

/// The character for one decimal digit.
pub open spec fn digit_char(d: nat) -> char {
    if d == 0 {
        '0'
    } else if d == 1 {
        '1'
    } else if d == 2 {
        '2'
    } else if d == 3 {
        '3'
    } else if d == 4 {
        '4'
    } else if d == 5 {
        '5'
    } else if d == 6 {
        '6'
    } else if d == 7 {
        '7'
    } else if d == 8 {
        '8'
    } else {
        '9'
    }
}

/// The decimal rendering of a number, most significant digit first, with
/// no leading zeros (except for the number 0 itself).
pub open spec fn dec_seq(n: nat) -> Seq<char>
    decreases n,
{
    if n < 10 {
        seq![digit_char(n)]
    } else {
        dec_seq(n / 10).push(digit_char(n % 10))
    }
}

/// The text form of an address, as the native initializer expects it:
/// `a.b.c.d:port`.
pub open spec fn spec_addr_string(addr: SocketAddress) -> Seq<char> {
    dec_seq(addr.a as nat) + seq!['.'] + dec_seq(addr.b as nat) + seq!['.'] + dec_seq(addr.c as nat)
        + seq!['.'] + dec_seq(addr.d as nat) + seq![':'] + dec_seq(addr.port as nat)
}

/// Whether a character is a decimal digit.
pub open spec fn is_dec_digit(ch: char) -> bool {
    ch == '0' || ch == '1' || ch == '2' || ch == '3' || ch == '4' || ch == '5' || ch == '6' || ch
        == '7' || ch == '8' || ch == '9'
}

/// Every character of a decimal rendering is a digit.
pub proof fn lemma_dec_seq_digits(n: nat)
    ensures
        forall|i: int| 0 <= i < dec_seq(n).len() ==> is_dec_digit(#[trigger] dec_seq(n)[i]),
    decreases n,
{
    if n >= 10 {
        lemma_dec_seq_digits(n / 10);
        assert forall|i: int| 0 <= i < dec_seq(n).len() implies is_dec_digit(
            #[trigger] dec_seq(n)[i],
        ) by {
            if i < dec_seq(n / 10).len() {
                assert(dec_seq(n)[i] == dec_seq(n / 10)[i]);
            }
        }
    }
}

/// The text form of an address never contains a NUL character, so it can
/// always be turned into a C string for the native initializer.
pub proof fn lemma_addr_string_no_nul(addr: SocketAddress)
    ensures
        forall|i: int| 0 <= i < spec_addr_string(addr).len() ==> #[trigger] spec_addr_string(
            addr,
        )[i] != '\0',
{
    lemma_dec_seq_digits(addr.a as nat);
    lemma_dec_seq_digits(addr.b as nat);
    lemma_dec_seq_digits(addr.c as nat);
    lemma_dec_seq_digits(addr.d as nat);
    lemma_dec_seq_digits(addr.port as nat);
}

/// The one-character string for a decimal digit.
fn digit_str(d: u8) -> (r: &'static str)
    requires
        d < 10,
    ensures
        r@ == seq![digit_char(d as nat)],
{
    let r: &'static str = match d {
        0 => "0",
        1 => "1",
        2 => "2",
        3 => "3",
        4 => "4",
        5 => "5",
        6 => "6",
        7 => "7",
        8 => "8",
        _ => "9",
    };
    proof {
        reveal_strlit("0");
        reveal_strlit("1");
        reveal_strlit("2");
        reveal_strlit("3");
        reveal_strlit("4");
        reveal_strlit("5");
        reveal_strlit("6");
        reveal_strlit("7");
        reveal_strlit("8");
        reveal_strlit("9");
        assert(r@ =~= seq![digit_char(d as nat)]);
    }
    r
}

/// Render a number in decimal.
fn u16_to_dec(n: u16) -> (s: String)
    ensures
        s@ == dec_seq(n as nat),
    decreases n,
{
    if n < 10 {
        String::from_str(digit_str(n as u8))
    } else {
        let mut s = u16_to_dec(n / 10);
        s.append(digit_str((n % 10) as u8));
        proof {
            assert(s@ =~= dec_seq(n as nat));
        }
        s
    }
}

impl SocketAddress {
    /// The text form `a.b.c.d:port` that the native initializer expects.
    pub fn to_addr_string(&self) -> (s: String)
        ensures
            s@ == spec_addr_string(*self),
    {
        let mut s = u16_to_dec(self.a as u16);
        s.append(".");
        let part_b = u16_to_dec(self.b as u16);
        s.append(part_b.as_str());
        s.append(".");
        let part_c = u16_to_dec(self.c as u16);
        s.append(part_c.as_str());
        s.append(".");
        let part_d = u16_to_dec(self.d as u16);
        s.append(part_d.as_str());
        s.append(":");
        let part_port = u16_to_dec(self.port);
        s.append(part_port.as_str());
        proof {
            reveal_strlit(".");
            reveal_strlit(":");
            assert(s@ =~= spec_addr_string(*self));
        }
        s
    }
}

/// Options applied to a channel when it is initialized. A value left unset
/// keeps the native runtime's own default.
pub struct ChannelOptions {
    /// Max duration of an RPC over the channel, in milliseconds; -1 means
    /// wait indefinitely.
    pub timeout_ms: Option<i32>,
    /// Retry limit for an RPC over the channel; a value at most 0 means no
    /// retry.
    pub max_retry: Option<i32>,
}

impl ChannelOptions {
    /// Options with every value left at the native default.
    pub fn new() -> (o: ChannelOptions)
        ensures
            o.timeout_ms is None,
            o.max_retry is None,
    {
        ChannelOptions { timeout_ms: None, max_retry: None }
    }

    /// Set the max duration of an RPC in milliseconds; -1 means wait
    /// indefinitely.
    pub fn set_timeout_ms(&mut self, timeout: i32)
        ensures
            final(self).timeout_ms == Some(timeout),
            final(self).max_retry == old(self).max_retry,
    {
        self.timeout_ms = Some(timeout);
    }

    /// Set the retry limit; a value at most 0 means no retry.
    pub fn set_max_retry(&mut self, max_retry: i32)
        ensures
            final(self).max_retry == Some(max_retry),
            final(self).timeout_ms == old(self).timeout_ms,
    {
        self.max_retry = Some(max_retry);
    }
}

impl Default for ChannelOptions {
    /// Same as `ChannelOptions::new`.
    fn default() -> (o: ChannelOptions)
        ensures
            o.timeout_ms is None,
            o.max_retry is None,
    {
        ChannelOptions::new()
    }
}

/// Model of an initialized native channel: the peer it was resolved
/// against and the options it was initialized with.
pub struct Channel {
    /// The peer the channel connects to.
    pub addr: SocketAddress,
    /// RPC timeout the channel was initialized with, if one was set.
    pub timeout_ms: Option<i32>,
    /// Retry limit the channel was initialized with, if one was set.
    pub max_retry: Option<i32>,
}

impl Channel {
    /// Initialize a channel against the given peer with the given options.
    pub fn with_options(sockaddr: &SocketAddress, options: &ChannelOptions) -> (c: Channel)
        ensures
            c.addr == *sockaddr,
            c.timeout_ms == options.timeout_ms,
            c.max_retry == options.max_retry,
    {
        Channel {
            addr: *sockaddr,
            timeout_ms: options.timeout_ms,
            max_retry: options.max_retry,
        }
    }

    /// The text form of the peer address.
    pub fn address_string(&self) -> (s: String)
        ensures
            s@ == spec_addr_string(self.addr),
    {
        self.addr.to_addr_string()
    }
}

} // verus!
