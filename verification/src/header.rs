//! How far the headers of a frame have been recognised, and the least sizes
//! that each stage needs.

use core::cmp::Ordering;
use vstd::prelude::*;

verus! {

/// The stack of headers recognised in a frame, from the link layer up.
///
/// Header types are ordered by their codes, and the codes are chosen so that
/// a deeper stack has the higher code: to compare with `L2`, `L3` or `L4` is
/// to ask whether that layer has been reached. The variants stand in
/// increasing order of their codes, so the derived total order is the order
/// of the codes, as that of `partial_cmp` is.
#[derive(Clone, Copy, Debug, PartialEq, Eq, Structural, Ord, Hash)]
pub enum HeaderType {
    /// Nothing recognised yet; the default. It has no sizes.
    Invalid,
    Eth,
    Arp,
    Ipv4,
    Ipv4Icmp,
    Ipv6,
    Ipv4Tcp,
    Ipv4Udp,
    Ipv6Tcp,
    Ipv6Udp,
}

#[allow(non_upper_case_globals)]
impl HeaderType {
    /// The lowest header type that reaches the link layer.
    pub const L2: HeaderType = HeaderType::Eth;

    /// The lowest header type that reaches the network layer.
    pub const L3: HeaderType = HeaderType::Ipv4;

    /// The lowest header type that reaches the network layer with IPv6.
    pub const L3Ipv6: HeaderType = HeaderType::Ipv6;

    /// The lowest header type that reaches the transport layer.
    pub const L4: HeaderType = HeaderType::Ipv4Tcp;

    /// The lowest header type that reaches the transport layer over IPv6.
    pub const L4Ipv6: HeaderType = HeaderType::Ipv6Tcp;

    /// The code of a header type.
    pub open spec fn code(self) -> u8 {
        match self {
            HeaderType::Invalid => 0x00,
            HeaderType::Eth => 0x01,
            HeaderType::Arp => 0x02,
            HeaderType::Ipv4 => 0x20,
            HeaderType::Ipv4Icmp => 0x21,
            HeaderType::Ipv6 => 0x40,
            HeaderType::Ipv4Tcp => 0x80,
            HeaderType::Ipv4Udp => 0x81,
            HeaderType::Ipv6Tcp => 0xb0,
            HeaderType::Ipv6Udp => 0xb1,
        }
    }

    /// Whether `self` has come at least as far as `floor`.
    pub open spec fn at_least(self, floor: HeaderType) -> bool {
        self.code() >= floor.code()
    }

    /// The header type of the same stack without its topmost header;
    /// `Invalid` where no header is left.
    pub open spec fn below(self) -> HeaderType {
        match self {
            HeaderType::Invalid => HeaderType::Invalid,
            HeaderType::Eth => HeaderType::Invalid,
            HeaderType::Arp => HeaderType::Eth,
            HeaderType::Ipv4 => HeaderType::Eth,
            HeaderType::Ipv4Icmp => HeaderType::Ipv4,
            HeaderType::Ipv6 => HeaderType::Eth,
            HeaderType::Ipv4Tcp => HeaderType::Ipv4,
            HeaderType::Ipv4Udp => HeaderType::Ipv4,
            HeaderType::Ipv6Tcp => HeaderType::Ipv6,
            HeaderType::Ipv6Udp => HeaderType::Ipv6,
        }
    }

    /// The least length in bytes of the topmost header of a stack, without
    /// options; 0 for `Invalid`, which has none. An IPv6 header counts as 20
    /// bytes here: what it has beyond an IPv4 header is accounted for with
    /// the options.
    pub open spec fn header_size(self) -> nat {
        match self {
            HeaderType::Invalid => 0,
            HeaderType::Eth => 14,
            HeaderType::Arp => 28,
            HeaderType::Ipv4 => 20,
            HeaderType::Ipv4Icmp => 8,
            HeaderType::Ipv6 => 20,
            HeaderType::Ipv4Tcp => 20,
            HeaderType::Ipv4Udp => 8,
            HeaderType::Ipv6Tcp => 20,
            HeaderType::Ipv6Udp => 8,
        }
    }

    /// The least length in bytes of a frame that holds a stack of headers,
    /// from the start of the link-layer header, without VLAN tags and
    /// options; 0 for `Invalid`.
    pub open spec fn packet_size(self) -> nat {
        match self {
            HeaderType::Invalid => 0,
            HeaderType::Eth => 14,
            HeaderType::Arp => 42,
            HeaderType::Ipv4 => 34,
            HeaderType::Ipv4Icmp => 42,
            HeaderType::Ipv6 => 34,
            HeaderType::Ipv4Tcp => 54,
            HeaderType::Ipv4Udp => 42,
            HeaderType::Ipv6Tcp => 54,
            HeaderType::Ipv6Udp => 42,
        }
    }

    /// The header types in the order of their codes, from nothing recognised
    /// to the deepest stack.
    pub proof fn lemma_order()
        ensures
            HeaderType::Invalid.code() < HeaderType::Eth.code() < HeaderType::Arp.code()
                < HeaderType::Ipv4.code() < HeaderType::Ipv4Icmp.code() < HeaderType::Ipv6.code()
                < HeaderType::Ipv4Tcp.code() < HeaderType::Ipv4Udp.code()
                < HeaderType::Ipv6Tcp.code() < HeaderType::Ipv6Udp.code(),
    {
    }

    /// Two header types with the same code are the same.
    pub proof fn lemma_code_is_injective(a: HeaderType, b: HeaderType)
        requires
            a.code() == b.code(),
        ensures
            a == b,
    {
    }

    /// What a comparison with a layer's floor tells: the link layer is
    /// reached by every header type but `Invalid`, the network layer by those
    /// with an IP header, the transport layer by those with a TCP or UDP
    /// header; and over IPv6 each by those that hold an IPv6 header, but for
    /// the TCP and UDP stacks over IPv4, whose codes lie above `Ipv6`.
    pub proof fn lemma_layers(h: HeaderType)
        ensures
            h.at_least(HeaderType::L2) <==> h != HeaderType::Invalid,
            h.at_least(HeaderType::L3) <==> h != HeaderType::Invalid && h != HeaderType::Eth && h
                != HeaderType::Arp,
            h.at_least(HeaderType::L3Ipv6) <==> h == HeaderType::Ipv6 || h.at_least(
                HeaderType::L4,
            ),
            h.at_least(HeaderType::L4) <==> h == HeaderType::Ipv4Tcp || h == HeaderType::Ipv4Udp
                || h == HeaderType::Ipv6Tcp || h == HeaderType::Ipv6Udp,
            h.at_least(HeaderType::L4Ipv6) <==> h == HeaderType::Ipv6Tcp || h
                == HeaderType::Ipv6Udp,
    {
    }

    /// The layer that a header type has reached shows in the bits of its
    /// code: the highest bit is set from the transport layer on, and one of
    /// the three highest from the network layer on.
    pub proof fn lemma_layer_bits(h: HeaderType)
        ensures
            h.at_least(HeaderType::L4) <==> h.code() & 0x80 != 0,
            h.at_least(HeaderType::L3) <==> h.code() & 0xe0 != 0,
    {
        let c = h.code();
        assert(c >= 0x80 <==> c & 0x80 != 0) by (bit_vector);
        assert(c >= 0x20 <==> c & 0xe0 != 0) by (bit_vector);
    }

    /// Taking the topmost header off a stack gives a header type that has
    /// come less far.
    pub proof fn lemma_below_is_lower(h: HeaderType)
        requires
            h != HeaderType::Invalid,
        ensures
            h.below().code() < h.code(),
    {
    }

    /// The least length of a frame is that of its topmost header and of the
    /// frame that holds the headers below it.
    pub proof fn lemma_packet_size_is_sum(h: HeaderType)
        ensures
            h.packet_size() == h.header_size() + h.below().packet_size(),
    {
    }

    /// How `self` stands to `other`: as the code of the one stands to the code
    /// of the other.
    pub open spec fn order(self, other: HeaderType) -> Ordering {
        if self.code() < other.code() {
            Ordering::Less
        } else if self.code() == other.code() {
            Ordering::Equal
        } else {
            Ordering::Greater
        }
    }

    /// The code of `self`.
    pub fn to_numeric(self) -> (code: u8)
        ensures
            code == self.code(),
    {
        match self {
            HeaderType::Invalid => 0x00,
            HeaderType::Eth => 0x01,
            HeaderType::Arp => 0x02,
            HeaderType::Ipv4 => 0x20,
            HeaderType::Ipv4Icmp => 0x21,
            HeaderType::Ipv6 => 0x40,
            HeaderType::Ipv4Tcp => 0x80,
            HeaderType::Ipv4Udp => 0x81,
            HeaderType::Ipv6Tcp => 0xb0,
            HeaderType::Ipv6Udp => 0xb1,
        }
    }

    /// The least length in bytes of a frame that holds this stack of
    /// headers, from the start of the link-layer header, without VLAN tags
    /// and options. `Invalid` has none: to ask for it is an error of the
    /// caller, not a condition to recover from.
    pub fn min_packet_size(self) -> (size: usize)
        requires
            self != HeaderType::Invalid,
        ensures
            size == self.packet_size(),
    {
        match self {
            HeaderType::Eth => 14,
            HeaderType::Arp => 14 + 28,
            HeaderType::Ipv4 => 14 + 20,
            HeaderType::Ipv4Icmp => 14 + 20 + 8,
            HeaderType::Ipv6 => 14 + 20,
            HeaderType::Ipv4Tcp => 14 + 20 + 20,
            HeaderType::Ipv4Udp => 14 + 20 + 8,
            HeaderType::Ipv6Tcp => 14 + 20 + 20,
            HeaderType::Ipv6Udp => 14 + 20 + 8,
            HeaderType::Invalid => unreached(),
        }
    }

    /// The least length in bytes of the topmost header of this stack,
    /// without options. `Invalid` has none: to ask for it is an error of the
    /// caller, not a condition to recover from.
    pub fn min_header_size(self) -> (size: usize)
        requires
            self != HeaderType::Invalid,
        ensures
            size == self.header_size(),
    {
        match self {
            HeaderType::Eth => 14,
            HeaderType::Arp => 28,
            HeaderType::Ipv4 => 20,
            HeaderType::Ipv4Icmp => 8,
            HeaderType::Ipv6 => 20,
            HeaderType::Ipv4Tcp => 20,
            HeaderType::Ipv4Udp => 8,
            HeaderType::Ipv6Tcp => 20,
            HeaderType::Ipv6Udp => 8,
            HeaderType::Invalid => unreached(),
        }
    }
}

impl Default for HeaderType {
    fn default() -> (h: HeaderType)
        ensures
            h == HeaderType::Invalid,
    {
        HeaderType::Invalid
    }
}

impl PartialOrd for HeaderType {
    fn partial_cmp(&self, other: &HeaderType) -> (r: Option<Ordering>)
        ensures
            r == Some(self.order(*other)),
    {
        let a = self.to_numeric();
        let b = other.to_numeric();
        if a < b {
            Some(Ordering::Less)
        } else if a == b {
            Some(Ordering::Equal)
        } else {
            Some(Ordering::Greater)
        }
    }
}

impl vstd::std_specs::cmp::PartialOrdSpecImpl for HeaderType {
    open spec fn obeys_partial_cmp_spec() -> bool {
        true
    }

    open spec fn partial_cmp_spec(&self, other: &HeaderType) -> Option<Ordering> {
        Some(self.order(*other))
    }
}

} // verus!
