//! IP protocol numbers: the 8-bit field of an IP header that names the protocol
//! it carries, and what follows from it for the layers above.

use crate::l7::L7Protocol;
use core::cmp::Ordering;
use vstd::prelude::*;
use vstd::std_specs::cmp::PartialEqSpec;

verus! {

/// An IP protocol, by its IANA number.
///
/// The variants stand in increasing order of their codes, so the derived total
/// order is the order of the codes, as that of `partial_cmp` is.
#[derive(Clone, Copy, Debug, PartialEq, Eq, Structural, Ord, Hash)]
pub enum IpProtocol {
    Ipv6HopByHop,
    Icmpv4,
    Igmp,
    Ipv4,
    Tcp,
    Udp,
    Rudp,
    Ipv6,
    Ipv6Routing,
    Ipv6Fragment,
    Gre,
    Esp,
    Ah,
    Icmpv6,
    NoNextHeader,
    Ipv6Destination,
    Ospf,
    Ipip,
    EtherIp,
    Vrrp,
    Sstp,
    UdpLite,
    MplsInIp,
    /// Any number that names none of the others; the default.
    Unknown,
}

impl IpProtocol {
    /// The wire code of an IP protocol.
    pub open spec fn code(self) -> u8 {
        match self {
            IpProtocol::Ipv6HopByHop => 0,
            IpProtocol::Icmpv4 => 1,
            IpProtocol::Igmp => 2,
            IpProtocol::Ipv4 => 4,
            IpProtocol::Tcp => 6,
            IpProtocol::Udp => 17,
            IpProtocol::Rudp => 27,
            IpProtocol::Ipv6 => 41,
            IpProtocol::Ipv6Routing => 43,
            IpProtocol::Ipv6Fragment => 44,
            IpProtocol::Gre => 47,
            IpProtocol::Esp => 50,
            IpProtocol::Ah => 51,
            IpProtocol::Icmpv6 => 58,
            IpProtocol::NoNextHeader => 59,
            IpProtocol::Ipv6Destination => 60,
            IpProtocol::Ospf => 89,
            IpProtocol::Ipip => 94,
            IpProtocol::EtherIp => 97,
            IpProtocol::Vrrp => 112,
            IpProtocol::Sstp => 132,
            IpProtocol::UdpLite => 136,
            IpProtocol::MplsInIp => 137,
            IpProtocol::Unknown => 255,
        }
    }

    /// Whether some IP protocol has the wire code `code`.
    pub open spec fn is_assigned(code: u8) -> bool {
        exists|p: IpProtocol| p.code() == code
    }

    /// The IP protocol that a wire code names: the one with that code, and
    /// `Unknown` where there is none.
    pub open spec fn from_code(code: u8) -> IpProtocol {
        if code == IpProtocol::Ipv6HopByHop.code() {
            IpProtocol::Ipv6HopByHop
        } else if code == IpProtocol::Icmpv4.code() {
            IpProtocol::Icmpv4
        } else if code == IpProtocol::Igmp.code() {
            IpProtocol::Igmp
        } else if code == IpProtocol::Ipv4.code() {
            IpProtocol::Ipv4
        } else if code == IpProtocol::Tcp.code() {
            IpProtocol::Tcp
        } else if code == IpProtocol::Udp.code() {
            IpProtocol::Udp
        } else if code == IpProtocol::Rudp.code() {
            IpProtocol::Rudp
        } else if code == IpProtocol::Ipv6.code() {
            IpProtocol::Ipv6
        } else if code == IpProtocol::Ipv6Routing.code() {
            IpProtocol::Ipv6Routing
        } else if code == IpProtocol::Ipv6Fragment.code() {
            IpProtocol::Ipv6Fragment
        } else if code == IpProtocol::Gre.code() {
            IpProtocol::Gre
        } else if code == IpProtocol::Esp.code() {
            IpProtocol::Esp
        } else if code == IpProtocol::Ah.code() {
            IpProtocol::Ah
        } else if code == IpProtocol::Icmpv6.code() {
            IpProtocol::Icmpv6
        } else if code == IpProtocol::NoNextHeader.code() {
            IpProtocol::NoNextHeader
        } else if code == IpProtocol::Ipv6Destination.code() {
            IpProtocol::Ipv6Destination
        } else if code == IpProtocol::Ospf.code() {
            IpProtocol::Ospf
        } else if code == IpProtocol::Ipip.code() {
            IpProtocol::Ipip
        } else if code == IpProtocol::EtherIp.code() {
            IpProtocol::EtherIp
        } else if code == IpProtocol::Vrrp.code() {
            IpProtocol::Vrrp
        } else if code == IpProtocol::Sstp.code() {
            IpProtocol::Sstp
        } else if code == IpProtocol::UdpLite.code() {
            IpProtocol::UdpLite
        } else if code == IpProtocol::MplsInIp.code() {
            IpProtocol::MplsInIp
        } else {
            IpProtocol::Unknown
        }
    }

    /// Two IP protocols with the same code are the same.
    pub proof fn lemma_code_is_injective(a: IpProtocol, b: IpProtocol)
        requires
            a.code() == b.code(),
        ensures
            a == b,
    {
    }

    /// Converting an IP protocol to its code and back gives it again.
    pub proof fn lemma_round_trip(p: IpProtocol)
        ensures
            Self::from_code(p.code()) == p,
    {
    }

    /// A code that some IP protocol has is converted to one that has it; any
    /// other code is taken for `Unknown`.
    pub proof fn lemma_from_code_is_exact(code: u8)
        ensures
            Self::is_assigned(code) ==> Self::from_code(code).code() == code,
            !Self::is_assigned(code) ==> Self::from_code(code) == IpProtocol::Unknown,
    {
    }

    /// An IP protocol equals a number, on either side of `==`, exactly when the
    /// number is its code; so it always equals its own code.
    pub proof fn lemma_equals_own_code(p: IpProtocol, code: u8)
        ensures
            p.eq_spec(&code) <==> p.code() == code,
            code.eq_spec(&p) <==> p.code() == code,
            p.eq_spec(&p.code()),
            p.code().eq_spec(&p),
    {
    }

    /// How `self` stands to `other`: as the code of the one stands to the code
    /// of the other.
    pub open spec fn order(self, other: IpProtocol) -> Ordering {
        if self.code() < other.code() {
            Ordering::Less
        } else if self.code() == other.code() {
            Ordering::Equal
        } else {
            Ordering::Greater
        }
    }

    /// The wire code of `self`.
    pub fn to_numeric(self) -> (code: u8)
        ensures
            code == self.code(),
    {
        match self {
            IpProtocol::Ipv6HopByHop => 0,
            IpProtocol::Icmpv4 => 1,
            IpProtocol::Igmp => 2,
            IpProtocol::Ipv4 => 4,
            IpProtocol::Tcp => 6,
            IpProtocol::Udp => 17,
            IpProtocol::Rudp => 27,
            IpProtocol::Ipv6 => 41,
            IpProtocol::Ipv6Routing => 43,
            IpProtocol::Ipv6Fragment => 44,
            IpProtocol::Gre => 47,
            IpProtocol::Esp => 50,
            IpProtocol::Ah => 51,
            IpProtocol::Icmpv6 => 58,
            IpProtocol::NoNextHeader => 59,
            IpProtocol::Ipv6Destination => 60,
            IpProtocol::Ospf => 89,
            IpProtocol::Ipip => 94,
            IpProtocol::EtherIp => 97,
            IpProtocol::Vrrp => 112,
            IpProtocol::Sstp => 132,
            IpProtocol::UdpLite => 136,
            IpProtocol::MplsInIp => 137,
            IpProtocol::Unknown => 255,
        }
    }

    /// The IP protocol that the wire code `code` names, `Unknown` for a code
    /// that names none.
    pub fn from_numeric(code: u8) -> (p: IpProtocol)
        ensures
            p == Self::from_code(code),
    {
        match code {
            0 => IpProtocol::Ipv6HopByHop,
            1 => IpProtocol::Icmpv4,
            2 => IpProtocol::Igmp,
            4 => IpProtocol::Ipv4,
            6 => IpProtocol::Tcp,
            17 => IpProtocol::Udp,
            27 => IpProtocol::Rudp,
            41 => IpProtocol::Ipv6,
            43 => IpProtocol::Ipv6Routing,
            44 => IpProtocol::Ipv6Fragment,
            47 => IpProtocol::Gre,
            50 => IpProtocol::Esp,
            51 => IpProtocol::Ah,
            58 => IpProtocol::Icmpv6,
            59 => IpProtocol::NoNextHeader,
            60 => IpProtocol::Ipv6Destination,
            89 => IpProtocol::Ospf,
            94 => IpProtocol::Ipip,
            97 => IpProtocol::EtherIp,
            112 => IpProtocol::Vrrp,
            132 => IpProtocol::Sstp,
            136 => IpProtocol::UdpLite,
            137 => IpProtocol::MplsInIp,
            _ => IpProtocol::Unknown,
        }
    }
}

impl Default for IpProtocol {
    fn default() -> (p: IpProtocol)
        ensures
            p == IpProtocol::Unknown,
    {
        IpProtocol::Unknown
    }
}

impl From<IpProtocol> for u8 {
    fn from(p: IpProtocol) -> (code: u8)
        ensures
            code == p.code(),
    {
        p.to_numeric()
    }
}

impl vstd::std_specs::convert::FromSpecImpl<IpProtocol> for u8 {
    open spec fn obeys_from_spec() -> bool {
        true
    }

    open spec fn from_spec(p: IpProtocol) -> u8 {
        p.code()
    }
}

impl From<u8> for IpProtocol {
    fn from(code: u8) -> (p: IpProtocol)
        ensures
            p == IpProtocol::from_code(code),
    {
        IpProtocol::from_numeric(code)
    }
}

impl vstd::std_specs::convert::FromSpecImpl<u8> for IpProtocol {
    open spec fn obeys_from_spec() -> bool {
        true
    }

    open spec fn from_spec(code: u8) -> IpProtocol {
        IpProtocol::from_code(code)
    }
}

impl PartialEq<u8> for IpProtocol {
    fn eq(&self, other: &u8) -> (r: bool)
        ensures
            r == (self.code() == *other),
    {
        self.to_numeric() == *other
    }
}

impl vstd::std_specs::cmp::PartialEqSpecImpl<u8> for IpProtocol {
    open spec fn obeys_eq_spec() -> bool {
        true
    }

    open spec fn eq_spec(&self, other: &u8) -> bool {
        self.code() == *other
    }
}

impl PartialEq<IpProtocol> for u8 {
    fn eq(&self, other: &IpProtocol) -> (r: bool)
        ensures
            r == (other.code() == *self),
    {
        other.to_numeric() == *self
    }
}

impl vstd::std_specs::cmp::PartialEqSpecImpl<IpProtocol> for u8 {
    open spec fn obeys_eq_spec() -> bool {
        true
    }

    open spec fn eq_spec(&self, other: &IpProtocol) -> bool {
        other.code() == *self
    }
}

impl PartialOrd for IpProtocol {
    fn partial_cmp(&self, other: &IpProtocol) -> (r: Option<Ordering>)
        ensures
            r == Some(self.order(*other)),
    {
        let a = self.to_numeric();
        let b = other.to_numeric();
        if a < b {
            Some(Ordering::Less)
        } else if a == b {
            Some(Ordering::Equal)
        } else {
            Some(Ordering::Greater)
        }
    }
}

impl vstd::std_specs::cmp::PartialOrdSpecImpl for IpProtocol {
    open spec fn obeys_partial_cmp_spec() -> bool {
        true
    }

    open spec fn partial_cmp_spec(&self, other: &IpProtocol) -> Option<Ordering> {
        Some(self.order(*other))
    }
}

/// The transport protocol of a packet, as far as the layers above care.
///
/// The variants stand in the order of their codes: 0, 1, 2.
#[derive(Clone, Copy, Debug, PartialEq, Eq, Structural, Hash)]
pub enum L4Protocol {
    /// Neither of the others; the default.
    Unknown,
    Tcp,
    Udp,
}

impl L4Protocol {
    /// The code of a transport protocol.
    pub open spec fn code(self) -> u8 {
        match self {
            L4Protocol::Unknown => 0,
            L4Protocol::Tcp => 1,
            L4Protocol::Udp => 2,
        }
    }

    /// The transport protocol of an IP protocol: `Tcp` for TCP, `Udp` for
    /// UDP, and `Unknown` for every other.
    pub open spec fn of(p: IpProtocol) -> L4Protocol {
        if p == IpProtocol::Tcp {
            L4Protocol::Tcp
        } else if p == IpProtocol::Udp {
            L4Protocol::Udp
        } else {
            L4Protocol::Unknown
        }
    }

    /// The code of `self`.
    pub fn to_numeric(self) -> (code: u8)
        ensures
            code == self.code(),
    {
        match self {
            L4Protocol::Unknown => 0,
            L4Protocol::Tcp => 1,
            L4Protocol::Udp => 2,
        }
    }
}

impl From<IpProtocol> for L4Protocol {
    fn from(p: IpProtocol) -> (l4: L4Protocol)
        ensures
            l4 == L4Protocol::of(p),
    {
        match p {
            IpProtocol::Tcp => L4Protocol::Tcp,
            IpProtocol::Udp => L4Protocol::Udp,
            _ => L4Protocol::Unknown,
        }
    }
}

impl vstd::std_specs::convert::FromSpecImpl<IpProtocol> for L4Protocol {
    open spec fn obeys_from_spec() -> bool {
        true
    }

    open spec fn from_spec(p: IpProtocol) -> L4Protocol {
        L4Protocol::of(p)
    }
}

impl Default for L4Protocol {
    fn default() -> (l4: L4Protocol)
        ensures
            l4 == L4Protocol::Unknown,
    {
        L4Protocol::Unknown
    }
}

impl IpProtocol {
    /// Whether an application protocol can run over an IP protocol: name
    /// service over every one, and over TCP also HTTP/1, HTTP/2, MySQL, Redis,
    /// Dubbo, Kafka and MQTT.
    pub open spec fn carries(self, l: L7Protocol) -> bool {
        ||| l == L7Protocol::Dns
        ||| self == IpProtocol::Tcp && (l == L7Protocol::Http1 || l == L7Protocol::Http2 || l
            == L7Protocol::Mysql || l == L7Protocol::Redis || l == L7Protocol::Dubbo || l
            == L7Protocol::Kafka || l == L7Protocol::Mqtt)
    }

    /// The bit that stands for an application protocol in a bitmap: the one
    /// at the position of its code.
    pub open spec fn l7_bit(l: L7Protocol) -> u128 {
        1u128 << l.code()
    }

    /// The bitmap of the application protocols that can run over an IP
    /// protocol, each at the position of its code.
    pub open spec fn l7_bitmap(self) -> u128 {
        if self == IpProtocol::Tcp {
            Self::l7_bit(L7Protocol::Http1) | Self::l7_bit(L7Protocol::Http2) | Self::l7_bit(
                L7Protocol::Dns,
            ) | Self::l7_bit(L7Protocol::Mysql) | Self::l7_bit(L7Protocol::Redis) | Self::l7_bit(
                L7Protocol::Dubbo,
            ) | Self::l7_bit(L7Protocol::Kafka) | Self::l7_bit(L7Protocol::Mqtt)
        } else {
            Self::l7_bit(L7Protocol::Dns)
        }
    }

    /// In the bitmap of an IP protocol the bit at a position below 128 is set
    /// exactly when an application protocol that it carries has that position
    /// for its code.
    pub proof fn lemma_l7_bitmap_bits(self, position: u8)
        requires
            position < 128,
        ensures
            self.l7_bitmap() & (1u128 << position) != 0 <==> exists|l: L7Protocol|
                self.carries(l) && l.code() == position,
    {
        let tcp = (1u128 << 20u8) | (1u128 << 21u8) | (1u128 << 120u8) | (1u128 << 60u8) | (1u128
            << 80u8) | (1u128 << 40u8) | (1u128 << 100u8) | (1u128 << 101u8);
        assert(position < 128 ==> (tcp & (1u128 << position) != 0 <==> (position == 20 || position
            == 21 || position == 120 || position == 60 || position == 80 || position == 40
            || position == 100 || position == 101))) by (bit_vector)
            requires
                tcp == (1u128 << 20u8) | (1u128 << 21u8) | (1u128 << 120u8) | (1u128 << 60u8) | (
                1u128 << 80u8) | (1u128 << 40u8) | (1u128 << 100u8) | (1u128 << 101u8),
        ;
        assert(position < 128 ==> ((1u128 << 120u8) & (1u128 << position) != 0 <==> position
            == 120)) by (bit_vector);
        if self == IpProtocol::Tcp {
            assert(self.l7_bitmap() == tcp);
        } else {
            assert(self.l7_bitmap() == 1u128 << 120u8);
        }
        if self.l7_bitmap() & (1u128 << position) != 0 {
            let l = L7Protocol::from_code(position);
            assert(self.carries(l) && l.code() == position);
        }
    }

    /// The bit of `l` in a bitmap of application protocols.
    fn bit_of(l: L7Protocol) -> (bit: u128)
        requires
            l.code() < 128,
        ensures
            bit == Self::l7_bit(l),
    {
        1u128 << l.to_numeric()
    }
}

impl From<IpProtocol> for u128 {
    fn from(p: IpProtocol) -> (bitmap: u128)
        ensures
            bitmap == p.l7_bitmap(),
    {
        if p == IpProtocol::Tcp {
            IpProtocol::bit_of(L7Protocol::Http1) | IpProtocol::bit_of(L7Protocol::Http2)
                | IpProtocol::bit_of(L7Protocol::Dns) | IpProtocol::bit_of(L7Protocol::Mysql)
                | IpProtocol::bit_of(L7Protocol::Redis) | IpProtocol::bit_of(L7Protocol::Dubbo)
                | IpProtocol::bit_of(L7Protocol::Kafka) | IpProtocol::bit_of(L7Protocol::Mqtt)
        } else {
            IpProtocol::bit_of(L7Protocol::Dns)
        }
    }
}

impl vstd::std_specs::convert::FromSpecImpl<IpProtocol> for u128 {
    open spec fn obeys_from_spec() -> bool {
        true
    }

    open spec fn from_spec(p: IpProtocol) -> u128 {
        p.l7_bitmap()
    }
}

} // verus!
