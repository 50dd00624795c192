//! Link-layer types of a capture, interface types of an adapter, and the
//! packet types of a Linux cooked capture.

use crate::error::ConversionError;
use vstd::prelude::*;
use vstd::std_specs::cmp::PartialEqSpec;

verus! {

/// The framing of a capture, by its number in the pcap link-layer type
/// registry. A number that the registry leaves out names no link type.
#[derive(Clone, Copy, Debug, PartialEq, Eq, Structural, Hash)]
pub enum LinkType {
    Null,
    Ethernet,
    Ax25,
    TokenRing,
    ArcNet,
    Slip,
    Ppp,
    Fddi,
    PppHdlc,
    PppEthernet,
    AtmRfc1483,
    Raw,
    Chdlc,
    Ieee802_11,
    Relay,
    Loop,
    LinuxSLL,
    Talk,
    PfLog,
    PrismHeader,
    IpOverFc,
    SunAtm,
    Ieee80211Radio,
    ArcNetLinux,
    IpOver1394,
    Mtp2Phdr,
    Mtp2,
    Mtp3,
    Sccp,
    Docsis,
    LinuxIrda,
    LinuxLapd,
    LinuxUsb,
    Ipv4,
    Ipv6,
}

impl LinkType {
    /// The numeric code of a link type.
    pub open spec fn code(self) -> u8 {
        match self {
            LinkType::Null => 0,
            LinkType::Ethernet => 1,
            LinkType::Ax25 => 3,
            LinkType::TokenRing => 6,
            LinkType::ArcNet => 7,
            LinkType::Slip => 8,
            LinkType::Ppp => 9,
            LinkType::Fddi => 10,
            LinkType::PppHdlc => 50,
            LinkType::PppEthernet => 51,
            LinkType::AtmRfc1483 => 100,
            LinkType::Raw => 101,
            LinkType::Chdlc => 104,
            LinkType::Ieee802_11 => 105,
            LinkType::Relay => 107,
            LinkType::Loop => 108,
            LinkType::LinuxSLL => 113,
            LinkType::Talk => 114,
            LinkType::PfLog => 117,
            LinkType::PrismHeader => 119,
            LinkType::IpOverFc => 122,
            LinkType::SunAtm => 123,
            LinkType::Ieee80211Radio => 127,
            LinkType::ArcNetLinux => 129,
            LinkType::IpOver1394 => 138,
            LinkType::Mtp2Phdr => 139,
            LinkType::Mtp2 => 140,
            LinkType::Mtp3 => 141,
            LinkType::Sccp => 142,
            LinkType::Docsis => 143,
            LinkType::LinuxIrda => 144,
            LinkType::LinuxLapd => 177,
            LinkType::LinuxUsb => 220,
            LinkType::Ipv4 => 228,
            LinkType::Ipv6 => 229,
        }
    }

    /// Whether some link type has the code `code`.
    pub open spec fn is_assigned(code: u8) -> bool {
        exists|t: LinkType| t.code() == code
    }

    /// The link type that a code names, or the error that reports the code
    /// where it names none.
    pub open spec fn from_code(code: u8) -> Result<LinkType, ConversionError> {
        if code == LinkType::Null.code() {
            Ok(LinkType::Null)
        } else if code == LinkType::Ethernet.code() {
            Ok(LinkType::Ethernet)
        } else if code == LinkType::Ax25.code() {
            Ok(LinkType::Ax25)
        } else if code == LinkType::TokenRing.code() {
            Ok(LinkType::TokenRing)
        } else if code == LinkType::ArcNet.code() {
            Ok(LinkType::ArcNet)
        } else if code == LinkType::Slip.code() {
            Ok(LinkType::Slip)
        } else if code == LinkType::Ppp.code() {
            Ok(LinkType::Ppp)
        } else if code == LinkType::Fddi.code() {
            Ok(LinkType::Fddi)
        } else if code == LinkType::PppHdlc.code() {
            Ok(LinkType::PppHdlc)
        } else if code == LinkType::PppEthernet.code() {
            Ok(LinkType::PppEthernet)
        } else if code == LinkType::AtmRfc1483.code() {
            Ok(LinkType::AtmRfc1483)
        } else if code == LinkType::Raw.code() {
            Ok(LinkType::Raw)
        } else if code == LinkType::Chdlc.code() {
            Ok(LinkType::Chdlc)
        } else if code == LinkType::Ieee802_11.code() {
            Ok(LinkType::Ieee802_11)
        } else if code == LinkType::Relay.code() {
            Ok(LinkType::Relay)
        } else if code == LinkType::Loop.code() {
            Ok(LinkType::Loop)
        } else if code == LinkType::LinuxSLL.code() {
            Ok(LinkType::LinuxSLL)
        } else if code == LinkType::Talk.code() {
            Ok(LinkType::Talk)
        } else if code == LinkType::PfLog.code() {
            Ok(LinkType::PfLog)
        } else if code == LinkType::PrismHeader.code() {
            Ok(LinkType::PrismHeader)
        } else if code == LinkType::IpOverFc.code() {
            Ok(LinkType::IpOverFc)
        } else if code == LinkType::SunAtm.code() {
            Ok(LinkType::SunAtm)
        } else if code == LinkType::Ieee80211Radio.code() {
            Ok(LinkType::Ieee80211Radio)
        } else if code == LinkType::ArcNetLinux.code() {
            Ok(LinkType::ArcNetLinux)
        } else if code == LinkType::IpOver1394.code() {
            Ok(LinkType::IpOver1394)
        } else if code == LinkType::Mtp2Phdr.code() {
            Ok(LinkType::Mtp2Phdr)
        } else if code == LinkType::Mtp2.code() {
            Ok(LinkType::Mtp2)
        } else if code == LinkType::Mtp3.code() {
            Ok(LinkType::Mtp3)
        } else if code == LinkType::Sccp.code() {
            Ok(LinkType::Sccp)
        } else if code == LinkType::Docsis.code() {
            Ok(LinkType::Docsis)
        } else if code == LinkType::LinuxIrda.code() {
            Ok(LinkType::LinuxIrda)
        } else if code == LinkType::LinuxLapd.code() {
            Ok(LinkType::LinuxLapd)
        } else if code == LinkType::LinuxUsb.code() {
            Ok(LinkType::LinuxUsb)
        } else if code == LinkType::Ipv4.code() {
            Ok(LinkType::Ipv4)
        } else if code == LinkType::Ipv6.code() {
            Ok(LinkType::Ipv6)
        } else {
            Err(ConversionError { code: code as u32 })
        }
    }

    /// Two link types with the same code are the same.
    pub proof fn lemma_code_is_injective(a: LinkType, b: LinkType)
        requires
            a.code() == b.code(),
        ensures
            a == b,
    {
    }

    /// Converting a link type to its code and back gives it again.
    pub proof fn lemma_round_trip(t: LinkType)
        ensures
            Self::from_code(t.code()) == Ok::<LinkType, ConversionError>(t),
    {
    }

    /// A code is converted exactly when some link type has it, and then to
    /// one that has it; any other code is refused, and the error reports it.
    pub proof fn lemma_from_code_is_exact(code: u8)
        ensures
            Self::is_assigned(code) <==> Self::from_code(code) is Ok,
            Self::from_code(code) matches Ok(t) ==> t.code() == code,
            Self::from_code(code) matches Err(e) ==> e.code == code,
    {
    }

    /// A link type equals a number, on either side of `==`, exactly when the
    /// number is its code; so it always equals its own code.
    pub proof fn lemma_equals_own_code(t: LinkType, code: u8)
        ensures
            t.eq_spec(&code) <==> t.code() == code,
            code.eq_spec(&t) <==> t.code() == code,
            t.eq_spec(&t.code()),
            t.code().eq_spec(&t),
    {
    }

    /// The numeric code of `self`.
    pub fn to_numeric(self) -> (code: u8)
        ensures
            code == self.code(),
    {
        match self {
            LinkType::Null => 0,
            LinkType::Ethernet => 1,
            LinkType::Ax25 => 3,
            LinkType::TokenRing => 6,
            LinkType::ArcNet => 7,
            LinkType::Slip => 8,
            LinkType::Ppp => 9,
            LinkType::Fddi => 10,
            LinkType::PppHdlc => 50,
            LinkType::PppEthernet => 51,
            LinkType::AtmRfc1483 => 100,
            LinkType::Raw => 101,
            LinkType::Chdlc => 104,
            LinkType::Ieee802_11 => 105,
            LinkType::Relay => 107,
            LinkType::Loop => 108,
            LinkType::LinuxSLL => 113,
            LinkType::Talk => 114,
            LinkType::PfLog => 117,
            LinkType::PrismHeader => 119,
            LinkType::IpOverFc => 122,
            LinkType::SunAtm => 123,
            LinkType::Ieee80211Radio => 127,
            LinkType::ArcNetLinux => 129,
            LinkType::IpOver1394 => 138,
            LinkType::Mtp2Phdr => 139,
            LinkType::Mtp2 => 140,
            LinkType::Mtp3 => 141,
            LinkType::Sccp => 142,
            LinkType::Docsis => 143,
            LinkType::LinuxIrda => 144,
            LinkType::LinuxLapd => 177,
            LinkType::LinuxUsb => 220,
            LinkType::Ipv4 => 228,
            LinkType::Ipv6 => 229,
        }
    }

    /// The link type that `code` names; an error that reports `code` where
    /// it names none.
    pub fn from_numeric(code: u8) -> (r: Result<LinkType, ConversionError>)
        ensures
            r == Self::from_code(code),
    {
        match code {
            0 => Ok(LinkType::Null),
            1 => Ok(LinkType::Ethernet),
            3 => Ok(LinkType::Ax25),
            6 => Ok(LinkType::TokenRing),
            7 => Ok(LinkType::ArcNet),
            8 => Ok(LinkType::Slip),
            9 => Ok(LinkType::Ppp),
            10 => Ok(LinkType::Fddi),
            50 => Ok(LinkType::PppHdlc),
            51 => Ok(LinkType::PppEthernet),
            100 => Ok(LinkType::AtmRfc1483),
            101 => Ok(LinkType::Raw),
            104 => Ok(LinkType::Chdlc),
            105 => Ok(LinkType::Ieee802_11),
            107 => Ok(LinkType::Relay),
            108 => Ok(LinkType::Loop),
            113 => Ok(LinkType::LinuxSLL),
            114 => Ok(LinkType::Talk),
            117 => Ok(LinkType::PfLog),
            119 => Ok(LinkType::PrismHeader),
            122 => Ok(LinkType::IpOverFc),
            123 => Ok(LinkType::SunAtm),
            127 => Ok(LinkType::Ieee80211Radio),
            129 => Ok(LinkType::ArcNetLinux),
            138 => Ok(LinkType::IpOver1394),
            139 => Ok(LinkType::Mtp2Phdr),
            140 => Ok(LinkType::Mtp2),
            141 => Ok(LinkType::Mtp3),
            142 => Ok(LinkType::Sccp),
            143 => Ok(LinkType::Docsis),
            144 => Ok(LinkType::LinuxIrda),
            177 => Ok(LinkType::LinuxLapd),
            220 => Ok(LinkType::LinuxUsb),
            228 => Ok(LinkType::Ipv4),
            229 => Ok(LinkType::Ipv6),
            _ => Err(ConversionError { code: code as u32 }),
        }
    }
}

impl From<LinkType> for u8 {
    fn from(t: LinkType) -> (code: u8)
        ensures
            code == t.code(),
    {
        t.to_numeric()
    }
}

impl vstd::std_specs::convert::FromSpecImpl<LinkType> for u8 {
    open spec fn obeys_from_spec() -> bool {
        true
    }

    open spec fn from_spec(t: LinkType) -> u8 {
        t.code()
    }
}

impl TryFrom<u8> for LinkType {
    type Error = ConversionError;

    fn try_from(code: u8) -> (r: Result<LinkType, ConversionError>)
        ensures
            r == LinkType::from_code(code),
    {
        LinkType::from_numeric(code)
    }
}

impl vstd::std_specs::convert::TryFromSpecImpl<u8> for LinkType {
    open spec fn obeys_try_from_spec() -> bool {
        true
    }

    open spec fn try_from_spec(code: u8) -> Result<LinkType, ConversionError> {
        LinkType::from_code(code)
    }
}

impl PartialEq<u8> for LinkType {
    fn eq(&self, other: &u8) -> (r: bool)
        ensures
            r == (self.code() == *other),
    {
        self.to_numeric() == *other
    }
}

impl vstd::std_specs::cmp::PartialEqSpecImpl<u8> for LinkType {
    open spec fn obeys_eq_spec() -> bool {
        true
    }

    open spec fn eq_spec(&self, other: &u8) -> bool {
        self.code() == *other
    }
}

impl PartialEq<LinkType> for u8 {
    fn eq(&self, other: &LinkType) -> (r: bool)
        ensures
            r == (other.code() == *self),
    {
        other.to_numeric() == *self
    }
}

impl vstd::std_specs::cmp::PartialEqSpecImpl<LinkType> for u8 {
    open spec fn obeys_eq_spec() -> bool {
        true
    }

    open spec fn eq_spec(&self, other: &LinkType) -> bool {
        other.code() == *self
    }
}

/// The kind of a network adapter as Windows reports it, for the kinds in
/// common use.
#[derive(Clone, Copy, Debug, PartialEq, Eq, Structural, Hash)]
pub enum IfType {
    Other,
    Ethernet,
    TokenRing,
    Ppp,
    Loopback,
    Atm,
    Ieee80211,
    Tunnel,
    Ieee1394,
}

impl IfType {
    /// The numeric code of an interface type.
    pub open spec fn code(self) -> u32 {
        match self {
            IfType::Other => 1,
            IfType::Ethernet => 6,
            IfType::TokenRing => 9,
            IfType::Ppp => 23,
            IfType::Loopback => 24,
            IfType::Atm => 37,
            IfType::Ieee80211 => 71,
            IfType::Tunnel => 131,
            IfType::Ieee1394 => 144,
        }
    }

    /// Whether some interface type has the code `code`.
    pub open spec fn is_assigned(code: u32) -> bool {
        exists|t: IfType| t.code() == code
    }

    /// The interface type that a code names, or the error that reports the code
    /// where it names none.
    pub open spec fn from_code(code: u32) -> Result<IfType, ConversionError> {
        if code == IfType::Other.code() {
            Ok(IfType::Other)
        } else if code == IfType::Ethernet.code() {
            Ok(IfType::Ethernet)
        } else if code == IfType::TokenRing.code() {
            Ok(IfType::TokenRing)
        } else if code == IfType::Ppp.code() {
            Ok(IfType::Ppp)
        } else if code == IfType::Loopback.code() {
            Ok(IfType::Loopback)
        } else if code == IfType::Atm.code() {
            Ok(IfType::Atm)
        } else if code == IfType::Ieee80211.code() {
            Ok(IfType::Ieee80211)
        } else if code == IfType::Tunnel.code() {
            Ok(IfType::Tunnel)
        } else if code == IfType::Ieee1394.code() {
            Ok(IfType::Ieee1394)
        } else {
            Err(ConversionError { code })
        }
    }

    /// Two interface types with the same code are the same.
    pub proof fn lemma_code_is_injective(a: IfType, b: IfType)
        requires
            a.code() == b.code(),
        ensures
            a == b,
    {
    }

    /// Converting an interface type to its code and back gives it again.
    pub proof fn lemma_round_trip(t: IfType)
        ensures
            Self::from_code(t.code()) == Ok::<IfType, ConversionError>(t),
    {
    }

    /// A code is converted exactly when some interface type has it, and then to
    /// one that has it; any other code is refused, and the error reports it.
    pub proof fn lemma_from_code_is_exact(code: u32)
        ensures
            Self::is_assigned(code) <==> Self::from_code(code) is Ok,
            Self::from_code(code) matches Ok(t) ==> t.code() == code,
            Self::from_code(code) matches Err(e) ==> e.code == code,
    {
    }

    /// An interface type equals a number, on either side of `==`, exactly when the
    /// number is its code; so it always equals its own code.
    pub proof fn lemma_equals_own_code(t: IfType, code: u32)
        ensures
            t.eq_spec(&code) <==> t.code() == code,
            code.eq_spec(&t) <==> t.code() == code,
            t.eq_spec(&t.code()),
            t.code().eq_spec(&t),
    {
    }

    /// The numeric code of `self`.
    pub fn to_numeric(self) -> (code: u32)
        ensures
            code == self.code(),
    {
        match self {
            IfType::Other => 1,
            IfType::Ethernet => 6,
            IfType::TokenRing => 9,
            IfType::Ppp => 23,
            IfType::Loopback => 24,
            IfType::Atm => 37,
            IfType::Ieee80211 => 71,
            IfType::Tunnel => 131,
            IfType::Ieee1394 => 144,
        }
    }

    /// The interface type that `code` names; an error that reports `code` where
    /// it names none.
    pub fn from_numeric(code: u32) -> (r: Result<IfType, ConversionError>)
        ensures
            r == Self::from_code(code),
    {
        match code {
            1 => Ok(IfType::Other),
            6 => Ok(IfType::Ethernet),
            9 => Ok(IfType::TokenRing),
            23 => Ok(IfType::Ppp),
            24 => Ok(IfType::Loopback),
            37 => Ok(IfType::Atm),
            71 => Ok(IfType::Ieee80211),
            131 => Ok(IfType::Tunnel),
            144 => Ok(IfType::Ieee1394),
            _ => Err(ConversionError { code }),
        }
    }
}

impl From<IfType> for u32 {
    fn from(t: IfType) -> (code: u32)
        ensures
            code == t.code(),
    {
        t.to_numeric()
    }
}

impl vstd::std_specs::convert::FromSpecImpl<IfType> for u32 {
    open spec fn obeys_from_spec() -> bool {
        true
    }

    open spec fn from_spec(t: IfType) -> u32 {
        t.code()
    }
}

impl TryFrom<u32> for IfType {
    type Error = ConversionError;

    fn try_from(code: u32) -> (r: Result<IfType, ConversionError>)
        ensures
            r == IfType::from_code(code),
    {
        IfType::from_numeric(code)
    }
}

impl vstd::std_specs::convert::TryFromSpecImpl<u32> for IfType {
    open spec fn obeys_try_from_spec() -> bool {
        true
    }

    open spec fn try_from_spec(code: u32) -> Result<IfType, ConversionError> {
        IfType::from_code(code)
    }
}

impl PartialEq<u32> for IfType {
    fn eq(&self, other: &u32) -> (r: bool)
        ensures
            r == (self.code() == *other),
    {
        self.to_numeric() == *other
    }
}

impl vstd::std_specs::cmp::PartialEqSpecImpl<u32> for IfType {
    open spec fn obeys_eq_spec() -> bool {
        true
    }

    open spec fn eq_spec(&self, other: &u32) -> bool {
        self.code() == *other
    }
}

impl PartialEq<IfType> for u32 {
    fn eq(&self, other: &IfType) -> (r: bool)
        ensures
            r == (other.code() == *self),
    {
        other.to_numeric() == *self
    }
}

impl vstd::std_specs::cmp::PartialEqSpecImpl<IfType> for u32 {
    open spec fn obeys_eq_spec() -> bool {
        true
    }

    open spec fn eq_spec(&self, other: &IfType) -> bool {
        other.code() == *self
    }
}

/// Whom a packet of a Linux cooked capture was meant for, as the kernel
/// reports it.
///
/// The variants stand in the order of their codes, from 0 to 6.
#[derive(Clone, Copy, Debug, PartialEq, Eq, Structural, Hash)]
pub enum LinuxSllPacketType {
    /// To this host.
    Host,
    /// To every host.
    Broadcast,
    /// To a group.
    Multicast,
    /// To some other host.
    OtherHost,
    /// Sent by this host.
    Outgoing,
    /// A multicast or broadcast frame that was looped back; not seen at user
    /// level.
    Loopback,
    /// A fast-routed frame; not seen at user level.
    FastRoute,
}

impl LinuxSllPacketType {
    /// The code of a packet type.
    pub open spec fn code(self) -> u8 {
        match self {
            LinuxSllPacketType::Host => 0,
            LinuxSllPacketType::Broadcast => 1,
            LinuxSllPacketType::Multicast => 2,
            LinuxSllPacketType::OtherHost => 3,
            LinuxSllPacketType::Outgoing => 4,
            LinuxSllPacketType::Loopback => 5,
            LinuxSllPacketType::FastRoute => 6,
        }
    }

    /// The code of `self`.
    pub fn to_numeric(self) -> (code: u8)
        ensures
            code == self.code(),
    {
        match self {
            LinuxSllPacketType::Host => 0,
            LinuxSllPacketType::Broadcast => 1,
            LinuxSllPacketType::Multicast => 2,
            LinuxSllPacketType::OtherHost => 3,
            LinuxSllPacketType::Outgoing => 4,
            LinuxSllPacketType::Loopback => 5,
            LinuxSllPacketType::FastRoute => 6,
        }
    }
}

} // verus!
