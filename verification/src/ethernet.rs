//! Ethernet types: the 16-bit field of an Ethernet frame that names the
//! protocol it carries.

use core::cmp::Ordering;
use vstd::prelude::*;
use vstd::std_specs::cmp::PartialEqSpec;

verus! {

/// An Ethernet type.
///
/// The variants stand in increasing order of their codes, so the derived total
/// order is the order of the codes, as that of `partial_cmp` is.
#[derive(Clone, Copy, Debug, PartialEq, Eq, Structural, Ord, Hash)]
pub enum EthernetType {
    /// No Ethernet type: the frame follows 802.3 and carries a length and an
    /// LLC header where the type would be.
    Llc,
    NortelDiscovery,
    Ipv4,
    Arp,
    CiscoDiscovery,
    TransparentEthernetBridging,
    Dot1Q,
    Ipv6,
    Ppp,
    MplsUnicast,
    MplsMulticast,
    PppoeDiscovery,
    PppoeSession,
    Eapol,
    QinQ,
    LinkLayerDiscovery,
    EthernetCtp,
    /// Any code that names none of the others; the default.
    Unknown,
}

impl EthernetType {
    /// The wire code of an Ethernet type.
    pub open spec fn code(self) -> u16 {
        match self {
            EthernetType::Llc => 0x0000,
            EthernetType::NortelDiscovery => 0x01a2,
            EthernetType::Ipv4 => 0x0800,
            EthernetType::Arp => 0x0806,
            EthernetType::CiscoDiscovery => 0x2000,
            EthernetType::TransparentEthernetBridging => 0x6558,
            EthernetType::Dot1Q => 0x8100,
            EthernetType::Ipv6 => 0x86dd,
            EthernetType::Ppp => 0x880b,
            EthernetType::MplsUnicast => 0x8847,
            EthernetType::MplsMulticast => 0x8848,
            EthernetType::PppoeDiscovery => 0x8863,
            EthernetType::PppoeSession => 0x8864,
            EthernetType::Eapol => 0x888e,
            EthernetType::QinQ => 0x88a8,
            EthernetType::LinkLayerDiscovery => 0x88cc,
            EthernetType::EthernetCtp => 0x9000,
            EthernetType::Unknown => 0xffff,
        }
    }

    /// Whether some Ethernet type has the wire code `code`.
    pub open spec fn is_assigned(code: u16) -> bool {
        exists|t: EthernetType| t.code() == code
    }

    /// The Ethernet type that a wire code names: the one with that code, and
    /// `Unknown` where there is none.
    pub open spec fn from_code(code: u16) -> EthernetType {
        if code == EthernetType::Llc.code() {
            EthernetType::Llc
        } else if code == EthernetType::NortelDiscovery.code() {
            EthernetType::NortelDiscovery
        } else if code == EthernetType::Ipv4.code() {
            EthernetType::Ipv4
        } else if code == EthernetType::Arp.code() {
            EthernetType::Arp
        } else if code == EthernetType::CiscoDiscovery.code() {
            EthernetType::CiscoDiscovery
        } else if code == EthernetType::TransparentEthernetBridging.code() {
            EthernetType::TransparentEthernetBridging
        } else if code == EthernetType::Dot1Q.code() {
            EthernetType::Dot1Q
        } else if code == EthernetType::Ipv6.code() {
            EthernetType::Ipv6
        } else if code == EthernetType::Ppp.code() {
            EthernetType::Ppp
        } else if code == EthernetType::MplsUnicast.code() {
            EthernetType::MplsUnicast
        } else if code == EthernetType::MplsMulticast.code() {
            EthernetType::MplsMulticast
        } else if code == EthernetType::PppoeDiscovery.code() {
            EthernetType::PppoeDiscovery
        } else if code == EthernetType::PppoeSession.code() {
            EthernetType::PppoeSession
        } else if code == EthernetType::Eapol.code() {
            EthernetType::Eapol
        } else if code == EthernetType::QinQ.code() {
            EthernetType::QinQ
        } else if code == EthernetType::LinkLayerDiscovery.code() {
            EthernetType::LinkLayerDiscovery
        } else if code == EthernetType::EthernetCtp.code() {
            EthernetType::EthernetCtp
        } else {
            EthernetType::Unknown
        }
    }

    /// Two Ethernet types with the same code are the same.
    pub proof fn lemma_code_is_injective(a: EthernetType, b: EthernetType)
        requires
            a.code() == b.code(),
        ensures
            a == b,
    {
    }

    /// Converting an Ethernet type to its code and back gives it again.
    pub proof fn lemma_round_trip(t: EthernetType)
        ensures
            Self::from_code(t.code()) == t,
    {
    }

    /// A code that some Ethernet type has is converted to one that has it; any
    /// other code is taken for `Unknown`.
    pub proof fn lemma_from_code_is_exact(code: u16)
        ensures
            Self::is_assigned(code) ==> Self::from_code(code).code() == code,
            !Self::is_assigned(code) ==> Self::from_code(code) == EthernetType::Unknown,
    {
    }

    /// An Ethernet type equals a number, on either side of `==`, exactly when the
    /// number is its code; so it always equals its own code.
    pub proof fn lemma_equals_own_code(t: EthernetType, code: u16)
        ensures
            t.eq_spec(&code) <==> t.code() == code,
            code.eq_spec(&t) <==> t.code() == code,
            t.eq_spec(&t.code()),
            t.code().eq_spec(&t),
    {
    }

    /// How `self` stands to `other`: as the code of the one stands to the code
    /// of the other.
    pub open spec fn order(self, other: EthernetType) -> Ordering {
        if self.code() < other.code() {
            Ordering::Less
        } else if self.code() == other.code() {
            Ordering::Equal
        } else {
            Ordering::Greater
        }
    }

    /// The wire code of `self`.
    pub fn to_numeric(self) -> (code: u16)
        ensures
            code == self.code(),
    {
        match self {
            EthernetType::Llc => 0x0000,
            EthernetType::NortelDiscovery => 0x01a2,
            EthernetType::Ipv4 => 0x0800,
            EthernetType::Arp => 0x0806,
            EthernetType::CiscoDiscovery => 0x2000,
            EthernetType::TransparentEthernetBridging => 0x6558,
            EthernetType::Dot1Q => 0x8100,
            EthernetType::Ipv6 => 0x86dd,
            EthernetType::Ppp => 0x880b,
            EthernetType::MplsUnicast => 0x8847,
            EthernetType::MplsMulticast => 0x8848,
            EthernetType::PppoeDiscovery => 0x8863,
            EthernetType::PppoeSession => 0x8864,
            EthernetType::Eapol => 0x888e,
            EthernetType::QinQ => 0x88a8,
            EthernetType::LinkLayerDiscovery => 0x88cc,
            EthernetType::EthernetCtp => 0x9000,
            EthernetType::Unknown => 0xffff,
        }
    }

    /// The Ethernet type that the wire code `code` names, `Unknown` for a code
    /// that names none.
    pub fn from_numeric(code: u16) -> (t: EthernetType)
        ensures
            t == Self::from_code(code),
    {
        match code {
            0x0000 => EthernetType::Llc,
            0x01a2 => EthernetType::NortelDiscovery,
            0x0800 => EthernetType::Ipv4,
            0x0806 => EthernetType::Arp,
            0x2000 => EthernetType::CiscoDiscovery,
            0x6558 => EthernetType::TransparentEthernetBridging,
            0x8100 => EthernetType::Dot1Q,
            0x86dd => EthernetType::Ipv6,
            0x880b => EthernetType::Ppp,
            0x8847 => EthernetType::MplsUnicast,
            0x8848 => EthernetType::MplsMulticast,
            0x8863 => EthernetType::PppoeDiscovery,
            0x8864 => EthernetType::PppoeSession,
            0x888e => EthernetType::Eapol,
            0x88a8 => EthernetType::QinQ,
            0x88cc => EthernetType::LinkLayerDiscovery,
            0x9000 => EthernetType::EthernetCtp,
            _ => EthernetType::Unknown,
        }
    }
}

impl Default for EthernetType {
    fn default() -> (t: EthernetType)
        ensures
            t == EthernetType::Unknown,
    {
        EthernetType::Unknown
    }
}

impl From<EthernetType> for u16 {
    fn from(t: EthernetType) -> (code: u16)
        ensures
            code == t.code(),
    {
        t.to_numeric()
    }
}

impl vstd::std_specs::convert::FromSpecImpl<EthernetType> for u16 {
    open spec fn obeys_from_spec() -> bool {
        true
    }

    open spec fn from_spec(t: EthernetType) -> u16 {
        t.code()
    }
}

impl From<u16> for EthernetType {
    fn from(code: u16) -> (t: EthernetType)
        ensures
            t == EthernetType::from_code(code),
    {
        EthernetType::from_numeric(code)
    }
}

impl vstd::std_specs::convert::FromSpecImpl<u16> for EthernetType {
    open spec fn obeys_from_spec() -> bool {
        true
    }

    open spec fn from_spec(code: u16) -> EthernetType {
        EthernetType::from_code(code)
    }
}

impl PartialEq<u16> for EthernetType {
    fn eq(&self, other: &u16) -> (r: bool)
        ensures
            r == (self.code() == *other),
    {
        self.to_numeric() == *other
    }
}

impl vstd::std_specs::cmp::PartialEqSpecImpl<u16> for EthernetType {
    open spec fn obeys_eq_spec() -> bool {
        true
    }

    open spec fn eq_spec(&self, other: &u16) -> bool {
        self.code() == *other
    }
}

impl PartialEq<EthernetType> for u16 {
    fn eq(&self, other: &EthernetType) -> (r: bool)
        ensures
            r == (other.code() == *self),
    {
        other.to_numeric() == *self
    }
}

impl vstd::std_specs::cmp::PartialEqSpecImpl<EthernetType> for u16 {
    open spec fn obeys_eq_spec() -> bool {
        true
    }

    open spec fn eq_spec(&self, other: &EthernetType) -> bool {
        other.code() == *self
    }
}

impl PartialOrd for EthernetType {
    fn partial_cmp(&self, other: &EthernetType) -> (r: Option<Ordering>)
        ensures
            r == Some(self.order(*other)),
    {
        let a = self.to_numeric();
        let b = other.to_numeric();
        if a < b {
            Some(Ordering::Less)
        } else if a == b {
            Some(Ordering::Equal)
        } else {
            Some(Ordering::Greater)
        }
    }
}

impl vstd::std_specs::cmp::PartialOrdSpecImpl for EthernetType {
    open spec fn obeys_partial_cmp_spec() -> bool {
        true
    }

    open spec fn partial_cmp_spec(&self, other: &EthernetType) -> Option<Ordering> {
        Some(self.order(*other))
    }
}

} // verus!
