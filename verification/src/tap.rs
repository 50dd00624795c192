//! Capture taps: where a captured packet entered the monitored system.

use crate::text::{append_decimal, decimal};
use core::cmp::Ordering;
use vstd::prelude::*;
use vstd::string::StringExecFns;

verus! {

/// The place of a capture.
///
/// Taps are ordered by their codes. `Isp(0)` and `Isp(3)` have the codes of
/// `Any` and `Tor` and are never the result of a conversion.
#[derive(Clone, Copy, Debug, PartialEq, Eq, Structural, Hash)]
pub enum TapType {
    /// Any place; the default.
    Any,
    /// A link to an outside network, by its number.
    Isp(u8),
    /// Inside the data center fabric.
    Tor,
    /// The bound above every tap; no tap, and never the result of a
    /// conversion.
    Max,
}

impl TapType {
    /// The code of a tap.
    pub open spec fn code(self) -> u16 {
        match self {
            TapType::Any => 0,
            TapType::Isp(n) => n as u16,
            TapType::Tor => 3,
            TapType::Max => 256,
        }
    }

    /// Whether a tap is the one that stands for its code: every tap but
    /// `Max`, `Isp(0)` and `Isp(3)`.
    pub open spec fn is_canonical(self) -> bool {
        match self {
            TapType::Any => true,
            TapType::Isp(n) => n != TapType::Any.code() && n != TapType::Tor.code(),
            TapType::Tor => true,
            TapType::Max => false,
        }
    }

    /// The tap that a code names: `Any` and `Tor` for their codes, the link
    /// of that number for any other code below 256, and an error for the
    /// rest.
    pub open spec fn from_code(code: u16) -> Result<TapType, &'static str> {
        if code == TapType::Any.code() {
            Ok(TapType::Any)
        } else if code == TapType::Tor.code() {
            Ok(TapType::Tor)
        } else if code < 256 {
            Ok(TapType::Isp(code as u8))
        } else {
            Err("TapType not in [0, 256)")
        }
    }

    /// What a tap is written as: `any`, `tor`, `max`, or `isp` and the
    /// number of the link in decimal.
    pub open spec fn text(self) -> Seq<char> {
        match self {
            TapType::Any => "any"@,
            TapType::Isp(n) => "isp"@ + decimal(n as nat),
            TapType::Tor => "tor"@,
            TapType::Max => "max"@,
        }
    }

    /// Two canonical taps with the same code are the same.
    pub proof fn lemma_code_is_injective(a: TapType, b: TapType)
        requires
            a.is_canonical(),
            b.is_canonical(),
            a.code() == b.code(),
        ensures
            a == b,
    {
    }

    /// Converting a canonical tap to its code and back gives it again.
    pub proof fn lemma_round_trip(t: TapType)
        requires
            t.is_canonical(),
        ensures
            Self::from_code(t.code()) == Ok::<TapType, &'static str>(t),
    {
    }

    /// A code is converted exactly when it is below 256, and then to the
    /// canonical tap that has it.
    pub proof fn lemma_from_code_is_exact(code: u16)
        ensures
            code < 256 <==> Self::from_code(code) is Ok,
            Self::from_code(code) matches Ok(t) ==> t.code() == code && t.is_canonical(),
    {
    }

    /// How `self` stands to `other`: as the code of the one stands to the code
    /// of the other.
    pub open spec fn order(self, other: TapType) -> Ordering {
        if self.code() < other.code() {
            Ordering::Less
        } else if self.code() == other.code() {
            Ordering::Equal
        } else {
            Ordering::Greater
        }
    }

    /// The code of `self`.
    pub fn to_numeric(self) -> (code: u16)
        ensures
            code == self.code(),
    {
        match self {
            TapType::Any => 0,
            TapType::Isp(n) => n as u16,
            TapType::Tor => 3,
            TapType::Max => 256,
        }
    }

    /// The tap that `code` names; an error where `code` is 256 or more.
    pub fn from_numeric(code: u16) -> (r: Result<TapType, &'static str>)
        ensures
            r == Self::from_code(code),
    {
        if code == 0 {
            Ok(TapType::Any)
        } else if code == 3 {
            Ok(TapType::Tor)
        } else if code < 256 {
            Ok(TapType::Isp(code as u8))
        } else {
            Err("TapType not in [0, 256)")
        }
    }

    /// What `self` is written as.
    pub fn to_string(&self) -> (text: String)
        ensures
            text@ == self.text(),
    {
        match self {
            TapType::Any => String::from_str("any"),
            TapType::Isp(n) => {
                let mut text = String::from_str("isp");
                append_decimal(&mut text, *n);
                text
            },
            TapType::Tor => String::from_str("tor"),
            TapType::Max => String::from_str("max"),
        }
    }
}

impl Default for TapType {
    fn default() -> (t: TapType)
        ensures
            t == TapType::Any,
    {
        TapType::Any
    }
}

impl From<TapType> for u16 {
    fn from(t: TapType) -> (code: u16)
        ensures
            code == t.code(),
    {
        t.to_numeric()
    }
}

impl vstd::std_specs::convert::FromSpecImpl<TapType> for u16 {
    open spec fn obeys_from_spec() -> bool {
        true
    }

    open spec fn from_spec(t: TapType) -> u16 {
        t.code()
    }
}

impl TryFrom<u16> for TapType {
    type Error = &'static str;

    fn try_from(code: u16) -> (r: Result<TapType, &'static str>)
        ensures
            r == TapType::from_code(code),
    {
        TapType::from_numeric(code)
    }
}

impl vstd::std_specs::convert::TryFromSpecImpl<u16> for TapType {
    open spec fn obeys_try_from_spec() -> bool {
        true
    }

    open spec fn try_from_spec(code: u16) -> Result<TapType, &'static str> {
        TapType::from_code(code)
    }
}

impl PartialOrd for TapType {
    fn partial_cmp(&self, other: &TapType) -> (r: Option<Ordering>)
        ensures
            r == Some(self.order(*other)),
    {
        let a = self.to_numeric();
        let b = other.to_numeric();
        if a < b {
            Some(Ordering::Less)
        } else if a == b {
            Some(Ordering::Equal)
        } else {
            Some(Ordering::Greater)
        }
    }
}

impl vstd::std_specs::cmp::PartialOrdSpecImpl for TapType {
    open spec fn obeys_partial_cmp_spec() -> bool {
        true
    }

    open spec fn partial_cmp_spec(&self, other: &TapType) -> Option<Ordering> {
        Some(self.order(*other))
    }
}

} // verus!
