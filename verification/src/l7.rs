//! Application protocols, told apart by what a payload holds.

use vstd::prelude::*;
use vstd::std_specs::cmp::PartialEqSpec;

verus! {

/// An application protocol.
///
/// The codes come in bands that leave room within each: 20 and up for the HTTP
/// family, 40 and up for remote procedure calls, 60 and 80 and up for data
/// stores, 100 and up for messaging and name service.
#[derive(Clone, Copy, Debug, PartialEq, Eq, Structural, Hash)]
pub enum L7Protocol {
    /// Not recognised; the default.
    Unknown,
    /// Recognised as application traffic of no protocol listed here.
    Other,
    Http1,
    Http2,
    Http1TLS,
    Http2TLS,
    Dubbo,
    Mysql,
    Redis,
    Kafka,
    Mqtt,
    Dns,
    /// The bound above every code; no protocol, and never the result of a
    /// conversion.
    Max,
}

impl L7Protocol {
    /// The code of an application protocol.
    pub open spec fn code(self) -> u8 {
        match self {
            L7Protocol::Unknown => 0,
            L7Protocol::Other => 1,
            L7Protocol::Http1 => 20,
            L7Protocol::Http2 => 21,
            L7Protocol::Http1TLS => 22,
            L7Protocol::Http2TLS => 23,
            L7Protocol::Dubbo => 40,
            L7Protocol::Mysql => 60,
            L7Protocol::Redis => 80,
            L7Protocol::Kafka => 100,
            L7Protocol::Mqtt => 101,
            L7Protocol::Dns => 120,
            L7Protocol::Max => 255,
        }
    }

    /// Whether `code` is the code of an application protocol other than the
    /// bound `Max`.
    pub open spec fn is_assigned(code: u8) -> bool {
        exists|l: L7Protocol| l != L7Protocol::Max && l.code() == code
    }

    /// The application protocol that a code names: the one with that code,
    /// and `Unknown` where there is none or the code is that of `Max`.
    pub open spec fn from_code(code: u8) -> L7Protocol {
        if code == L7Protocol::Other.code() {
            L7Protocol::Other
        } else if code == L7Protocol::Http1.code() {
            L7Protocol::Http1
        } else if code == L7Protocol::Http2.code() {
            L7Protocol::Http2
        } else if code == L7Protocol::Http1TLS.code() {
            L7Protocol::Http1TLS
        } else if code == L7Protocol::Http2TLS.code() {
            L7Protocol::Http2TLS
        } else if code == L7Protocol::Dubbo.code() {
            L7Protocol::Dubbo
        } else if code == L7Protocol::Mysql.code() {
            L7Protocol::Mysql
        } else if code == L7Protocol::Redis.code() {
            L7Protocol::Redis
        } else if code == L7Protocol::Kafka.code() {
            L7Protocol::Kafka
        } else if code == L7Protocol::Mqtt.code() {
            L7Protocol::Mqtt
        } else if code == L7Protocol::Dns.code() {
            L7Protocol::Dns
        } else {
            L7Protocol::Unknown
        }
    }

    /// Two application protocols with the same code are the same.
    pub proof fn lemma_code_is_injective(a: L7Protocol, b: L7Protocol)
        requires
            a.code() == b.code(),
        ensures
            a == b,
    {
    }

    /// Converting an application protocol other than `Max` to its code and
    /// back gives it again.
    pub proof fn lemma_round_trip(l: L7Protocol)
        requires
            l != L7Protocol::Max,
        ensures
            Self::from_code(l.code()) == l,
    {
    }

    /// A code that some application protocol other than `Max` has is converted
    /// to the one that has it; any other code is taken for `Unknown`. No code
    /// is converted to `Max`.
    pub proof fn lemma_from_code_is_exact(code: u8)
        ensures
            Self::is_assigned(code) ==> Self::from_code(code).code() == code,
            !Self::is_assigned(code) ==> Self::from_code(code) == L7Protocol::Unknown,
            Self::from_code(code) != L7Protocol::Max,
    {
    }

    /// An application protocol equals a number, on either side of `==`, exactly when the
    /// number is its code; so it always equals its own code.
    pub proof fn lemma_equals_own_code(l: L7Protocol, code: u8)
        ensures
            l.eq_spec(&code) <==> l.code() == code,
            code.eq_spec(&l) <==> l.code() == code,
            l.eq_spec(&l.code()),
            l.code().eq_spec(&l),
    {
    }

    /// The code of `self`.
    pub fn to_numeric(self) -> (code: u8)
        ensures
            code == self.code(),
    {
        match self {
            L7Protocol::Unknown => 0,
            L7Protocol::Other => 1,
            L7Protocol::Http1 => 20,
            L7Protocol::Http2 => 21,
            L7Protocol::Http1TLS => 22,
            L7Protocol::Http2TLS => 23,
            L7Protocol::Dubbo => 40,
            L7Protocol::Mysql => 60,
            L7Protocol::Redis => 80,
            L7Protocol::Kafka => 100,
            L7Protocol::Mqtt => 101,
            L7Protocol::Dns => 120,
            L7Protocol::Max => 255,
        }
    }

    /// The application protocol that `code` names, `Unknown` for a code that
    /// names none.
    pub fn from_numeric(code: u8) -> (l: L7Protocol)
        ensures
            l == Self::from_code(code),
    {
        match code {
            1 => L7Protocol::Other,
            20 => L7Protocol::Http1,
            21 => L7Protocol::Http2,
            22 => L7Protocol::Http1TLS,
            23 => L7Protocol::Http2TLS,
            40 => L7Protocol::Dubbo,
            60 => L7Protocol::Mysql,
            80 => L7Protocol::Redis,
            100 => L7Protocol::Kafka,
            101 => L7Protocol::Mqtt,
            120 => L7Protocol::Dns,
            _ => L7Protocol::Unknown,
        }
    }
}

impl Default for L7Protocol {
    fn default() -> (l: L7Protocol)
        ensures
            l == L7Protocol::Unknown,
    {
        L7Protocol::Unknown
    }
}

impl From<u8> for L7Protocol {
    fn from(code: u8) -> (l: L7Protocol)
        ensures
            l == L7Protocol::from_code(code),
    {
        L7Protocol::from_numeric(code)
    }
}

impl vstd::std_specs::convert::FromSpecImpl<u8> for L7Protocol {
    open spec fn obeys_from_spec() -> bool {
        true
    }

    open spec fn from_spec(code: u8) -> L7Protocol {
        L7Protocol::from_code(code)
    }
}

impl From<L7Protocol> for u8 {
    fn from(l: L7Protocol) -> (code: u8)
        ensures
            code == l.code(),
    {
        l.to_numeric()
    }
}

impl vstd::std_specs::convert::FromSpecImpl<L7Protocol> for u8 {
    open spec fn obeys_from_spec() -> bool {
        true
    }

    open spec fn from_spec(l: L7Protocol) -> u8 {
        l.code()
    }
}

impl PartialEq<u8> for L7Protocol {
    fn eq(&self, other: &u8) -> (r: bool)
        ensures
            r == (self.code() == *other),
    {
        self.to_numeric() == *other
    }
}

impl vstd::std_specs::cmp::PartialEqSpecImpl<u8> for L7Protocol {
    open spec fn obeys_eq_spec() -> bool {
        true
    }

    open spec fn eq_spec(&self, other: &u8) -> bool {
        self.code() == *other
    }
}

impl PartialEq<L7Protocol> for u8 {
    fn eq(&self, other: &L7Protocol) -> (r: bool)
        ensures
            r == (other.code() == *self),
    {
        other.to_numeric() == *self
    }
}

impl vstd::std_specs::cmp::PartialEqSpecImpl<L7Protocol> for u8 {
    open spec fn obeys_eq_spec() -> bool {
        true
    }

    open spec fn eq_spec(&self, other: &L7Protocol) -> bool {
        other.code() == *self
    }
}

} // verus!
