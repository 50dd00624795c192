//! The flag byte of a TCP header, and which of its values a sound TCP stack
//! sends.

use crate::text::{join, joined, texts};
use vstd::prelude::*;

verus! {

/// The flags of a TCP segment: the flag byte of its header.
///
/// The six low bits are the flags FIN, SYN, RST, PSH, ACK and URG; the two
/// high bits are reserved and count for nothing. The view of a value is its
/// byte.
#[derive(Clone, Copy, Debug, PartialEq, Eq, Structural, Hash)]
pub struct TcpFlags {
    bits: u8,
}

impl View for TcpFlags {
    type V = u8;

    closed spec fn view(&self) -> u8 {
        self.bits
    }
}

/// The bits of the six flags.
pub const MASK_BITS: u8 = 0x3f;

/// The two reserved bits.
pub const RESERVED_BITS: u8 = 0xc0;

/// The six significant bits of a flag byte.
pub open spec fn significant(bits: u8) -> u8 {
    bits & MASK_BITS
}

/// Whether a flag byte without reserved bits is one that a sound TCP stack
/// sends: SYN, SYN+ACK, FIN, FIN+ACK, FIN+PSH+ACK, RST, RST+ACK, RST+PSH+ACK,
/// ACK, PSH+ACK or PSH+ACK+URG.
pub open spec fn is_plausible(bits: u8) -> bool {
    ||| bits == 0b000010
    ||| bits == 0b010010
    ||| bits == 0b000001
    ||| bits == 0b010001
    ||| bits == 0b011001
    ||| bits == 0b000100
    ||| bits == 0b010100
    ||| bits == 0b011100
    ||| bits == 0b010000
    ||| bits == 0b011000
    ||| bits == 0b111000
}

/// The name of a flag in a one-element list where all bits of `mask` are set
/// in `bits`, and the empty list where they are not.
pub open spec fn name_if_set(bits: u8, mask: u8, name: Seq<char>) -> Seq<Seq<char>> {
    if bits & mask == mask {
        seq![name]
    } else {
        Seq::empty()
    }
}

/// The names of the flags that are set in a flag byte, in the order FIN, SYN,
/// RST, PSH, ACK, URG.
pub open spec fn names(bits: u8) -> Seq<Seq<char>> {
    name_if_set(bits, 0b000001, "FIN"@) + name_if_set(bits, 0b000010, "SYN"@) + name_if_set(
        bits,
        0b000100,
        "RST"@,
    ) + name_if_set(bits, 0b001000, "PSH"@) + name_if_set(bits, 0b010000, "ACK"@) + name_if_set(
        bits,
        0b100000,
        "URG"@,
    )
}

#[allow(non_snake_case)]
impl TcpFlags {
    /// The flags whose byte is `bits`.
    pub closed spec fn with_bits(bits: u8) -> TcpFlags {
        TcpFlags { bits }
    }

    /// Flags are told apart by their bytes, and every byte is that of some
    /// flags.
    pub proof fn lemma_view(a: TcpFlags, b: TcpFlags, bits: u8)
        ensures
            a@ == b@ <==> a == b,
            Self::with_bits(bits)@ == bits,
            Self::with_bits(a@) == a,
    {
    }

    /// The six significant bits of a flag byte are its value modulo 64.
    pub proof fn lemma_significant(bits: u8)
        ensures
            significant(bits) == bits % 64,
    {
        assert(bits & 0x3f == bits % 64) by (bit_vector);
    }

    /// The reserved bits count for nothing: setting any of them leaves the
    /// significant bits, and with them the verdict on the flags, as they
    /// were.
    pub proof fn lemma_reserved_bits_are_ignored(bits: u8, reserved: u8)
        ensures
            significant(bits | (reserved & RESERVED_BITS)) == significant(bits),
            is_plausible(significant(bits | (reserved & RESERVED_BITS))) == is_plausible(
                significant(bits),
            ),
    {
        assert((bits | (reserved & 0xc0)) & 0x3f == bits & 0x3f) by (bit_vector);
    }

    /// The sender has finished sending.
    pub fn FIN() -> (flags: TcpFlags)
        ensures
            flags@ == 0b000001,
    {
        TcpFlags { bits: 0b000001 }
    }

    /// Synchronise sequence numbers: the opening of a connection.
    pub fn SYN() -> (flags: TcpFlags)
        ensures
            flags@ == 0b000010,
    {
        TcpFlags { bits: 0b000010 }
    }

    /// Reset the connection.
    pub fn RST() -> (flags: TcpFlags)
        ensures
            flags@ == 0b000100,
    {
        TcpFlags { bits: 0b000100 }
    }

    /// Push the data to the receiver at once.
    pub fn PSH() -> (flags: TcpFlags)
        ensures
            flags@ == 0b001000,
    {
        TcpFlags { bits: 0b001000 }
    }

    /// The acknowledgement number counts.
    pub fn ACK() -> (flags: TcpFlags)
        ensures
            flags@ == 0b010000,
    {
        TcpFlags { bits: 0b010000 }
    }

    /// The urgent pointer counts.
    pub fn URG() -> (flags: TcpFlags)
        ensures
            flags@ == 0b100000,
    {
        TcpFlags { bits: 0b100000 }
    }

    /// All six flags: the significant bits of a flag byte.
    pub fn MASK() -> (flags: TcpFlags)
        ensures
            flags@ == MASK_BITS,
    {
        TcpFlags { bits: MASK_BITS }
    }

    /// SYN and ACK.
    pub fn SYN_ACK() -> (flags: TcpFlags)
        ensures
            flags@ == 0b010010,
    {
        TcpFlags { bits: 0b010010 }
    }

    /// FIN and ACK.
    pub fn FIN_ACK() -> (flags: TcpFlags)
        ensures
            flags@ == 0b010001,
    {
        TcpFlags { bits: 0b010001 }
    }

    /// FIN, PSH and ACK.
    pub fn FIN_PSH_ACK() -> (flags: TcpFlags)
        ensures
            flags@ == 0b011001,
    {
        TcpFlags { bits: 0b011001 }
    }

    /// RST and ACK.
    pub fn RST_ACK() -> (flags: TcpFlags)
        ensures
            flags@ == 0b010100,
    {
        TcpFlags { bits: 0b010100 }
    }

    /// RST, PSH and ACK.
    pub fn RST_PSH_ACK() -> (flags: TcpFlags)
        ensures
            flags@ == 0b011100,
    {
        TcpFlags { bits: 0b011100 }
    }

    /// PSH and ACK.
    pub fn PSH_ACK() -> (flags: TcpFlags)
        ensures
            flags@ == 0b011000,
    {
        TcpFlags { bits: 0b011000 }
    }

    /// PSH, ACK and URG.
    pub fn PSH_ACK_URG() -> (flags: TcpFlags)
        ensures
            flags@ == 0b111000,
    {
        TcpFlags { bits: 0b111000 }
    }

    /// No flag.
    pub fn empty() -> (flags: TcpFlags)
        ensures
            flags@ == 0,
    {
        TcpFlags { bits: 0 }
    }

    /// All six flags.
    pub fn all() -> (flags: TcpFlags)
        ensures
            flags@ == MASK_BITS,
    {
        TcpFlags { bits: MASK_BITS }
    }

    /// The flag byte.
    pub fn bits(&self) -> (bits: u8)
        ensures
            bits == self@,
    {
        self.bits
    }

    /// The flags of a byte that has no reserved bit set, and nothing for a
    /// byte that has one.
    pub fn from_bits(bits: u8) -> (r: Option<TcpFlags>)
        ensures
            r == if bits & RESERVED_BITS == 0 {
                Some(Self::with_bits(bits))
            } else {
                None
            },
    {
        if bits & RESERVED_BITS == 0 {
            Some(TcpFlags { bits })
        } else {
            None
        }
    }

    /// The flags of a byte, without its reserved bits.
    pub fn from_bits_truncate(bits: u8) -> (flags: TcpFlags)
        ensures
            flags@ == significant(bits),
    {
        TcpFlags { bits: bits & MASK_BITS }
    }

    /// The flags of a byte, with its reserved bits as they are.
    pub fn from_bits_retain(bits: u8) -> (flags: TcpFlags)
        ensures
            flags@ == bits,
    {
        TcpFlags { bits }
    }

    /// Whether no bit is set.
    pub fn is_empty(&self) -> (r: bool)
        ensures
            r == (self@ == 0),
    {
        self.bits == 0
    }

    /// Whether every bit of `other` is set in `self`.
    pub fn contains(&self, other: TcpFlags) -> (r: bool)
        ensures
            r == (self@ & other@ == other@),
    {
        self.bits & other.bits == other.bits
    }

    /// Whether the flags are none that a sound TCP stack sends. The reserved
    /// bits are left out of account; no flag at all is invalid.
    pub fn is_invalid(&self) -> (invalid: bool)
        ensures
            invalid == !is_plausible(significant(self@)),
    {
        let masked = self.bits & MASK_BITS;
        !(masked == 0b000010 || masked == 0b010010 || masked == 0b000001 || masked == 0b010001
            || masked == 0b011001 || masked == 0b000100 || masked == 0b010100 || masked
            == 0b011100 || masked == 0b010000 || masked == 0b011000 || masked == 0b111000)
    }

    /// The names of the flags that are set, in the order FIN, SYN, RST, PSH,
    /// ACK, URG, with `|` between each two; the empty text where none is set.
    pub fn to_string(&self) -> (text: String)
        ensures
            text@ == joined(names(self@), "|"@),
    {
        let mut set: Vec<&'static str> = Vec::new();
        if self.contains(Self::FIN()) {
            set.push("FIN");
        }
        if self.contains(Self::SYN()) {
            set.push("SYN");
        }
        if self.contains(Self::RST()) {
            set.push("RST");
        }
        if self.contains(Self::PSH()) {
            set.push("PSH");
        }
        if self.contains(Self::ACK()) {
            set.push("ACK");
        }
        if self.contains(Self::URG()) {
            set.push("URG");
        }
        proof {
            assert(texts(set@) =~= names(self@));
        }
        join(&set, "|")
    }
}

impl Default for TcpFlags {
    fn default() -> (flags: TcpFlags)
        ensures
            flags@ == 0,
    {
        TcpFlags { bits: 0 }
    }
}

impl core::ops::BitOr for TcpFlags {
    type Output = TcpFlags;

    fn bitor(self, other: TcpFlags) -> (flags: TcpFlags)
        ensures
            flags@ == self@ | other@,
    {
        TcpFlags { bits: self.bits | other.bits }
    }
}

impl vstd::std_specs::ops::BitOrSpecImpl for TcpFlags {
    open spec fn obeys_bitor_spec() -> bool {
        true
    }

    open spec fn bitor_req(self, other: TcpFlags) -> bool {
        true
    }

    open spec fn bitor_spec(self, other: TcpFlags) -> TcpFlags {
        TcpFlags::with_bits(self@ | other@)
    }
}

impl core::ops::BitAnd for TcpFlags {
    type Output = TcpFlags;

    fn bitand(self, other: TcpFlags) -> (flags: TcpFlags)
        ensures
            flags@ == self@ & other@,
    {
        TcpFlags { bits: self.bits & other.bits }
    }
}

impl vstd::std_specs::ops::BitAndSpecImpl for TcpFlags {
    open spec fn obeys_bitand_spec() -> bool {
        true
    }

    open spec fn bitand_req(self, other: TcpFlags) -> bool {
        true
    }

    open spec fn bitand_spec(self, other: TcpFlags) -> TcpFlags {
        TcpFlags::with_bits(self@ & other@)
    }
}

} // verus!
