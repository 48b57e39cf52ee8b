//! The closed set of barcode symbologies, as a bit set.
use vstd::prelude::*;

verus! {

/// The bits of all named symbologies: bits 0 through 16.
pub const ALL_BITS: u32 = 0x1ffff;

/// A set of barcode symbologies.
///
/// Each named symbology is one bit; a value may combine several of them, for
/// instance to restrict which symbologies the engine tries. Only the bits in
/// `ALL_BITS` are ever set.
#[derive(Clone, Copy, Debug, PartialEq, Eq, Hash, Structural)]
pub struct Format {
    bits: u32,
}

/// The value has exactly one bit set.
pub open spec fn one_bit(b: u32) -> bool {
    b != 0 && b & ((b - 1) as u32) == 0
}

/// Each bit of a named symbology lies within `ALL_BITS` and stands alone.
proof fn lemma_named_bits()
    by (bit_vector)
    ensures
        0x1u32 & !ALL_BITS == 0 && one_bit(0x1u32),
        0x2u32 & !ALL_BITS == 0 && one_bit(0x2u32),
        0x4u32 & !ALL_BITS == 0 && one_bit(0x4u32),
        0x8u32 & !ALL_BITS == 0 && one_bit(0x8u32),
        0x10u32 & !ALL_BITS == 0 && one_bit(0x10u32),
        0x20u32 & !ALL_BITS == 0 && one_bit(0x20u32),
        0x40u32 & !ALL_BITS == 0 && one_bit(0x40u32),
        0x80u32 & !ALL_BITS == 0 && one_bit(0x80u32),
        0x100u32 & !ALL_BITS == 0 && one_bit(0x100u32),
        0x200u32 & !ALL_BITS == 0 && one_bit(0x200u32),
        0x400u32 & !ALL_BITS == 0 && one_bit(0x400u32),
        0x800u32 & !ALL_BITS == 0 && one_bit(0x800u32),
        0x1000u32 & !ALL_BITS == 0 && one_bit(0x1000u32),
        0x2000u32 & !ALL_BITS == 0 && one_bit(0x2000u32),
        0x4000u32 & !ALL_BITS == 0 && one_bit(0x4000u32),
        0x8000u32 & !ALL_BITS == 0 && one_bit(0x8000u32),
        0x10000u32 & !ALL_BITS == 0 && one_bit(0x10000u32),
{
}

impl Format {
    /// The raw bits of the set, as a spec value.
    pub closed spec fn spec_bits(self) -> u32 {
        self.bits
    }

    /// No bit outside the named symbologies is set.
    pub open spec fn wf(self) -> bool {
        self.spec_bits() & !ALL_BITS == 0
    }

    /// The value is exactly one named symbology.
    pub open spec fn is_named(self) -> bool {
        self.wf() && one_bit(self.spec_bits())
    }

    /// The set with the given bits, those outside the named symbologies cleared.
    pub closed spec fn truncated(bits: u32) -> Format {
        Format { bits: bits & ALL_BITS }
    }

    /// The engine's integer code for this set.
    pub open spec fn spec_native_code(self) -> i32 {
        self.spec_bits() as i32
    }

    /// The set that an engine code stands for; unknown bits are dropped.
    pub open spec fn spec_from_native(code: i32) -> Format {
        Format::truncated(code as u32)
    }

    fn named(bits: u32) -> (r: Format)
        requires
            bits & !ALL_BITS == 0,
            one_bit(bits),
        ensures
            r.spec_bits() == bits,
            r.is_named(),
    {
        Format { bits }
    }

    /// Aztec 2D barcode format.
    #[allow(non_snake_case)]
    pub fn AZTEC() -> (r: Format)
        ensures
            r.spec_bits() == 0x1,
            r.is_named(),
    {
        proof {
            lemma_named_bits();
        }
        Format::named(0x1)
    }

    /// Codabar 1D format.
    #[allow(non_snake_case)]
    pub fn CODABAR() -> (r: Format)
        ensures
            r.spec_bits() == 0x2,
            r.is_named(),
    {
        proof {
            lemma_named_bits();
        }
        Format::named(0x2)
    }

    /// Code 39 1D format.
    #[allow(non_snake_case)]
    pub fn CODE_39() -> (r: Format)
        ensures
            r.spec_bits() == 0x4,
            r.is_named(),
    {
        proof {
            lemma_named_bits();
        }
        Format::named(0x4)
    }

    /// Code 93 1D format.
    #[allow(non_snake_case)]
    pub fn CODE_93() -> (r: Format)
        ensures
            r.spec_bits() == 0x8,
            r.is_named(),
    {
        proof {
            lemma_named_bits();
        }
        Format::named(0x8)
    }

    /// Code 128 1D format.
    #[allow(non_snake_case)]
    pub fn CODE_128() -> (r: Format)
        ensures
            r.spec_bits() == 0x10,
            r.is_named(),
    {
        proof {
            lemma_named_bits();
        }
        Format::named(0x10)
    }

    /// Data Matrix 2D barcode format.
    #[allow(non_snake_case)]
    pub fn DATA_MATRIX() -> (r: Format)
        ensures
            r.spec_bits() == 0x20,
            r.is_named(),
    {
        proof {
            lemma_named_bits();
        }
        Format::named(0x20)
    }

    /// EAN-8 1D format.
    #[allow(non_snake_case)]
    pub fn EAN_8() -> (r: Format)
        ensures
            r.spec_bits() == 0x40,
            r.is_named(),
    {
        proof {
            lemma_named_bits();
        }
        Format::named(0x40)
    }

    /// EAN-13 1D format.
    #[allow(non_snake_case)]
    pub fn EAN_13() -> (r: Format)
        ensures
            r.spec_bits() == 0x80,
            r.is_named(),
    {
        proof {
            lemma_named_bits();
        }
        Format::named(0x80)
    }

    /// ITF (Interleaved Two of Five) 1D format.
    #[allow(non_snake_case)]
    pub fn ITF() -> (r: Format)
        ensures
            r.spec_bits() == 0x100,
            r.is_named(),
    {
        proof {
            lemma_named_bits();
        }
        Format::named(0x100)
    }

    /// MaxiCode 2D barcode format.
    #[allow(non_snake_case)]
    pub fn MAXICODE() -> (r: Format)
        ensures
            r.spec_bits() == 0x200,
            r.is_named(),
    {
        proof {
            lemma_named_bits();
        }
        Format::named(0x200)
    }

    /// PDF417 format.
    #[allow(non_snake_case)]
    pub fn PDF_417() -> (r: Format)
        ensures
            r.spec_bits() == 0x400,
            r.is_named(),
    {
        proof {
            lemma_named_bits();
        }
        Format::named(0x400)
    }

    /// QR Code 2D barcode format.
    #[allow(non_snake_case)]
    pub fn QR_CODE() -> (r: Format)
        ensures
            r.spec_bits() == 0x800,
            r.is_named(),
    {
        proof {
            lemma_named_bits();
        }
        Format::named(0x800)
    }

    /// RSS 14 format.
    #[allow(non_snake_case)]
    pub fn RSS_14() -> (r: Format)
        ensures
            r.spec_bits() == 0x1000,
            r.is_named(),
    {
        proof {
            lemma_named_bits();
        }
        Format::named(0x1000)
    }

    /// RSS Expanded format.
    #[allow(non_snake_case)]
    pub fn RSS_EXPANDED() -> (r: Format)
        ensures
            r.spec_bits() == 0x2000,
            r.is_named(),
    {
        proof {
            lemma_named_bits();
        }
        Format::named(0x2000)
    }

    /// UPC-A 1D format.
    #[allow(non_snake_case)]
    pub fn UPC_A() -> (r: Format)
        ensures
            r.spec_bits() == 0x4000,
            r.is_named(),
    {
        proof {
            lemma_named_bits();
        }
        Format::named(0x4000)
    }

    /// UPC-E 1D format.
    #[allow(non_snake_case)]
    pub fn UPC_E() -> (r: Format)
        ensures
            r.spec_bits() == 0x8000,
            r.is_named(),
    {
        proof {
            lemma_named_bits();
        }
        Format::named(0x8000)
    }

    /// UPC/EAN extension (1D); not a stand-alone format.
    #[allow(non_snake_case)]
    pub fn UPC_EAN_EXTENSION() -> (r: Format)
        ensures
            r.spec_bits() == 0x10000,
            r.is_named(),
    {
        proof {
            lemma_named_bits();
        }
        Format::named(0x10000)
    }
}

impl Format {
    /// The empty set.
    pub fn empty() -> (r: Format)
        ensures
            r.spec_bits() == 0,
            r.wf(),
    {
        assert(0u32 & !ALL_BITS == 0) by (bit_vector);
        Format { bits: 0 }
    }

    /// The set of all named symbologies.
    pub fn all() -> (r: Format)
        ensures
            r.spec_bits() == ALL_BITS,
            r.wf(),
    {
        assert(ALL_BITS & !ALL_BITS == 0) by (bit_vector);
        Format { bits: ALL_BITS }
    }

    /// The raw bits of the set.
    pub fn bits(&self) -> (r: u32)
        ensures
            r == self.spec_bits(),
    {
        self.bits
    }

    /// The set with exactly the given bits, or `None` where a bit lies
    /// outside the named symbologies.
    pub fn from_bits(bits: u32) -> (r: Option<Format>)
        ensures
            r is Some <==> bits & !ALL_BITS == 0,
            r matches Some(f) ==> f.spec_bits() == bits && f.wf(),
    {
        if bits & !ALL_BITS == 0 {
            Some(Format { bits })
        } else {
            None
        }
    }

    /// The set with the given bits, those outside the named symbologies
    /// cleared.
    pub fn from_bits_truncate(bits: u32) -> (r: Format)
        ensures
            r == Format::truncated(bits),
            r.spec_bits() == bits & ALL_BITS,
            r.wf(),
    {
        assert((bits & ALL_BITS) & !ALL_BITS == 0) by (bit_vector);
        Format { bits: bits & ALL_BITS }
    }

    /// The engine's integer code for this set: its bits, unchanged.
    pub fn native_code(&self) -> (r: i32)
        ensures
            r == self.spec_native_code(),
            self.wf() ==> r >= 0 && r as u32 == self.spec_bits(),
    {
        proof {
            let b = self.bits;
            assert(b & !ALL_BITS == 0 ==> (b as i32) >= 0 && (b as i32) as u32 == b) by (bit_vector);
        }
        self.bits as i32
    }

    /// The set that an engine code stands for. Every code is accepted: bits
    /// that name no known symbology are dropped.
    pub fn from_native(code: i32) -> (r: Format)
        ensures
            r == Format::spec_from_native(code),
            r.spec_bits() == (code as u32) & ALL_BITS,
            r.wf(),
    {
        Format::from_bits_truncate(code as u32)
    }

    /// Whether the set is empty.
    pub fn is_empty(&self) -> (r: bool)
        ensures
            r == (self.spec_bits() == 0),
    {
        self.bits == 0
    }

    /// Whether the set holds every named symbology.
    pub fn is_all(&self) -> (r: bool)
        ensures
            r == (self.spec_bits() == ALL_BITS),
    {
        self.bits == ALL_BITS
    }

    /// Whether the set is exactly one named symbology.
    pub fn is_single(&self) -> (r: bool)
        ensures
            r == self.is_named(),
    {
        self.bits != 0 && self.bits & (self.bits - 1) == 0 && self.bits & !ALL_BITS == 0
    }

    /// Whether every member of `other` is in this set.
    pub fn contains(&self, other: Format) -> (r: bool)
        ensures
            r == (self.spec_bits() & other.spec_bits() == other.spec_bits()),
    {
        self.bits & other.bits == other.bits
    }

    /// Whether the two sets share a member.
    pub fn intersects(&self, other: Format) -> (r: bool)
        ensures
            r == (self.spec_bits() & other.spec_bits() != 0),
    {
        self.bits & other.bits != 0
    }

    /// The members of either set.
    pub fn union(self, other: Format) -> (r: Format)
        ensures
            r.spec_bits() == self.spec_bits() | other.spec_bits(),
            self.wf() && other.wf() ==> r.wf(),
    {
        proof {
            let (a, b) = (self.bits, other.bits);
            assert(a & !ALL_BITS == 0 && b & !ALL_BITS == 0 ==> (a | b) & !ALL_BITS == 0)
                by (bit_vector);
        }
        Format { bits: self.bits | other.bits }
    }

    /// The members of both sets.
    pub fn intersection(self, other: Format) -> (r: Format)
        ensures
            r.spec_bits() == self.spec_bits() & other.spec_bits(),
            self.wf() ==> r.wf(),
    {
        proof {
            let (a, b) = (self.bits, other.bits);
            assert(a & !ALL_BITS == 0 ==> (a & b) & !ALL_BITS == 0) by (bit_vector);
        }
        Format { bits: self.bits & other.bits }
    }

    /// The members of this set that are not in `other`.
    pub fn difference(self, other: Format) -> (r: Format)
        ensures
            r.spec_bits() == self.spec_bits() & !other.spec_bits(),
            self.wf() ==> r.wf(),
    {
        proof {
            let (a, b) = (self.bits, other.bits);
            assert(a & !ALL_BITS == 0 ==> (a & !b) & !ALL_BITS == 0) by (bit_vector);
        }
        Format { bits: self.bits & !other.bits }
    }

    /// Adds the members of `other` to this set.
    pub fn insert(&mut self, other: Format)
        ensures
            final(self).spec_bits() == old(self).spec_bits() | other.spec_bits(),
            old(self).wf() && other.wf() ==> final(self).wf(),
    {
        *self = self.union(other);
    }

    /// Removes the members of `other` from this set.
    pub fn remove(&mut self, other: Format)
        ensures
            final(self).spec_bits() == old(self).spec_bits() & !other.spec_bits(),
            old(self).wf() ==> final(self).wf(),
    {
        *self = self.difference(other);
    }
}

/// Converting a set of symbologies to its engine code and back gives the same
/// set, for every well-formed set and so for each named symbology.
pub proof fn lemma_native_round_trip(f: Format)
    requires
        f.wf(),
    ensures
        Format::spec_from_native(f.spec_native_code()) == f,
{
    let b = f.bits;
    assert(b & !ALL_BITS == 0 ==> ((b as i32) as u32) & ALL_BITS == b) by (bit_vector);
}

/// Every engine code names a well-formed set, whose members are exactly the
/// known bits of the code.
pub proof fn lemma_from_native_total(code: i32)
    ensures
        Format::spec_from_native(code).wf(),
        Format::spec_from_native(code).spec_bits() == (code as u32) & ALL_BITS,
{
    let b = code as u32;
    assert((b & ALL_BITS) & !ALL_BITS == 0) by (bit_vector);
}

impl From<i32> for Format {
    /// The set that an engine code stands for; unknown bits are dropped.
    fn from(code: i32) -> (r: Format) {
        Format::from_native(code)
    }
}

impl vstd::std_specs::convert::FromSpecImpl<i32> for Format {
    open spec fn obeys_from_spec() -> bool {
        true
    }

    open spec fn from_spec(code: i32) -> Format {
        Format::spec_from_native(code)
    }
}

impl From<Format> for i32 {
    /// The engine's integer code for a set of symbologies.
    fn from(f: Format) -> (r: i32) {
        f.native_code()
    }
}

impl vstd::std_specs::convert::FromSpecImpl<Format> for i32 {
    open spec fn obeys_from_spec() -> bool {
        true
    }

    open spec fn from_spec(f: Format) -> i32 {
        f.spec_native_code()
    }
}

} // verus!
