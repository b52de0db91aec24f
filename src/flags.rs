use vstd::prelude::*;

verus! {

// Ring setup flags, bit for bit as `io_uring_setup(2)` takes them.
pub const SETUP_IO_POLL: u32 = 1;
pub const SETUP_SQ_POLL: u32 = 2;
pub const SETUP_SQ_AFF: u32 = 4;
pub const SETUP_CQ_SIZE: u32 = 8;
pub const SETUP_CLAMP: u32 = 16;
pub const SETUP_ATTACH_WQ: u32 = 32;
pub const SETUP_RING_DISABLED: u32 = 64;

/// Every bit that names a known ring setup flag.
pub const SETUP_ALL: u32 = 127;

/// A set of ring setup flags, held as a bit mask of known bits only.
#[derive(Debug, Clone, Copy, PartialEq, Eq, Structural)]
pub struct SetupFlag {
    bits: u32,
}

impl SetupFlag {
    pub closed spec fn spec_bits(&self) -> u32 {
        self.bits
    }

    /// The empty set.
    pub fn empty() -> (r: Self)
        ensures
            r.spec_bits() == 0,
    {
        SetupFlag { bits: 0 }
    }

    /// Every known flag.
    pub fn all() -> (r: Self)
        ensures
            r.spec_bits() == SETUP_ALL,
    {
        SetupFlag { bits: SETUP_ALL }
    }

    /// The set with exactly these bits, or `None` if a bit is unknown.
    pub fn from_bits(bits: u32) -> (r: Option<Self>)
        ensures
            (bits & !SETUP_ALL == 0) <==> r is Some,
            r is Some ==> r->Some_0.spec_bits() == bits,
    {
        if bits & !SETUP_ALL == 0 {
            Some(SetupFlag { bits })
        } else {
            None
        }
    }

    /// The set of the known bits among `bits`; the others are dropped.
    pub fn from_bits_truncate(bits: u32) -> (r: Self)
        ensures
            r.spec_bits() == bits & SETUP_ALL,
    {
        SetupFlag { bits: bits & SETUP_ALL }
    }

    pub fn bits(&self) -> (r: u32)
        ensures
            r == self.spec_bits(),
    {
        self.bits
    }

    pub fn is_empty(&self) -> (r: bool)
        ensures
            r == (self.spec_bits() == 0),
    {
        self.bits == 0
    }

    /// Whether every flag of `other` is in this set.
    pub fn contains(&self, other: Self) -> (r: bool)
        ensures
            r == (self.spec_bits() & other.spec_bits() == other.spec_bits()),
    {
        self.bits & other.bits == other.bits
    }

    pub fn union(&self, other: Self) -> (r: Self)
        ensures
            r.spec_bits() == self.spec_bits() | other.spec_bits(),
    {
        SetupFlag { bits: self.bits | other.bits }
    }

    pub fn intersection(&self, other: Self) -> (r: Self)
        ensures
            r.spec_bits() == self.spec_bits() & other.spec_bits(),
    {
        SetupFlag { bits: self.bits & other.bits }
    }
}

// Features a ring reports, bit for bit as `io_uring_setup(2)` reports them.
pub const FEAT_SINGLE_MMAP: u32 = 1;
pub const FEAT_NO_DROP: u32 = 2;
pub const FEAT_SUBMIT_STABLE: u32 = 4;
pub const FEAT_RW_CUR_POS: u32 = 8;
pub const FEAT_CUR_PERSONALITY: u32 = 16;
pub const FEAT_FAST_POLL: u32 = 32;
pub const FEAT_POLL32: u32 = 64;
pub const FEAT_SQ_POLL_NON_FIXED: u32 = 128;
pub const FEAT_EXT_ARG: u32 = 256;
pub const FEAT_NATIVE_WORKERS: u32 = 512;
pub const FEAT_RSRC_TAGS: u32 = 1024;

/// Every bit that names a known ring feature.
pub const FEAT_ALL: u32 = 2047;

/// A set of ring features, held as a bit mask of known bits only.
#[derive(Debug, Clone, Copy, PartialEq, Eq, Structural)]
pub struct RingFeature {
    bits: u32,
}

impl RingFeature {
    pub closed spec fn spec_bits(&self) -> u32 {
        self.bits
    }

    /// The empty set.
    pub fn empty() -> (r: Self)
        ensures
            r.spec_bits() == 0,
    {
        RingFeature { bits: 0 }
    }

    /// Every known flag.
    pub fn all() -> (r: Self)
        ensures
            r.spec_bits() == FEAT_ALL,
    {
        RingFeature { bits: FEAT_ALL }
    }

    /// The set with exactly these bits, or `None` if a bit is unknown.
    pub fn from_bits(bits: u32) -> (r: Option<Self>)
        ensures
            (bits & !FEAT_ALL == 0) <==> r is Some,
            r is Some ==> r->Some_0.spec_bits() == bits,
    {
        if bits & !FEAT_ALL == 0 {
            Some(RingFeature { bits })
        } else {
            None
        }
    }

    /// The set of the known bits among `bits`; the others are dropped.
    pub fn from_bits_truncate(bits: u32) -> (r: Self)
        ensures
            r.spec_bits() == bits & FEAT_ALL,
    {
        RingFeature { bits: bits & FEAT_ALL }
    }

    pub fn bits(&self) -> (r: u32)
        ensures
            r == self.spec_bits(),
    {
        self.bits
    }

    pub fn is_empty(&self) -> (r: bool)
        ensures
            r == (self.spec_bits() == 0),
    {
        self.bits == 0
    }

    /// Whether every flag of `other` is in this set.
    pub fn contains(&self, other: Self) -> (r: bool)
        ensures
            r == (self.spec_bits() & other.spec_bits() == other.spec_bits()),
    {
        self.bits & other.bits == other.bits
    }

    pub fn union(&self, other: Self) -> (r: Self)
        ensures
            r.spec_bits() == self.spec_bits() | other.spec_bits(),
    {
        RingFeature { bits: self.bits | other.bits }
    }

    pub fn intersection(&self, other: Self) -> (r: Self)
        ensures
            r.spec_bits() == self.spec_bits() & other.spec_bits(),
    {
        RingFeature { bits: self.bits & other.bits }
    }
}

} // verus!
