use vstd::prelude::*;

verus! {

/// Display-unit scale for a raw byte quantity. The canonical value of a byte
/// threshold is always stored in raw bytes; the unit only decides how that
/// value is presented and how typed input is scaled back to bytes.
#[derive(Clone, Copy, Debug, PartialEq, Eq)]
pub enum ByteMultiple {
    /// Plain bytes.
    B,
    /// Kilobytes (1_000 bytes).
    KB,
    /// Megabytes (1_000_000 bytes).
    MB,
    /// Gigabytes (1_000_000_000 bytes).
    GB,
}

impl ByteMultiple {
    /// Scale factor from this unit to raw bytes.
    pub open spec fn multiplier_spec(self) -> u64 {
        match self {
            ByteMultiple::B => 1,
            ByteMultiple::KB => 1_000,
            ByteMultiple::MB => 1_000_000,
            ByteMultiple::GB => 1_000_000_000,
        }
    }

    /// Position of this unit in the enumeration order, smallest scale first.
    pub open spec fn rank(self) -> int {
        match self {
            ByteMultiple::B => 0,
            ByteMultiple::KB => 1,
            ByteMultiple::MB => 2,
            ByteMultiple::GB => 3,
        }
    }

    /// Suffix shown after a number expressed in this unit.
    pub open spec fn symbol_spec(self) -> Seq<char> {
        match self {
            ByteMultiple::B => ""@,
            ByteMultiple::KB => "K"@,
            ByteMultiple::MB => "M"@,
            ByteMultiple::GB => "G"@,
        }
    }

    /// Scale factor from this unit to raw bytes.
    pub fn get_multiplier(self) -> (r: u64)
        ensures
            r == self.multiplier_spec(),
    {
        match self {
            ByteMultiple::B => 1,
            ByteMultiple::KB => 1_000,
            ByteMultiple::MB => 1_000_000,
            ByteMultiple::GB => 1_000_000_000,
        }
    }

    /// Suffix shown after a number expressed in this unit.
    pub fn get_char(self) -> (r: &'static str)
        ensures
            r@ == self.symbol_spec(),
    {
        match self {
            ByteMultiple::B => "",
            ByteMultiple::KB => "K",
            ByteMultiple::MB => "M",
            ByteMultiple::GB => "G",
        }
    }
}

/// Every multiplier is positive, so dividing by it is always defined.
pub proof fn lemma_multiplier_positive(u: ByteMultiple)
    ensures
        u.multiplier_spec() >= 1,
{
}

/// The multiplier grows strictly along the enumeration order.
pub proof fn lemma_multiplier_strictly_increasing(a: ByteMultiple, b: ByteMultiple)
    requires
        a.rank() < b.rank(),
    ensures
        a.multiplier_spec() < b.multiplier_spec(),
{
}

/// Each unit scales the one before it by the same fixed base, so the
/// multipliers are exactly the powers of 1000 along the enumeration order.
pub proof fn lemma_multiplier_fixed_base(a: ByteMultiple, b: ByteMultiple)
    requires
        b.rank() == a.rank() + 1,
    ensures
        b.multiplier_spec() == 1_000 * a.multiplier_spec(),
{
}

} // verus!
