//! Validated CAN identifiers: 11-bit standard and 29-bit extended.

use vstd::prelude::*;

verus! {

/// Largest raw value of an 11-bit standard identifier.
pub const MAX_STANDARD_RAW: u16 = 0x7FF;

/// Largest raw value of a 29-bit extended identifier.
pub const MAX_EXTENDED_RAW: u32 = 0x1FFF_FFFF;

/// A validated 11-bit CAN identifier. Every value of this type holds a raw
/// identifier in `0..=0x7FF`; the checked constructor is the only way to
/// build one.
#[derive(Clone, Copy, Debug, PartialEq, Eq)]
pub struct StandardId {
    raw: u16,
}

impl StandardId {
    #[verifier::type_invariant]
    spec fn type_inv(self) -> bool {
        self.raw <= MAX_STANDARD_RAW
    }

    /// The raw 11-bit value, for use in contracts.
    pub closed spec fn raw_spec(self) -> u16 {
        self.raw
    }

    /// Builds a standard identifier, rejecting raw values above 11 bits.
    pub fn new(raw: u16) -> (r: Option<StandardId>)
        ensures
            r is Some <==> raw <= MAX_STANDARD_RAW,
            r matches Some(id) ==> id.raw_spec() == raw,
    {
        if raw <= MAX_STANDARD_RAW {
            Some(StandardId { raw })
        } else {
            None
        }
    }

    /// Returns the raw value; on every constructed identifier it is within
    /// the 11-bit range.
    pub fn as_raw(&self) -> (r: u16)
        ensures
            r == self.raw_spec(),
            r <= MAX_STANDARD_RAW,
    {
        proof {
            use_type_invariant(self);
        }
        self.raw
    }
}

/// A validated 29-bit CAN identifier. Every value of this type holds a raw
/// identifier in `0..=0x1FFF_FFFF`; the checked constructor is the only way
/// to build one.
#[derive(Clone, Copy, Debug, PartialEq, Eq)]
pub struct ExtendedId {
    raw: u32,
}

impl ExtendedId {
    #[verifier::type_invariant]
    spec fn type_inv(self) -> bool {
        self.raw <= MAX_EXTENDED_RAW
    }

    /// The raw 29-bit value, for use in contracts.
    pub closed spec fn raw_spec(self) -> u32 {
        self.raw
    }

    /// Builds an extended identifier, rejecting raw values above 29 bits.
    pub fn new(raw: u32) -> (r: Option<ExtendedId>)
        ensures
            r is Some <==> raw <= MAX_EXTENDED_RAW,
            r matches Some(id) ==> id.raw_spec() == raw,
    {
        if raw <= MAX_EXTENDED_RAW {
            Some(ExtendedId { raw })
        } else {
            None
        }
    }

    /// Returns the raw value; on every constructed identifier it is within
    /// the 29-bit range.
    pub fn as_raw(&self) -> (r: u32)
        ensures
            r == self.raw_spec(),
            r <= MAX_EXTENDED_RAW,
    {
        proof {
            use_type_invariant(self);
        }
        self.raw
    }
}

/// The two CAN addressing formats.
#[derive(Clone, Copy, Debug, PartialEq, Eq)]
pub enum IdKind {
    Standard,
    Extended,
}

/// A CAN identifier: either standard (11-bit) or extended (29-bit). The
/// payload types carry their own range invariants, so every `Id` is valid.
#[derive(Clone, Copy, Debug, PartialEq, Eq)]
pub enum Id {
    Standard(StandardId),
    Extended(ExtendedId),
}

impl Id {
    /// Whether this identifier uses the 29-bit extended format.
    pub open spec fn is_extended_spec(self) -> bool {
        self matches Id::Extended(_)
    }

    /// The raw numeric value, widened to 32 bits.
    pub open spec fn value_spec(self) -> u32 {
        match self {
            Id::Standard(id) => id.raw_spec() as u32,
            Id::Extended(id) => id.raw_spec(),
        }
    }

    /// Single validation point for raw identifier values: returns `None`
    /// exactly when `value` exceeds the bit width of `kind`.
    pub fn from_raw_checked(kind: IdKind, value: u32) -> (r: Option<Id>)
        ensures
            match kind {
                IdKind::Standard => {
                    &&& (r is Some <==> value <= MAX_STANDARD_RAW)
                    &&& (r matches Some(id) ==> !id.is_extended_spec() && id.value_spec()
                        == value)
                },
                IdKind::Extended => {
                    &&& (r is Some <==> value <= MAX_EXTENDED_RAW)
                    &&& (r matches Some(id) ==> id.is_extended_spec() && id.value_spec()
                        == value)
                },
            },
    {
        match kind {
            IdKind::Standard => {
                if value <= MAX_STANDARD_RAW as u32 {
                    match StandardId::new(value as u16) {
                        Some(id) => Some(Id::Standard(id)),
                        None => None,
                    }
                } else {
                    None
                }
            },
            IdKind::Extended => {
                match ExtendedId::new(value) {
                    Some(id) => Some(Id::Extended(id)),
                    None => None,
                }
            },
        }
    }

    /// Whether this identifier uses the 29-bit extended format.
    pub fn is_extended(&self) -> (r: bool)
        ensures
            r == self.is_extended_spec(),
    {
        match self {
            Id::Standard(_) => false,
            Id::Extended(_) => true,
        }
    }

    /// Returns the raw numeric value, widened to 32 bits; on every
    /// constructed identifier it is within the range of its format.
    pub fn value(&self) -> (r: u32)
        ensures
            r == self.value_spec(),
            !self.is_extended_spec() ==> r <= MAX_STANDARD_RAW,
            r <= MAX_EXTENDED_RAW,
    {
        match self {
            Id::Standard(id) => id.as_raw() as u32,
            Id::Extended(id) => id.as_raw(),
        }
    }
}

/// A standard identifier in the generic, peripheral-agnostic representation
/// used by protocol-layer code. It enforces the same 11-bit bound as
/// [`StandardId`], through its own checked constructor.
#[derive(Clone, Copy, Debug, PartialEq, Eq)]
pub struct GenericStandardId {
    raw: u16,
}

impl GenericStandardId {
    #[verifier::type_invariant]
    closed spec fn type_inv(self) -> bool {
        self.raw <= MAX_STANDARD_RAW
    }

    /// The raw 11-bit value, for use in contracts.
    pub closed spec fn raw_spec(self) -> u16 {
        self.raw
    }

    /// Builds a generic standard identifier, rejecting raw values above 11
    /// bits.
    pub fn new(raw: u16) -> (r: Option<GenericStandardId>)
        ensures
            r is Some <==> raw <= MAX_STANDARD_RAW,
            r matches Some(id) ==> id.raw_spec() == raw,
    {
        if raw <= MAX_STANDARD_RAW {
            Some(GenericStandardId { raw })
        } else {
            None
        }
    }

    /// Returns the raw value; on every constructed identifier it is within
    /// the 11-bit range.
    pub fn as_raw(&self) -> (r: u16)
        ensures
            r == self.raw_spec(),
            r <= MAX_STANDARD_RAW,
    {
        proof {
            use_type_invariant(self);
        }
        self.raw
    }
}

/// An extended identifier in the generic, peripheral-agnostic
/// representation. It enforces the same 29-bit bound as [`ExtendedId`],
/// through its own checked constructor.
#[derive(Clone, Copy, Debug, PartialEq, Eq)]
pub struct GenericExtendedId {
    raw: u32,
}

impl GenericExtendedId {
    #[verifier::type_invariant]
    closed spec fn type_inv(self) -> bool {
        self.raw <= MAX_EXTENDED_RAW
    }

    /// The raw 29-bit value, for use in contracts.
    pub closed spec fn raw_spec(self) -> u32 {
        self.raw
    }

    /// Builds a generic extended identifier, rejecting raw values above 29
    /// bits.
    pub fn new(raw: u32) -> (r: Option<GenericExtendedId>)
        ensures
            r is Some <==> raw <= MAX_EXTENDED_RAW,
            r matches Some(id) ==> id.raw_spec() == raw,
    {
        if raw <= MAX_EXTENDED_RAW {
            Some(GenericExtendedId { raw })
        } else {
            None
        }
    }

    /// Returns the raw value; on every constructed identifier it is within
    /// the 29-bit range.
    pub fn as_raw(&self) -> (r: u32)
        ensures
            r == self.raw_spec(),
            r <= MAX_EXTENDED_RAW,
    {
        proof {
            use_type_invariant(self);
        }
        self.raw
    }
}

/// A CAN identifier in the generic representation: standard or extended.
#[derive(Clone, Copy, Debug, PartialEq, Eq)]
pub enum GenericId {
    Standard(GenericStandardId),
    Extended(GenericExtendedId),
}

impl GenericId {
    /// Whether this identifier uses the 29-bit extended format.
    pub open spec fn is_extended_spec(self) -> bool {
        self matches GenericId::Extended(_)
    }

    /// The raw numeric value, widened to 32 bits.
    pub open spec fn value_spec(self) -> u32 {
        match self {
            GenericId::Standard(id) => id.raw_spec() as u32,
            GenericId::Extended(id) => id.raw_spec(),
        }
    }
}

impl Id {
    /// The generic representation of this identifier: same format, same raw
    /// value.
    pub closed spec fn to_generic_spec(self) -> GenericId {
        match self {
            Id::Standard(id) => GenericId::Standard(GenericStandardId { raw: id.raw_spec() }),
            Id::Extended(id) => GenericId::Extended(GenericExtendedId { raw: id.raw_spec() }),
        }
    }

    /// The internal identifier a generic one stands for: same format, same
    /// raw value.
    pub closed spec fn from_generic_spec(generic: GenericId) -> Id {
        match generic {
            GenericId::Standard(id) => Id::Standard(StandardId { raw: id.raw_spec() }),
            GenericId::Extended(id) => Id::Extended(ExtendedId { raw: id.raw_spec() }),
        }
    }

    /// Converts to the generic representation. Both sides enforce the same
    /// range bounds, so the conversion is total and lossless and needs no
    /// re-validation.
    pub fn to_generic(self) -> (generic: GenericId)
        ensures
            generic == self.to_generic_spec(),
            generic.is_extended_spec() == self.is_extended_spec(),
            generic.value_spec() == self.value_spec(),
    {
        match self {
            Id::Standard(id) => {
                proof {
                    use_type_invariant(id);
                }
                GenericId::Standard(GenericStandardId { raw: id.as_raw() })
            },
            Id::Extended(id) => {
                proof {
                    use_type_invariant(id);
                }
                GenericId::Extended(GenericExtendedId { raw: id.as_raw() })
            },
        }
    }

    /// Converts from the generic representation. The generic constructors
    /// are the trust boundary: they enforce the same range bounds as the
    /// internal ones, so this direction is also total — a checked,
    /// non-panicking path with no numeric reinterpretation.
    pub fn from_generic(generic: GenericId) -> (id: Id)
        ensures
            id == Id::from_generic_spec(generic),
            id.is_extended_spec() == generic.is_extended_spec(),
            id.value_spec() == generic.value_spec(),
    {
        match generic {
            GenericId::Standard(g) => {
                proof {
                    use_type_invariant(g);
                }
                Id::Standard(StandardId { raw: g.as_raw() })
            },
            GenericId::Extended(g) => {
                proof {
                    use_type_invariant(g);
                }
                Id::Extended(ExtendedId { raw: g.as_raw() })
            },
        }
    }
}

/// Converting an internal identifier to the generic representation and back
/// yields the original identifier, for both standard and extended kinds.
pub proof fn lemma_generic_round_trip(id: Id)
    ensures
        Id::from_generic_spec(id.to_generic_spec()) == id,
{
}

/// Converting a generic identifier to the internal representation and back
/// yields the original generic identifier, for both kinds.
pub proof fn lemma_generic_round_trip_back(generic: GenericId)
    ensures
        Id::from_generic_spec(generic).to_generic_spec() == generic,
{
}

} // verus!
