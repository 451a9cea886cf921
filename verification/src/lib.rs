//! A five-valued "tri-state Boolean" value type, modeled on the legacy
//! office-automation constant set, with verified conversions to and from a
//! native two-valued `bool` and a canonical textual rendering.
//!
//! Exactly two variants (`msoFalse`, `msoTrue`) carry a definite boolean
//! meaning; the other three are reserved sentinels that are never silently
//! coerced: narrowing them reports [`UnsupportedConversion`] instead.

use vstd::prelude::*;

verus! {

/// Specifies a tri-state Boolean value.
///
/// The variant set is closed: exactly these five values exist, each with a
/// fixed legacy numeric code (see [`MsoTriState::code`]) and a canonical
/// display string identical to its variant name (see [`MsoTriState::display`]).
#[derive(Debug, Clone, Copy, PartialEq, Eq, Structural)]
#[allow(non_camel_case_types)]
pub enum MsoTriState {
    /// Not supported: reserved sentinel, not convertible to a boolean.
    msoCTrue,
    /// Logical false.
    msoFalse,
    /// Not supported: an indeterminate state, not convertible to a boolean.
    msoTriStateMixed,
    /// Not supported: "invert current state", not convertible to a boolean.
    msoTriStateToggle,
    /// Logical true.
    msoTrue,
}

/// The error reported when one of the three reserved sentinel variants is
/// narrowed to a native boolean. It names the offending variant.
#[derive(Debug, Clone, Copy, PartialEq, Eq, Structural)]
pub struct UnsupportedConversion {
    /// The variant on which the narrowing conversion was attempted.
    pub variant: MsoTriState,
}

/// The fixed signed integer code of each variant, kept for interoperability
/// with the legacy numeric encoding.
pub open spec fn code_of(t: MsoTriState) -> int {
    match t {
        MsoTriState::msoCTrue => 1,
        MsoTriState::msoFalse => 0,
        MsoTriState::msoTriStateMixed => -2,
        MsoTriState::msoTriStateToggle => -3,
        MsoTriState::msoTrue => -1,
    }
}

/// Whether a variant has a definite boolean meaning. Exactly `msoFalse` and
/// `msoTrue` do; the three sentinels do not.
pub open spec fn boolean_convertible(t: MsoTriState) -> bool {
    t == MsoTriState::msoFalse || t == MsoTriState::msoTrue
}

/// The variant that stands for a native boolean.
pub open spec fn from_bool_spec(b: bool) -> MsoTriState {
    if b {
        MsoTriState::msoTrue
    } else {
        MsoTriState::msoFalse
    }
}

/// The result of narrowing a variant to a native boolean: defined for the two
/// boolean-convertible variants, and an error naming the variant otherwise.
pub open spec fn to_bool_spec(t: MsoTriState) -> Result<bool, UnsupportedConversion> {
    match t {
        MsoTriState::msoCTrue => Err(UnsupportedConversion { variant: t }),
        MsoTriState::msoFalse => Ok(false),
        MsoTriState::msoTriStateMixed => Err(UnsupportedConversion { variant: t }),
        MsoTriState::msoTriStateToggle => Err(UnsupportedConversion { variant: t }),
        MsoTriState::msoTrue => Ok(true),
    }
}

/// The canonical display string of each variant: its name, verbatim.
pub open spec fn display_spec(t: MsoTriState) -> Seq<char> {
    match t {
        MsoTriState::msoCTrue => "msoCTrue"@,
        MsoTriState::msoFalse => "msoFalse"@,
        MsoTriState::msoTriStateMixed => "msoTriStateMixed"@,
        MsoTriState::msoTriStateToggle => "msoTriStateToggle"@,
        MsoTriState::msoTrue => "msoTrue"@,
    }
}

impl MsoTriState {
    /// Widens a native boolean: `true` becomes `msoTrue`, `false` becomes
    /// `msoFalse`. Total; never yields a sentinel variant.
    pub fn from_bool(b: bool) -> (r: MsoTriState)
        ensures
            r == from_bool_spec(b),
            boolean_convertible(r),
    {
        if b {
            MsoTriState::msoTrue
        } else {
            MsoTriState::msoFalse
        }
    }

    /// Narrows to a native boolean. Returns `Ok(false)` for `msoFalse` and
    /// `Ok(true)` for `msoTrue`; for each of the three reserved sentinels it
    /// refuses with an [`UnsupportedConversion`] naming the variant, rather
    /// than guess a boolean meaning.
    pub fn to_bool(self) -> (r: Result<bool, UnsupportedConversion>)
        ensures
            r == to_bool_spec(self),
            r is Ok <==> boolean_convertible(self),
    {
        match self {
            MsoTriState::msoCTrue => Err(UnsupportedConversion { variant: self }),
            MsoTriState::msoFalse => Ok(false),
            MsoTriState::msoTriStateMixed => Err(UnsupportedConversion { variant: self }),
            MsoTriState::msoTriStateToggle => Err(UnsupportedConversion { variant: self }),
            MsoTriState::msoTrue => Ok(true),
        }
    }

    /// The canonical display string: the variant's name, spelled exactly as
    /// the legacy constant set spells it. Total.
    pub fn display(self) -> (r: String)
        ensures
            r@ == display_spec(self),
    {
        match self {
            MsoTriState::msoCTrue => "msoCTrue".to_owned(),
            MsoTriState::msoFalse => "msoFalse".to_owned(),
            MsoTriState::msoTriStateMixed => "msoTriStateMixed".to_owned(),
            MsoTriState::msoTriStateToggle => "msoTriStateToggle".to_owned(),
            MsoTriState::msoTrue => "msoTrue".to_owned(),
        }
    }

    /// The fixed legacy numeric code of this variant.
    pub fn code(self) -> (r: i32)
        ensures
            r as int == code_of(self),
    {
        match self {
            MsoTriState::msoCTrue => 1,
            MsoTriState::msoFalse => 0,
            MsoTriState::msoTriStateMixed => -2,
            MsoTriState::msoTriStateToggle => -3,
            MsoTriState::msoTrue => -1,
        }
    }
}

impl From<bool> for MsoTriState {
    /// Same widening as [`MsoTriState::from_bool`].
    fn from(b: bool) -> (r: MsoTriState) {
        MsoTriState::from_bool(b)
    }
}

impl vstd::std_specs::convert::FromSpecImpl<bool> for MsoTriState {
    open spec fn obeys_from_spec() -> bool {
        true
    }

    open spec fn from_spec(b: bool) -> MsoTriState {
        from_bool_spec(b)
    }
}

/// Round-trip law: narrowing after widening returns the original boolean,
/// for every boolean.
pub proof fn lemma_bool_round_trip(b: bool)
    ensures
        to_bool_spec(from_bool_spec(b)) == Ok::<bool, UnsupportedConversion>(b),
{
}

/// The variant set is closed: every value is one of the five named variants,
/// so both the narrowing conversion and the display routine handle the whole
/// set exhaustively.
pub proof fn lemma_variant_set_closed(t: MsoTriState)
    ensures
        t == MsoTriState::msoCTrue || t == MsoTriState::msoFalse
            || t == MsoTriState::msoTriStateMixed || t == MsoTriState::msoTriStateToggle
            || t == MsoTriState::msoTrue,
{
}

} // verus!
