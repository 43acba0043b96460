//! The VXLAN Network Identifier ([`Vni`]): a non-zero 24-bit value.

use vstd::prelude::*;

verus! {

/// The smallest legal VNI value.
pub const VNI_MIN: u32 = 1;

/// The largest legal VNI value, 2^24 - 1.
pub const VNI_MAX: u32 = 0x00FF_FFFF;

/// Whether `value` may be held by a [`Vni`].
pub open spec fn is_legal_vni(value: u32) -> bool {
    VNI_MIN <= value <= VNI_MAX
}

/// A VXLAN Network Identifier: a 24-bit value in `1..=2^24 - 1`.
///
/// Zero is reserved and values above 2^24 - 1 do not fit the header field, so
/// a `Vni` can only be obtained through [`Vni::new_checked`] (or `try_from`),
/// which refuses them.
#[derive(Clone, Copy, Debug, PartialEq, Eq, Structural, Hash, PartialOrd, Ord)]
pub struct Vni {
    value: u32,
}

/// Why a `u32` was refused as a [`Vni`].
#[derive(Clone, Copy, Debug, PartialEq, Eq, Structural, Hash, PartialOrd, Ord)]
pub enum InvalidVni {
    /// Zero is reserved by many implementations.
    ReservedZero,
    /// The value (carried here) is larger than [`VNI_MAX`].
    TooLarge(u32),
}

/// The outcome that [`Vni::new_checked`] gives for `value`, with the VNI taken
/// by its numeric value.
pub open spec fn spec_new_checked(value: u32) -> Result<u32, InvalidVni> {
    if value == 0 {
        Err(InvalidVni::ReservedZero)
    } else if value > VNI_MAX {
        Err(InvalidVni::TooLarge(value))
    } else {
        Ok(value)
    }
}

impl View for Vni {
    type V = u32;

    closed spec fn view(&self) -> u32 {
        self.value
    }
}

impl Vni {
    #[verifier::type_invariant]
    spec fn legal(self) -> bool {
        is_legal_vni(self.value)
    }

    /// The minimum legal [`Vni`] value (1).
    pub const MIN: u32 = 1;

    /// The maximum legal [`Vni`] value (2^24 - 1).
    pub const MAX: u32 = 0x00FF_FFFF;

    /// Create a [`Vni`] from a `u32`.
    ///
    /// Returns [`InvalidVni::ReservedZero`] for 0 and [`InvalidVni::TooLarge`]
    /// for any value above [`Vni::MAX`].
    pub fn new_checked(vni: u32) -> (res: Result<Vni, InvalidVni>)
        ensures
            match res {
                Ok(v) => spec_new_checked(vni) == Ok::<u32, InvalidVni>(v@),
                Err(e) => spec_new_checked(vni) == Err::<u32, InvalidVni>(e),
            },
    {
        if vni == 0 {
            Err(InvalidVni::ReservedZero)
        } else if vni > Vni::MAX {
            Err(InvalidVni::TooLarge(vni))
        } else {
            Ok(Vni { value: vni })
        }
    }

    /// The value of this [`Vni`] as a `u32`; always in `1..=Vni::MAX`.
    pub fn as_u32(self) -> (res: u32)
        ensures
            res == self@,
            is_legal_vni(res),
    {
        proof {
            use_type_invariant(&self);
        }
        self.value
    }
}

impl From<Vni> for u32 {
    fn from(vni: Vni) -> (res: u32) {
        vni.as_u32()
    }
}

impl vstd::std_specs::convert::FromSpecImpl<Vni> for u32 {
    open spec fn obeys_from_spec() -> bool {
        true
    }

    open spec fn from_spec(vni: Vni) -> u32 {
        vni@
    }
}

impl TryFrom<u32> for Vni {
    type Error = InvalidVni;

    fn try_from(vni: u32) -> (res: Result<Vni, InvalidVni>)
        ensures
            match res {
                Ok(v) => spec_new_checked(vni) == Ok::<u32, InvalidVni>(v@),
                Err(e) => spec_new_checked(vni) == Err::<u32, InvalidVni>(e),
            },
    {
        Vni::new_checked(vni)
    }
}

impl vstd::std_specs::convert::TryFromSpecImpl<u32> for Vni {
    open spec fn obeys_try_from_spec() -> bool {
        true
    }

    closed spec fn try_from_spec(vni: u32) -> Result<Vni, InvalidVni> {
        match spec_new_checked(vni) {
            Ok(value) => Ok(Vni { value }),
            Err(e) => Err(e),
        }
    }
}

} // verus!
