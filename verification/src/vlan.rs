//! The 802.1Q VLAN tag, as far as this library reads and writes it.

use crate::eth::EthType;
use vstd::prelude::*;

verus! {

/// The smallest usable VLAN id.
pub const VID_MIN: u16 = 1;

/// The largest usable VLAN id (4095 is reserved).
pub const VID_MAX: u16 = 4094;

/// The largest priority code point (three bits).
pub const PCP_MAX: u8 = 7;

/// A VLAN id in `1..=4094`.
#[derive(Clone, Copy, Debug, PartialEq, Eq, Structural, Hash)]
pub struct Vid {
    vid: u16,
}

impl View for Vid {
    type V = u16;

    closed spec fn view(&self) -> u16 {
        self.vid
    }
}

impl Vid {
    #[verifier::type_invariant]
    spec fn usable(self) -> bool {
        VID_MIN <= self.vid <= VID_MAX
    }

    /// The VLAN id `vid`, or `None` when it is 0 or above [`VID_MAX`].
    pub fn new_checked(vid: u16) -> (res: Option<Vid>)
        ensures
            (VID_MIN <= vid <= VID_MAX) <==> res is Some,
            res matches Some(v) ==> v@ == vid,
    {
        if VID_MIN <= vid && vid <= VID_MAX {
            Some(Vid { vid })
        } else {
            None
        }
    }

    /// The VLAN id as a number in `1..=4094`.
    pub fn as_u16(self) -> (res: u16)
        ensures
            res == self@,
            VID_MIN <= res <= VID_MAX,
    {
        proof {
            use_type_invariant(&self);
        }
        self.vid
    }
}

/// An 802.1p priority code point in `0..=7`.
#[derive(Clone, Copy, Debug, PartialEq, Eq, Structural, Hash)]
pub struct Pcp {
    pcp: u8,
}

impl View for Pcp {
    type V = u8;

    closed spec fn view(&self) -> u8 {
        self.pcp
    }
}

impl Pcp {
    #[verifier::type_invariant]
    spec fn three_bits(self) -> bool {
        self.pcp <= PCP_MAX
    }

    /// The priority code point `pcp`, or `None` when it does not fit three bits.
    pub fn new_checked(pcp: u8) -> (res: Option<Pcp>)
        ensures
            (pcp <= PCP_MAX) <==> res is Some,
            res matches Some(p) ==> p@ == pcp,
    {
        if pcp <= PCP_MAX {
            Some(Pcp { pcp })
        } else {
            None
        }
    }

    /// The lowest priority, in specifications.
    pub closed spec fn spec_lowest() -> Pcp {
        Pcp { pcp: 0 }
    }

    /// The lowest priority, 0.
    pub fn lowest() -> (res: Pcp)
        ensures
            res == Pcp::spec_lowest(),
            res@ == 0,
    {
        Pcp { pcp: 0 }
    }
}

/// An 802.1Q VLAN tag: VLAN id, priority, drop eligibility and the ethertype of
/// what the tag encloses.
#[derive(Clone, Copy, Debug, PartialEq, Eq, Structural, Hash)]
pub struct Vlan {
    /// The VLAN id.
    pub vid: Vid,
    /// The priority code point.
    pub pcp: Pcp,
    /// The drop eligible indicator.
    pub dei: bool,
    /// The ethertype of the header the tag encloses.
    pub inner_ethtype: EthType,
}

impl Vlan {
    /// A VLAN tag for `vid` enclosing `inner_ethtype`.
    pub fn new(vid: Vid, inner_ethtype: EthType, pcp: Pcp, dei: bool) -> (res: Vlan)
        ensures
            res == (Vlan { vid, pcp, dei, inner_ethtype }),
    {
        Vlan { vid, pcp, dei, inner_ethtype }
    }

    /// The ethertype of the header the tag encloses.
    pub fn inner_ethtype(&self) -> (res: EthType)
        ensures
            res == self.inner_ethtype,
    {
        self.inner_ethtype
    }
}

} // verus!
