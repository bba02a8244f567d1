use vstd::prelude::*;

verus! {

/// Bit assigned to each pseudo-class flag.
pub const HOVER_BIT: u8 = 0x01;

pub const OVER_BIT: u8 = 0x02;

pub const ACTIVE_BIT: u8 = 0x04;

pub const FOCUS_BIT: u8 = 0x08;

pub const ENABLED_BIT: u8 = 0x10;

pub const DISABLED_BIT: u8 = 0x20;

pub const CHECKED_BIT: u8 = 0x40;

/// Compact set of transient state flags on an entity (hover, over, active,
/// focus, enabled, disabled, checked), one bit each; the eighth bit is
/// reserved.
///
/// Interaction code outside the core sets and clears the flags; selector
/// matching only reads them.
#[derive(Clone, Copy, PartialEq, Eq, Structural, Debug)]
pub struct PseudoClasses(pub u8);

/// Number of flags set in `mask`: the pseudo-class share of a selector's
/// class-and-pseudo specificity tier.
pub open spec fn spec_pseudo_weight(mask: u8) -> int {
    (if mask & 0x01 != 0 { 1int } else { 0int }) + (if mask & 0x02 != 0 { 1int } else { 0int }) + (
    if mask & 0x04 != 0 { 1int } else { 0int }) + (if mask & 0x08 != 0 { 1int } else { 0int }) + (
    if mask & 0x10 != 0 { 1int } else { 0int }) + (if mask & 0x20 != 0 { 1int } else { 0int }) + (
    if mask & 0x40 != 0 { 1int } else { 0int }) + (if mask & 0x80 != 0 { 1int } else { 0int })
}

impl Default for PseudoClasses {
    /// The empty flag set.
    fn default() -> (r: Self)
        ensures
            r.0 == 0,
    {
        PseudoClasses(0)
    }
}

impl PseudoClasses {
    pub fn new() -> (r: Self)
        ensures
            r.0 == 0,
    {
        PseudoClasses(0)
    }

    /// Number of flags set.
    pub fn weight(&self) -> (w: u8)
        ensures
            w == spec_pseudo_weight(self.0),
    {
        (if self.0 & 0x01 != 0 { 1u8 } else { 0u8 }) + (if self.0 & 0x02 != 0 { 1u8 } else { 0u8 })
            + (if self.0 & 0x04 != 0 { 1u8 } else { 0u8 }) + (
        if self.0 & 0x08 != 0 { 1u8 } else { 0u8 }) + (if self.0 & 0x10 != 0 { 1u8 } else { 0u8 })
            + (if self.0 & 0x20 != 0 { 1u8 } else { 0u8 }) + (
        if self.0 & 0x40 != 0 { 1u8 } else { 0u8 }) + (if self.0 & 0x80 != 0 { 1u8 } else { 0u8 })
    }

    pub fn set_hover(&mut self, flag: bool)
        ensures
            final(self).0 == if flag {
                old(self).0 | HOVER_BIT
            } else {
                old(self).0 & !HOVER_BIT
            },
    {
        if flag {
            self.0 = self.0 | HOVER_BIT;
        } else {
            self.0 = self.0 & !HOVER_BIT;
        }
    }

    pub fn set_over(&mut self, flag: bool)
        ensures
            final(self).0 == if flag {
                old(self).0 | OVER_BIT
            } else {
                old(self).0 & !OVER_BIT
            },
    {
        if flag {
            self.0 = self.0 | OVER_BIT;
        } else {
            self.0 = self.0 & !OVER_BIT;
        }
    }

    pub fn set_active(&mut self, flag: bool)
        ensures
            final(self).0 == if flag {
                old(self).0 | ACTIVE_BIT
            } else {
                old(self).0 & !ACTIVE_BIT
            },
    {
        if flag {
            self.0 = self.0 | ACTIVE_BIT;
        } else {
            self.0 = self.0 & !ACTIVE_BIT;
        }
    }

    pub fn set_focus(&mut self, flag: bool)
        ensures
            final(self).0 == if flag {
                old(self).0 | FOCUS_BIT
            } else {
                old(self).0 & !FOCUS_BIT
            },
    {
        if flag {
            self.0 = self.0 | FOCUS_BIT;
        } else {
            self.0 = self.0 & !FOCUS_BIT;
        }
    }

    pub fn set_enabled(&mut self, flag: bool)
        ensures
            final(self).0 == if flag {
                old(self).0 | ENABLED_BIT
            } else {
                old(self).0 & !ENABLED_BIT
            },
    {
        if flag {
            self.0 = self.0 | ENABLED_BIT;
        } else {
            self.0 = self.0 & !ENABLED_BIT;
        }
    }

    pub fn set_disabled(&mut self, flag: bool)
        ensures
            final(self).0 == if flag {
                old(self).0 | DISABLED_BIT
            } else {
                old(self).0 & !DISABLED_BIT
            },
    {
        if flag {
            self.0 = self.0 | DISABLED_BIT;
        } else {
            self.0 = self.0 & !DISABLED_BIT;
        }
    }

    pub fn set_checked(&mut self, flag: bool)
        ensures
            final(self).0 == if flag {
                old(self).0 | CHECKED_BIT
            } else {
                old(self).0 & !CHECKED_BIT
            },
    {
        if flag {
            self.0 = self.0 | CHECKED_BIT;
        } else {
            self.0 = self.0 & !CHECKED_BIT;
        }
    }
}

} // verus!
