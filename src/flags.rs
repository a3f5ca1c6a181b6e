use vstd::prelude::*;

verus! {

/// Bit of an in-memory subrequest: its output is kept in memory rather than
/// sent to the client.
pub const SUBREQUEST_IN_MEMORY: u32 = 2;
/// Bit of a waited subrequest: its done flag is set even when it is not
/// active when finalized.
pub const SUBREQUEST_WAITED: u32 = 4;
/// Bit of a cloned subrequest: it starts at the parent's location and phase.
pub const SUBREQUEST_CLONE: u32 = 8;
/// Bit of a background subrequest: it blocks no other request.
pub const SUBREQUEST_BACKGROUND: u32 = 16;

/// A set of subrequest control flags, as the bitmask nginx takes.
#[derive(PartialEq, Eq, Structural, Clone, Copy, Debug)]
pub struct SubrequestFlags(pub u32);

impl SubrequestFlags {
    /// No flag set.
    pub fn none() -> (r: SubrequestFlags)
        ensures
            r.0 == 0,
    {
        SubrequestFlags(0)
    }

    /// Only the in-memory flag.
    pub fn in_memory() -> (r: SubrequestFlags)
        ensures
            r.0 == SUBREQUEST_IN_MEMORY,
    {
        SubrequestFlags(SUBREQUEST_IN_MEMORY)
    }

    /// Only the waited flag.
    pub fn waited() -> (r: SubrequestFlags)
        ensures
            r.0 == SUBREQUEST_WAITED,
    {
        SubrequestFlags(SUBREQUEST_WAITED)
    }

    /// Only the clone flag.
    pub fn clone_parent() -> (r: SubrequestFlags)
        ensures
            r.0 == SUBREQUEST_CLONE,
    {
        SubrequestFlags(SUBREQUEST_CLONE)
    }

    /// Only the background flag.
    pub fn background() -> (r: SubrequestFlags)
        ensures
            r.0 == SUBREQUEST_BACKGROUND,
    {
        SubrequestFlags(SUBREQUEST_BACKGROUND)
    }

    /// The raw bitmask.
    pub fn bits(&self) -> (r: u32)
        ensures
            r == self.0,
    {
        self.0
    }

    /// Is any bit of `flag` set here?
    pub fn has_flag(&self, flag: SubrequestFlags) -> (r: bool)
        ensures
            r == (self.0 & flag.0 != 0),
    {
        self.0 & flag.0 != 0
    }
}

impl core::ops::BitAnd for SubrequestFlags {
    type Output = SubrequestFlags;

    fn bitand(self, rhs: SubrequestFlags) -> (r: SubrequestFlags)
        ensures
            r.0 == self.0 & rhs.0,
    {
        SubrequestFlags(self.0 & rhs.0)
    }
}

impl core::ops::BitOr for SubrequestFlags {
    type Output = SubrequestFlags;

    fn bitor(self, rhs: SubrequestFlags) -> (r: SubrequestFlags)
        ensures
            r.0 == self.0 | rhs.0,
    {
        SubrequestFlags(self.0 | rhs.0)
    }
}

impl core::ops::BitXor for SubrequestFlags {
    type Output = SubrequestFlags;

    fn bitxor(self, rhs: SubrequestFlags) -> (r: SubrequestFlags)
        ensures
            r.0 == self.0 ^ rhs.0,
    {
        SubrequestFlags(self.0 ^ rhs.0)
    }
}

impl core::ops::Not for SubrequestFlags {
    type Output = SubrequestFlags;

    fn not(self) -> (r: SubrequestFlags)
        ensures
            r.0 == !self.0,
    {
        SubrequestFlags(!self.0)
    }
}

impl core::ops::BitAndAssign for SubrequestFlags {
    fn bitand_assign(&mut self, rhs: SubrequestFlags)
        ensures
            final(self).0 == old(self).0 & rhs.0,
    {
        self.0 = self.0 & rhs.0;
    }
}

impl core::ops::BitOrAssign for SubrequestFlags {
    fn bitor_assign(&mut self, rhs: SubrequestFlags)
        ensures
            final(self).0 == old(self).0 | rhs.0,
    {
        self.0 = self.0 | rhs.0;
    }
}

impl core::ops::BitXorAssign for SubrequestFlags {
    fn bitxor_assign(&mut self, rhs: SubrequestFlags)
        ensures
            final(self).0 == old(self).0 ^ rhs.0,
    {
        self.0 = self.0 ^ rhs.0;
    }
}

impl vstd::std_specs::ops::BitAndSpecImpl for SubrequestFlags {
    open spec fn obeys_bitand_spec() -> bool {
        true
    }

    open spec fn bitand_req(self, rhs: SubrequestFlags) -> bool {
        true
    }

    open spec fn bitand_spec(self, rhs: SubrequestFlags) -> SubrequestFlags {
        SubrequestFlags(self.0 & rhs.0)
    }
}

impl vstd::std_specs::ops::BitOrSpecImpl for SubrequestFlags {
    open spec fn obeys_bitor_spec() -> bool {
        true
    }

    open spec fn bitor_req(self, rhs: SubrequestFlags) -> bool {
        true
    }

    open spec fn bitor_spec(self, rhs: SubrequestFlags) -> SubrequestFlags {
        SubrequestFlags(self.0 | rhs.0)
    }
}

impl vstd::std_specs::ops::BitXorSpecImpl for SubrequestFlags {
    open spec fn obeys_bitxor_spec() -> bool {
        true
    }

    open spec fn bitxor_req(self, rhs: SubrequestFlags) -> bool {
        true
    }

    open spec fn bitxor_spec(self, rhs: SubrequestFlags) -> SubrequestFlags {
        SubrequestFlags(self.0 ^ rhs.0)
    }
}

impl vstd::std_specs::ops::NotSpecImpl for SubrequestFlags {
    open spec fn obeys_not_spec() -> bool {
        true
    }

    open spec fn not_req(self) -> bool {
        true
    }

    open spec fn not_spec(self) -> SubrequestFlags {
        SubrequestFlags(!self.0)
    }
}

impl From<SubrequestFlags> for u32 {
    fn from(flags: SubrequestFlags) -> (r: u32) {
        flags.0
    }
}

impl vstd::std_specs::convert::FromSpecImpl<SubrequestFlags> for u32 {
    open spec fn obeys_from_spec() -> bool {
        true
    }

    open spec fn from_spec(flags: SubrequestFlags) -> u32 {
        flags.0
    }
}

} // verus!
