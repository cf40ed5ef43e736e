use vstd::prelude::*;

verus! {

/// Identifies one fork of a physical relation.
#[derive(Debug, Clone, Copy, PartialEq, Eq, Structural, Hash)]
pub struct RelTag {
    pub forknum: u8,
    pub spcnode: u32,
    pub dbnode: u32,
    pub relnode: u32,
}

/// The kinds of SLRU segment that can be addressed.
#[derive(Debug, Clone, Copy, PartialEq, Eq, Structural, Hash)]
pub enum SlruKind {
    Clog,
    MultiXactMembers,
    MultiXactOffsets,
}

impl SlruKind {
    /// The byte that stands for the kind on the wire.
    pub open spec fn code(self) -> u8 {
        match self {
            SlruKind::Clog => 0,
            SlruKind::MultiXactMembers => 1,
            SlruKind::MultiXactOffsets => 2,
        }
    }

    /// The kind that a byte stands for, if any.
    pub open spec fn of_code(b: u8) -> Option<SlruKind> {
        if b == 0 {
            Some(SlruKind::Clog)
        } else if b == 1 {
            Some(SlruKind::MultiXactMembers)
        } else if b == 2 {
            Some(SlruKind::MultiXactOffsets)
        } else {
            None
        }
    }

    pub fn to_u8(self) -> (r: u8)
        ensures
            r == self.code(),
    {
        match self {
            SlruKind::Clog => 0,
            SlruKind::MultiXactMembers => 1,
            SlruKind::MultiXactOffsets => 2,
        }
    }

    /// Reads a kind back from its byte; bytes past the last kind stand for none.
    pub fn from_u8(b: u8) -> (r: Option<SlruKind>)
        ensures
            r == SlruKind::of_code(b),
            r is None <==> b > 2,
    {
        match b {
            0 => Some(SlruKind::Clog),
            1 => Some(SlruKind::MultiXactMembers),
            2 => Some(SlruKind::MultiXactOffsets),
            _ => None,
        }
    }

    /// Every kind is read back from its own byte.
    pub proof fn lemma_code_round_trip(self)
        ensures
            SlruKind::of_code(self.code()) == Some(self),
    {
    }
}

} // verus!
