//! The errors the decoder can report, one enum per layer: the
//! container check, the byte-stream primitives, single tags, and the
//! structural rules of the scope walk.

use vstd::prelude::*;

pub use crate::read::ReadError;

verus! {

/// Rejection of the whole attributes blob before any tag is read: it
/// is empty, or its version byte is not the ASCII marker `A`.
#[derive(Clone, Copy, PartialEq, Eq, Debug, Structural)]
pub enum BuildAttrError {
    NoData,
    IncompatibleVersion(u8),
}

/// Failure to decode one tag record: a tag number outside the fixed
/// table, a failed primitive read, or a malformed nested or terminator
/// byte.
#[derive(Clone, Copy, PartialEq, Eq, Debug, Structural)]
pub enum TagError {
    IncompatibleTagValue(u8),
    Read(ReadError),
    InvalidScopeTag,
    ExpectedNull,
    NestedScopeTag,
}

/// Failure to build the resolved attribute tree for a subsection: a
/// vendor other than `aeabi`, a tag-level error, or a violation of the
/// File/Section/Symbol structural rules.
#[derive(Clone, PartialEq, Eq, Debug)]
pub enum PublicAttrsError {
    InvalidName(String),
    Tag(TagError),
    NoTags,
    NoFileTag,
    DuplicateFileTag,
    NotFileScope,
    NotSectionScope,
    ScopeEndsBeforeParent,
}

/// Mathematical model of a `PublicAttrsError`: the vendor name is a
/// character sequence.
pub enum PublicAttrsErrorM {
    InvalidName(Seq<char>),
    Tag(TagError),
    NoTags,
    NoFileTag,
    DuplicateFileTag,
    NotFileScope,
    NotSectionScope,
    ScopeEndsBeforeParent,
}

impl View for PublicAttrsError {
    type V = PublicAttrsErrorM;

    open spec fn view(&self) -> PublicAttrsErrorM {
        match self {
            PublicAttrsError::InvalidName(s) => PublicAttrsErrorM::InvalidName(s@),
            PublicAttrsError::Tag(t) => PublicAttrsErrorM::Tag(*t),
            PublicAttrsError::NoTags => PublicAttrsErrorM::NoTags,
            PublicAttrsError::NoFileTag => PublicAttrsErrorM::NoFileTag,
            PublicAttrsError::DuplicateFileTag => PublicAttrsErrorM::DuplicateFileTag,
            PublicAttrsError::NotFileScope => PublicAttrsErrorM::NotFileScope,
            PublicAttrsError::NotSectionScope => PublicAttrsErrorM::NotSectionScope,
            PublicAttrsError::ScopeEndsBeforeParent => PublicAttrsErrorM::ScopeEndsBeforeParent,
        }
    }
}

} // verus!
