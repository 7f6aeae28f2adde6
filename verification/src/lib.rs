//! Decoder for the ARM EABI build-attributes format: it splits an
//! attributes blob into vendor-named subsections, decodes the `aeabi`
//! tag stream into typed records, tracks the File/Section/Symbol scope
//! nesting, and resolves attribute inheritance across scopes.

pub mod attrs;
pub mod enums;
pub mod error;
#[allow(non_upper_case_globals)]
pub mod globals;
pub mod laws;
pub mod read;
pub mod scope;
pub mod tag;

use vstd::prelude::*;

use crate::error::{BuildAttrError, PublicAttrsError, PublicAttrsErrorM, ReadError};
use crate::read::{read_string, read_u32, spec_read_string, spec_read_u32, str_eq};
use vstd::slice::slice_to_vec;

pub use attrs::Attributes;
pub use read::Endian;
pub use scope::{File, PublicAttrIter, SectionGroup, SymbolGroup};

verus! {

/// An attributes blob together with the byte order its object file
/// declares, validated to be non-empty and to start with the ASCII
/// version marker `A`.
pub struct BuildAttrs {
    data: Vec<u8>,
    endian: Endian,
}

impl BuildAttrs {
    /// The raw bytes of the blob, version byte included.
    pub closed spec fn spec_data(&self) -> Seq<u8> {
        self.data@
    }

    /// The declared byte order.
    pub closed spec fn spec_endian(&self) -> Endian {
        self.endian
    }

    #[verifier::type_invariant]
    spec fn type_inv(self) -> bool {
        self.data@.len() > 0 && self.data@[0] == 65u8
    }

    /// Validate a blob: it must be non-empty and its first byte must be
    /// the ASCII version marker `A`.
    pub fn new(data: Vec<u8>, endian: Endian) -> (r: Result<BuildAttrs, BuildAttrError>)
        ensures
            match r {
                Ok(b) => data@.len() > 0 && data@[0] == 65u8 && b.spec_data() == data@
                    && b.spec_endian() == endian,
                Err(e) => {
                    ||| (data@.len() == 0 && e == BuildAttrError::NoData)
                    ||| (data@.len() > 0 && data@[0] != 65u8 && e
                        == BuildAttrError::IncompatibleVersion(data@[0]))
                },
            },
    {
        if data.len() == 0 {
            Err(BuildAttrError::NoData)
        } else {
            let version = data[0];
            if version != 65 {
                Err(BuildAttrError::IncompatibleVersion(version))
            } else {
                Ok(BuildAttrs { data, endian })
            }
        }
    }

    /// The version byte, which validation pinned to the marker `A`.
    pub fn version(&self) -> (r: u8)
        ensures
            r == self.spec_data()[0] && r == 65u8,
    {
        proof {
            use_type_invariant(self);
        }
        self.data[0]
    }

    /// An iterator over the blob's subsections, which start right after
    /// the version byte.
    pub fn subsections(&self) -> (r: SubsectionIter)
        ensures
            r.spec_data() == self.spec_data().skip(1),
            r.spec_pos() == 0,
            r.spec_endian() == self.spec_endian(),
    {
        proof {
            use_type_invariant(self);
        }
        let rest = slice_to_vec(&self.data.as_slice()[1..self.data.len()]);
        SubsectionIter { data: rest, pos: 0, endian: self.endian }
    }
}

/// Mathematical model of a scanned subsection: its vendor name, its
/// payload bytes, and the byte order it was scanned under.
pub struct SubsectionM {
    pub vendor_name: Seq<char>,
    pub data: Seq<u8>,
    pub endian: Endian,
}

/// One scanning step: the sequence ended cleanly, failed, or yielded a
/// subsection together with the position just past it.
pub enum ScanStep {
    End,
    Fail(ReadError),
    Next(SubsectionM, int),
}

/// The result of scanning for one subsection at `pos`: a clean end
/// exactly at the end of the blob; otherwise a length field, a vendor
/// name and a payload whose declared extent must lie inside the blob.
pub open spec fn spec_scan_subsection(data: Seq<u8>, pos: int, e: Endian) -> ScanStep {
    if pos == data.len() {
        ScanStep::End
    } else {
        match spec_read_u32(data, pos, e) {
            None => ScanStep::Fail(ReadError::Eof),
            Some((length, p1)) => match spec_read_string(data, p1) {
                Err(err) => ScanStep::Fail(err),
                Ok((vendor, p2)) => {
                    if length < p2 - pos || pos + length > data.len() {
                        ScanStep::Fail(ReadError::OutOfBounds)
                    } else {
                        ScanStep::Next(
                            SubsectionM {
                                vendor_name: vendor,
                                data: data.subrange(p2, pos + length),
                                endian: e,
                            },
                            pos + length,
                        )
                    }
                },
            },
        }
    }
}

/// Splits the blob after the version byte into vendor-named,
/// length-framed subsections.
pub struct SubsectionIter {
    data: Vec<u8>,
    pos: usize,
    endian: Endian,
}

impl SubsectionIter {
    /// The bytes being scanned (the blob without its version byte).
    pub closed spec fn spec_data(&self) -> Seq<u8> {
        self.data@
    }

    /// The current scan position.
    pub closed spec fn spec_pos(&self) -> int {
        self.pos as int
    }

    /// The byte order the length fields are read under.
    pub closed spec fn spec_endian(&self) -> Endian {
        self.endian
    }

    #[verifier::type_invariant]
    spec fn type_inv(self) -> bool {
        self.pos <= self.data@.len()
    }

    /// Scan the next subsection. A clean end-of-data exactly where the
    /// next length field would start ends the sequence; any other
    /// truncation or overrun is an error.
    pub fn next(&mut self) -> (r: Option<Result<Subsection, ReadError>>)
        ensures
            final(self).spec_data() == old(self).spec_data(),
            final(self).spec_endian() == old(self).spec_endian(),
            match r {
                None => spec_scan_subsection(
                    old(self).spec_data(),
                    old(self).spec_pos(),
                    old(self).spec_endian(),
                ) == ScanStep::End && final(self).spec_pos() == old(self).spec_pos(),
                Some(Ok(sub)) => spec_scan_subsection(
                    old(self).spec_data(),
                    old(self).spec_pos(),
                    old(self).spec_endian(),
                ) == ScanStep::Next(sub@, final(self).spec_pos()),
                Some(Err(err)) => spec_scan_subsection(
                    old(self).spec_data(),
                    old(self).spec_pos(),
                    old(self).spec_endian(),
                ) == ScanStep::Fail(err) && final(self).spec_pos() == old(self).spec_pos(),
            },
    {
        proof {
            use_type_invariant(&*self);
        }
        let n = self.data.len();
        if self.pos == n {
            return None;
        }
        let (length, p1) = match read_u32(self.data.as_slice(), self.pos, self.endian) {
            Ok(v) => v,
            Err(err) => {
                return Some(Err(err));
            },
        };
        let (vendor, p2) = match read_string(self.data.as_slice(), p1) {
            Ok(v) => v,
            Err(err) => {
                return Some(Err(err));
            },
        };
        let header = p2 - self.pos;
        if (length as usize) < header || length as usize > n - self.pos {
            return Some(Err(ReadError::OutOfBounds));
        }
        let end = self.pos + length as usize;
        let payload = slice_to_vec(&self.data.as_slice()[p2..end]);
        self.pos = end;
        Some(Ok(Subsection { data: payload, endian: self.endian, vendor_name: vendor }))
    }
}

/// One vendor-named, length-framed subsection of the blob. Only the
/// vendor name `aeabi` is decoded further; any other subsection is
/// passed through unmodified.
pub struct Subsection {
    data: Vec<u8>,
    endian: Endian,
    vendor_name: String,
}

impl View for Subsection {
    type V = SubsectionM;

    closed spec fn view(&self) -> SubsectionM {
        SubsectionM { vendor_name: self.vendor_name@, data: self.data@, endian: self.endian }
    }
}

impl Subsection {
    #[verifier::type_invariant]
    spec fn type_inv(self) -> bool {
        self.data@.len() <= u32::MAX
    }

    /// Whether this subsection carries the ARM-defined `aeabi` tags.
    pub fn is_aeabi(&self) -> (r: bool)
        ensures
            r == (self@.vendor_name == "aeabi"@),
    {
        str_eq(self.vendor_name.as_str(), "aeabi")
    }

    /// The payload bytes.
    pub fn data(&self) -> (r: &[u8])
        ensures
            r@ == self@.data,
    {
        self.data.as_slice()
    }

    /// The byte order this subsection was scanned under.
    pub fn endian(&self) -> (r: Endian)
        ensures
            r == self@.endian,
    {
        self.endian
    }

    /// The vendor name.
    pub fn vendor_name(&self) -> (r: &str)
        ensures
            r@ == self@.vendor_name,
    {
        self.vendor_name.as_str()
    }

    /// An iterator over this subsection's tag records, for callers that
    /// want a custom aggregation. Only the vendor name `aeabi` carries
    /// this tag grammar; any other name is rejected, carried in the
    /// error verbatim.
    pub fn into_public_attr_iter(self) -> (r: Result<PublicAttrIter, PublicAttrsError>)
        ensures
            match r {
                Ok(it) => self@.vendor_name == "aeabi"@ && it.spec_data() == self@.data
                    && it.spec_pos() == 0 && it.spec_endian() == self@.endian,
                Err(e) => self@.vendor_name != "aeabi"@ && (e@ matches
                PublicAttrsErrorM::InvalidName(n) && n == self@.vendor_name),
            },
    {
        proof {
            use_type_invariant(&self);
        }
        if self.is_aeabi() {
            Ok(PublicAttrIter::new(self.data, self.endian))
        } else {
            Err(PublicAttrsError::InvalidName(self.vendor_name))
        }
    }

    /// Decode this subsection's whole tag stream into the resolved
    /// File/Section/Symbol attribute tree. Only the vendor name `aeabi`
    /// is accepted; the first tag must be a File tag whose declared
    /// size equals the payload length, and the tree is handed back
    /// after the single inheritance-resolution pass.
    pub fn into_public_attributes(self) -> (r: Result<File, PublicAttrsError>)
        ensures
            ({
                let m = scope::spec_build_attributes(self@.data, self@.endian);
                match r {
                    Ok(f) => self@.vendor_name == "aeabi"@ && m == Ok::<
                        scope::FileM,
                        PublicAttrsErrorM,
                    >(f@),
                    Err(e) => if self@.vendor_name != "aeabi"@ {
                        e@ matches PublicAttrsErrorM::InvalidName(n) && n == self@.vendor_name
                    } else {
                        m == Err::<scope::FileM, PublicAttrsErrorM>(e@)
                    },
                }
            }),
    {
        proof {
            use_type_invariant(&self);
        }
        if self.is_aeabi() {
            scope::build_attributes(self.data, self.endian)
        } else {
            Err(PublicAttrsError::InvalidName(self.vendor_name))
        }
    }
}

} // verus!
