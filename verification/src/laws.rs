//! Global laws of the decoder, stated over its mathematical model and
//! proved once and for all: when a payload decodes, what resolution
//! leaves in each scope, that decoding is deterministic, and how
//! subsection framing is bounded by the buffer.

use vstd::prelude::*;

use crate::attrs::{lemma_inherit_of_empty, AttrsM};
use crate::error::PublicAttrsErrorM;
use crate::read::{spec_read_string, spec_read_u32, ReadError};
use crate::scope::{spec_build_attributes, spec_resolve, spec_walk, FileM, ScopeM};
use crate::{ScanStep, SubsectionM};
use crate::tag::{spec_read_tag, TagM};
use crate::Endian;

verus! {

/// A declared File size that matches the payload length exactly is what
/// gates decoding: with it, a payload whose tag stream walks through
/// decodes, and the root File scope is the decoded tree's own
/// attributes; a mismatched size is rejected before any tag stream is
/// walked, and a first tag that is not a File tag is rejected outright.
pub proof fn lemma_file_size_gates_decode(data: Seq<u8>, e: Endian)
    requires
        data.len() > 0,
        spec_read_tag(data, 0, e) is Ok,
    ensures
        ({
            let (t, p1) = spec_read_tag(data, 0, e)->Ok_0;
            match t {
                TagM::File { size } => {
                    let walked = spec_walk(data, e, p1, FileM::spec_empty(), ScopeM::File);
                    &&& ((size == data.len() && walked is Ok) <==> spec_build_attributes(data, e)
                        is Ok)
                    &&& (size == data.len() && walked is Ok) ==> spec_build_attributes(data, e)
                        == Ok::<FileM, PublicAttrsErrorM>(spec_resolve(walked->Ok_0))
                    &&& size != data.len() ==> spec_build_attributes(data, e) == Err::<
                        FileM,
                        PublicAttrsErrorM,
                    >(PublicAttrsErrorM::ScopeEndsBeforeParent)
                },
                _ => spec_build_attributes(data, e) == Err::<FileM, PublicAttrsErrorM>(
                    PublicAttrsErrorM::NoFileTag,
                ),
            }
        }),
{
}

/// Every resolved scope either keeps its own attribute set exactly
/// (each field explicitly set there, or left unset), or, when its own
/// set was entirely empty and its parent's no-further-defaults flag was
/// clear, carries every field of its nearest ancestor's resolved set,
/// keeping only its own no-further-defaults flag. The file scope always
/// keeps its own set.
pub proof fn lemma_resolution_inheritance(f: FileM)
    ensures
        spec_resolve(f).attributes == f.attributes,
        spec_resolve(f).sections.len() == f.sections.len(),
        forall|i: int|
            0 <= i < f.sections.len() ==> {
                let own = f.sections[i].attributes;
                let rs = #[trigger] spec_resolve(f).sections[i];
                &&& rs.indices == f.sections[i].indices
                &&& rs.symbols.len() == f.sections[i].symbols.len()
                &&& (rs.attributes == own || (own.spec_is_empty() && !f.attributes.no_defaults
                    && rs.attributes == (AttrsM { no_defaults: own.no_defaults, ..f.attributes })))
                &&& forall|j: int|
                    0 <= j < f.sections[i].symbols.len() ==> {
                        let yown = f.sections[i].symbols[j].attributes;
                        let ry = #[trigger] rs.symbols[j];
                        &&& ry.indices == f.sections[i].symbols[j].indices
                        &&& (ry.attributes == yown || (yown.spec_is_empty()
                            && !rs.attributes.no_defaults && ry.attributes == (AttrsM {
                            no_defaults: yown.no_defaults,
                            ..rs.attributes
                        })))
                    }
            },
{
    assert forall|i: int| 0 <= i < f.sections.len() implies {
        let own = f.sections[i].attributes;
        let rs = #[trigger] spec_resolve(f).sections[i];
        &&& rs.indices == f.sections[i].indices
        &&& rs.symbols.len() == f.sections[i].symbols.len()
        &&& (rs.attributes == own || (own.spec_is_empty() && !f.attributes.no_defaults
            && rs.attributes == (AttrsM { no_defaults: own.no_defaults, ..f.attributes })))
        &&& forall|j: int|
            0 <= j < f.sections[i].symbols.len() ==> {
                let yown = f.sections[i].symbols[j].attributes;
                let ry = #[trigger] rs.symbols[j];
                &&& ry.indices == f.sections[i].symbols[j].indices
                &&& (ry.attributes == yown || (yown.spec_is_empty() && !rs.attributes.no_defaults
                    && ry.attributes == (AttrsM { no_defaults: yown.no_defaults, ..rs.attributes })))
            }
    } by {
        let own = f.sections[i].attributes;
        let rs = spec_resolve(f).sections[i];
        if own.spec_is_empty() && !f.attributes.no_defaults {
            lemma_inherit_of_empty(own, f.attributes);
        }
        assert forall|j: int| 0 <= j < f.sections[i].symbols.len() implies {
            let yown = f.sections[i].symbols[j].attributes;
            let ry = #[trigger] rs.symbols[j];
            &&& ry.indices == f.sections[i].symbols[j].indices
            &&& (ry.attributes == yown || (yown.spec_is_empty() && !rs.attributes.no_defaults
                && ry.attributes == (AttrsM { no_defaults: yown.no_defaults, ..rs.attributes })))
        } by {
            let yown = f.sections[i].symbols[j].attributes;
            if yown.spec_is_empty() && !rs.attributes.no_defaults {
                lemma_inherit_of_empty(yown, rs.attributes);
            }
        }
    }
}

/// Decoding is deterministic and free of hidden state: the tree or the
/// error a payload decodes to is a function of the bytes and the byte
/// order alone, so decoding the same buffer twice yields structurally
/// identical results.
pub proof fn lemma_decode_deterministic(data1: Seq<u8>, data2: Seq<u8>, e: Endian)
    requires
        data1 == data2,
    ensures
        spec_build_attributes(data1, e) == spec_build_attributes(data2, e),
{
}

/// A subsection whose length field points exactly to the end of the
/// buffer scans, and the next scan position is the buffer's end; one
/// whose length overruns the buffer fails with a bounds error.
pub proof fn lemma_subsection_bounds(data: Seq<u8>, pos: int, e: Endian)
    requires
        0 <= pos < data.len(),
        spec_read_u32(data, pos, e) is Some,
    ensures
        ({
            let (length, p1) = spec_read_u32(data, pos, e)->0;
            match spec_read_string(data, p1) {
                Ok((vendor, p2)) => length >= p2 - pos ==> {
                    &&& pos + length == data.len()
                        ==> crate::spec_scan_subsection(data, pos, e) == ScanStep::Next(
                        SubsectionM {
                            vendor_name: vendor,
                            data: data.subrange(p2, data.len() as int),
                            endian: e,
                        },
                        data.len() as int,
                    )
                    &&& pos + length > data.len() ==> crate::spec_scan_subsection(data, pos, e)
                        == ScanStep::Fail(ReadError::OutOfBounds)
                },
                Err(_) => true,
            }
        }),
{
}

} // verus!
