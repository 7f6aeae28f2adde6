use arm_attr::enums::{AlsoCompatWith, Compat, CpuArch};
use arm_attr::error::{BuildAttrError, PublicAttrsError, ReadError, TagError};
use arm_attr::globals::{
    Tag_also_compatible_with, Tag_compatibility, Tag_CPU_arch, Tag_File, Tag_Section, Tag_Symbol,
    Tag_nodefaults,
};
use arm_attr::tag::Tag;
use arm_attr::{BuildAttrs, Endian};

/// An attributes blob holding one little-endian `aeabi` subsection with
/// the given tag-stream bytes after the leading File tag.
fn aeabi_blob(rest: &[u8]) -> Vec<u8> {
    let payload_len = (rest.len() + 5) as u32;
    let subsection_len = payload_len + 4 + 6;
    let mut raw = vec![b'A'];
    raw.extend_from_slice(&subsection_len.to_le_bytes());
    raw.extend_from_slice(b"aeabi\0");
    raw.push(Tag_File);
    raw.extend_from_slice(&payload_len.to_le_bytes());
    raw.extend_from_slice(rest);
    raw
}

fn decode_tags(rest: &[u8]) -> Vec<(u32, Result<Tag, TagError>)> {
    let raw = aeabi_blob(rest);
    let build_attrs = BuildAttrs::new(raw, Endian::Little).unwrap();
    let mut subsections = build_attrs.subsections();
    let subsection = subsections.next().unwrap().unwrap();
    let mut it = subsection.into_public_attr_iter().unwrap();
    let mut out = vec![];
    loop {
        match it.next() {
            None => break,
            Some(Ok((off, tag))) => out.push((off, Ok(tag))),
            Some(Err(e)) => {
                out.push((0, Err(e)));
                break;
            },
        }
    }
    out
}

#[test]
fn empty_input_is_no_data() {
    assert!(matches!(
        BuildAttrs::new(vec![], Endian::Little),
        Err(BuildAttrError::NoData)
    ));
}

#[test]
fn wrong_version_byte_is_rejected_with_the_byte() {
    assert!(matches!(
        BuildAttrs::new(vec![b'B'], Endian::Little),
        Err(BuildAttrError::IncompatibleVersion(b'B'))
    ));
    assert!(matches!(
        BuildAttrs::new(vec![0x00], Endian::Big),
        Err(BuildAttrError::IncompatibleVersion(0x00))
    ));
}

#[test]
fn version_marker_alone_is_accepted() {
    let build_attrs = BuildAttrs::new(vec![b'A'], Endian::Little).unwrap();
    assert_eq!(build_attrs.version(), b'A');
    let mut subsections = build_attrs.subsections();
    assert!(subsections.next().is_none());
}

#[test]
fn unknown_vendor_is_passed_through_unparsed() {
    let mut raw = vec![b'A'];
    raw.extend_from_slice(&(4 + 8 + 3u32).to_le_bytes());
    raw.extend_from_slice(b"vendorX\0");
    raw.extend_from_slice(&[1, 2, 3]);
    let build_attrs = BuildAttrs::new(raw, Endian::Little).unwrap();
    let mut subsections = build_attrs.subsections();
    let subsection = subsections.next().unwrap().unwrap();
    assert_eq!(subsection.vendor_name(), "vendorX");
    assert!(!subsection.is_aeabi());
    assert_eq!(subsection.data(), &[1, 2, 3]);
    assert!(subsections.next().is_none());

    let err = subsection.into_public_attr_iter().err().unwrap();
    assert_eq!(err, PublicAttrsError::InvalidName(String::from("vendorX")));
}

#[test]
fn file_tag_with_exact_size_decodes_to_a_root_scope() {
    let raw = aeabi_blob(&[]);
    let build_attrs = BuildAttrs::new(raw, Endian::Little).unwrap();
    let mut subsections = build_attrs.subsections();
    let subsection = subsections.next().unwrap().unwrap();
    let file = subsection.into_public_attributes().unwrap();
    assert!(file.attributes.empty());
    assert!(!file.attributes.no_defaults);
    assert_eq!(file.sections.len(), 0);
}

#[test]
fn file_size_mismatch_is_a_structural_error() {
    // The declared size says one byte more than the payload holds.
    let mut raw = vec![b'A'];
    raw.extend_from_slice(&(5 + 4 + 6u32).to_le_bytes());
    raw.extend_from_slice(b"aeabi\0");
    raw.push(Tag_File);
    raw.extend_from_slice(&6u32.to_le_bytes());
    let build_attrs = BuildAttrs::new(raw, Endian::Little).unwrap();
    let mut subsections = build_attrs.subsections();
    let subsection = subsections.next().unwrap().unwrap();
    assert_eq!(
        subsection.into_public_attributes().err().unwrap(),
        PublicAttrsError::ScopeEndsBeforeParent
    );
}

#[test]
fn empty_payload_has_no_tags() {
    let mut raw = vec![b'A'];
    raw.extend_from_slice(&(4 + 6u32).to_le_bytes());
    raw.extend_from_slice(b"aeabi\0");
    let build_attrs = BuildAttrs::new(raw, Endian::Little).unwrap();
    let mut subsections = build_attrs.subsections();
    let subsection = subsections.next().unwrap().unwrap();
    assert_eq!(
        subsection.into_public_attributes().err().unwrap(),
        PublicAttrsError::NoTags
    );
}

#[test]
fn first_tag_other_than_file_is_rejected() {
    let mut raw = vec![b'A'];
    raw.extend_from_slice(&(2 + 4 + 6u32).to_le_bytes());
    raw.extend_from_slice(b"aeabi\0");
    raw.extend_from_slice(&[Tag_CPU_arch, 4]);
    let build_attrs = BuildAttrs::new(raw, Endian::Little).unwrap();
    let mut subsections = build_attrs.subsections();
    let subsection = subsections.next().unwrap().unwrap();
    assert_eq!(
        subsection.into_public_attributes().err().unwrap(),
        PublicAttrsError::NoFileTag
    );
}

#[test]
fn duplicate_file_tag_is_rejected() {
    let rest = [Tag_File, 10, 0, 0, 0];
    let raw = aeabi_blob(&rest);
    let build_attrs = BuildAttrs::new(raw, Endian::Little).unwrap();
    let mut subsections = build_attrs.subsections();
    let subsection = subsections.next().unwrap().unwrap();
    assert_eq!(
        subsection.into_public_attributes().err().unwrap(),
        PublicAttrsError::DuplicateFileTag
    );
}

#[test]
fn symbol_outside_a_section_is_rejected() {
    let rest = [Tag_Symbol, 12, 0, 0, 0, 7, 0];
    let raw = aeabi_blob(&rest);
    let build_attrs = BuildAttrs::new(raw, Endian::Little).unwrap();
    let mut subsections = build_attrs.subsections();
    let subsection = subsections.next().unwrap().unwrap();
    assert_eq!(
        subsection.into_public_attributes().err().unwrap(),
        PublicAttrsError::NotSectionScope
    );
}

#[test]
fn section_inside_an_open_section_is_rejected() {
    // The outer section declares an extent that reaches the payload
    // end, so the inner section tag arrives while it is still open.
    let rest = [
        Tag_Section, 14, 0, 0, 0, 5, 0, // extent 14 from offset 5: the rest of the payload
        Tag_Section, 7, 0, 0, 0, 6, 0,
    ];
    let raw = aeabi_blob(&rest);
    let build_attrs = BuildAttrs::new(raw, Endian::Little).unwrap();
    let mut subsections = build_attrs.subsections();
    let subsection = subsections.next().unwrap().unwrap();
    assert_eq!(
        subsection.into_public_attributes().err().unwrap(),
        PublicAttrsError::NotFileScope
    );
}

#[test]
fn symbol_extent_past_its_section_is_rejected() {
    let rest = [
        Tag_Section, 14, 0, 0, 0, 5, 0, // section extent ends with the payload
        Tag_Symbol, 12, 0, 0, 0, 6, 0, // symbol extent overruns the section's
    ];
    let raw = aeabi_blob(&rest);
    let build_attrs = BuildAttrs::new(raw, Endian::Little).unwrap();
    let mut subsections = build_attrs.subsections();
    let subsection = subsections.next().unwrap().unwrap();
    assert_eq!(
        subsection.into_public_attributes().err().unwrap(),
        PublicAttrsError::ScopeEndsBeforeParent
    );
}

#[test]
fn unknown_tag_number_is_a_hard_error() {
    let got = decode_tags(&[99, 0]);
    assert_eq!(got.len(), 2);
    assert!(matches!(got[1].1, Err(TagError::IncompatibleTagValue(99))));
}

#[test]
fn truncated_tag_payload_is_a_hard_error() {
    // A CPU arch tag with its value byte missing.
    let got = decode_tags(&[Tag_CPU_arch]);
    assert_eq!(got.len(), 2);
    assert!(matches!(got[1].1, Err(TagError::Read(ReadError::Eof))));
}

#[test]
fn compatibility_flags_decode_by_value() {
    // Flag 0 is always-compatible, flag 1 names the toolchain, and any
    // other flag is a private marker kept verbatim.
    let rest = [
        Tag_compatibility, 0, 0, //
        Tag_compatibility, 1, b'X', b'Y', b'Z', 0, //
        Tag_compatibility, 42, b'f', b'o', b'o', 0,
    ];
    let got = decode_tags(&rest);
    assert_eq!(got.len(), 4);
    assert!(matches!(got[1].1, Ok(Tag::Compat(Compat::Always))));
    assert!(
        matches!(got[2].1, Ok(Tag::Compat(Compat::ByToolchain(ref s))) if s == "XYZ")
    );
    assert!(
        matches!(got[3].1, Ok(Tag::Compat(Compat::Private { flag: 42, ref vendor })) if vendor == "foo")
    );
}

#[test]
fn also_compatible_with_architecture_decodes() {
    let got = decode_tags(&[Tag_also_compatible_with, Tag_CPU_arch, 22, 0]);
    assert_eq!(got.len(), 2);
    assert!(matches!(
        got[1].1,
        Ok(Tag::AlsoCompatWith(AlsoCompatWith::Arch(CpuArch::V9A)))
    ));
}

#[test]
fn also_compatible_with_nonzero_terminator_is_rejected() {
    let got = decode_tags(&[Tag_also_compatible_with, Tag_CPU_arch, 22, 1]);
    assert_eq!(got.len(), 2);
    assert!(matches!(got[1].1, Err(TagError::ExpectedNull)));
}

#[test]
fn also_compatible_with_scope_tag_is_rejected() {
    let got = decode_tags(&[Tag_also_compatible_with, Tag_File, 9, 0, 0, 0]);
    assert_eq!(got.len(), 2);
    assert!(matches!(got[1].1, Err(TagError::NestedScopeTag)));
}

#[test]
fn no_defaults_marker_needs_a_zero_byte() {
    let got = decode_tags(&[Tag_nodefaults, 7]);
    assert_eq!(got.len(), 2);
    assert!(matches!(got[1].1, Err(TagError::ExpectedNull)));
}

#[test]
fn tag_number_top_bit_is_masked() {
    // The single-byte fields keep only their low seven bits, so a tag
    // byte with the top bit set reads as the same tag number.
    let got = decode_tags(&[Tag_CPU_arch | 0x80, 4]);
    assert_eq!(got.len(), 2);
    assert!(matches!(got[1].1, Ok(Tag::CpuArch(CpuArch::V5TE))));
}

#[test]
fn decoding_twice_yields_identical_trees() {
    let rest = [
        Tag_CPU_arch, 4, //
        Tag_Section, 9, 0, 0, 0, 9, 0, //
        Tag_nodefaults, 0,
    ];
    let raw = aeabi_blob(&rest);

    let first = BuildAttrs::new(raw.clone(), Endian::Little).unwrap();
    let mut subsections = first.subsections();
    let file_a = subsections.next().unwrap().unwrap().into_public_attributes().unwrap();

    let second = BuildAttrs::new(raw, Endian::Little).unwrap();
    let mut subsections = second.subsections();
    let file_b = subsections.next().unwrap().unwrap().into_public_attributes().unwrap();

    assert_eq!(file_a.attributes.cpu_arch, file_b.attributes.cpu_arch);
    assert_eq!(file_a.attributes.no_defaults, file_b.attributes.no_defaults);
    assert_eq!(file_a.sections.len(), file_b.sections.len());
    let sec_a = file_a.section([9].as_ref()).unwrap();
    let sec_b = file_b.section([9].as_ref()).unwrap();
    assert_eq!(sec_a.indices, sec_b.indices);
    assert_eq!(sec_a.attributes.cpu_arch, sec_b.attributes.cpu_arch);
    assert_eq!(sec_a.attributes.no_defaults, sec_b.attributes.no_defaults);
}

#[test]
fn string_payload_must_be_utf8() {
    let rest = [4, 0xff, 0xfe, 0]; // a CPU raw-name tag with invalid bytes
    let raw = aeabi_blob(&rest);
    let build_attrs = BuildAttrs::new(raw, Endian::Little).unwrap();
    let mut subsections = build_attrs.subsections();
    let subsection = subsections.next().unwrap().unwrap();
    assert_eq!(
        subsection.into_public_attributes().err().unwrap(),
        PublicAttrsError::Tag(TagError::Read(ReadError::Utf8))
    );
}

#[test]
fn tag_numbers_and_payload_kinds_are_exposed() {
    let got = decode_tags(&[Tag_CPU_arch, 4, Tag_compatibility, 0, 0]);
    assert_eq!(got.len(), 3);
    let file_tag = got[0].1.as_ref().unwrap();
    assert_eq!(file_tag.raw_tag(), Tag_File);
    assert!(!file_tag.is_uleb128());
    let arch_tag = got[1].1.as_ref().unwrap();
    assert_eq!(arch_tag.raw_tag(), Tag_CPU_arch);
    assert!(arch_tag.is_uleb128());
    let compat_tag = got[2].1.as_ref().unwrap();
    assert_eq!(compat_tag.raw_tag(), Tag_compatibility);
    assert!(!compat_tag.is_uleb128());
}

#[test]
fn section_extent_past_the_payload_is_rejected() {
    let rest = [Tag_Section, 99, 0, 0, 0, 5, 0];
    let raw = aeabi_blob(&rest);
    let build_attrs = BuildAttrs::new(raw, Endian::Little).unwrap();
    let mut subsections = build_attrs.subsections();
    let subsection = subsections.next().unwrap().unwrap();
    assert_eq!(
        subsection.into_public_attributes().err().unwrap(),
        PublicAttrsError::ScopeEndsBeforeParent
    );
}

#[test]
fn empty_symbol_inherits_the_resolved_section_set() {
    // The section is empty and inherits the file's value; the symbol is
    // empty too and inherits the section's resolved set in turn.
    let rest = [
        Tag_CPU_arch, 4, // V5TE at file scope
        Tag_Section, 14, 0, 0, 0, 5, 0, // section 5, extent to the payload end
        Tag_Symbol, 7, 0, 0, 0, 9, 0, // symbol 9, empty
    ];
    let raw = aeabi_blob(&rest);
    let build_attrs = BuildAttrs::new(raw, Endian::Little).unwrap();
    let mut subsections = build_attrs.subsections();
    let subsection = subsections.next().unwrap().unwrap();
    let file = subsection.into_public_attributes().unwrap();
    let section = file.section([5].as_ref()).unwrap();
    assert_eq!(section.attributes.cpu_arch, Some(CpuArch::V5TE));
    let symbol = section.symbol([9].as_ref()).unwrap();
    assert_eq!(symbol.attributes.cpu_arch, Some(CpuArch::V5TE));
}

#[test]
fn file_no_defaults_suppresses_section_inheritance() {
    let rest = [
        Tag_CPU_arch, 4, // V5TE at file scope
        Tag_nodefaults, 0, // the file propagates no defaults
        Tag_Section, 7, 0, 0, 0, 5, 0, // section 5, empty
    ];
    let raw = aeabi_blob(&rest);
    let build_attrs = BuildAttrs::new(raw, Endian::Little).unwrap();
    let mut subsections = build_attrs.subsections();
    let subsection = subsections.next().unwrap().unwrap();
    let file = subsection.into_public_attributes().unwrap();
    assert_eq!(file.attributes.cpu_arch, Some(CpuArch::V5TE));
    assert!(file.attributes.no_defaults);
    let section = file.section([5].as_ref()).unwrap();
    assert_eq!(section.attributes.cpu_arch, None);
}
