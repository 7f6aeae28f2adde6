use arm_attr::error::ReadError;
use arm_attr::globals::{Tag_CPU_arch, Tag_File};
use arm_attr::{BuildAttrs, Endian};

#[test]
fn subsection_reaching_buffer_end_decodes() {
    let mut raw = vec![b'A'];
    raw.extend_from_slice(&13u32.to_le_bytes());
    raw.extend_from_slice(b"aeabi\0");
    raw.extend_from_slice(&[1, 2, 3]);
    let build_attrs = BuildAttrs::new(raw, Endian::Little).unwrap();
    let mut subsections = build_attrs.subsections();
    let subsection = subsections.next().unwrap().unwrap();
    assert_eq!(subsection.data(), &[1, 2, 3]);
    assert!(subsections.next().is_none());
}

#[test]
fn subsection_length_overrunning_buffer_is_out_of_bounds() {
    let mut raw = vec![b'A'];
    raw.extend_from_slice(&14u32.to_le_bytes());
    raw.extend_from_slice(b"aeabi\0");
    raw.extend_from_slice(&[1, 2, 3]);
    let build_attrs = BuildAttrs::new(raw, Endian::Little).unwrap();
    let mut subsections = build_attrs.subsections();
    assert!(matches!(
        subsections.next(),
        Some(Err(ReadError::OutOfBounds))
    ));
}

#[test]
fn subsection_length_smaller_than_its_header_is_out_of_bounds() {
    let mut raw = vec![b'A'];
    raw.extend_from_slice(&7u32.to_le_bytes());
    raw.extend_from_slice(b"aeabi\0");
    let build_attrs = BuildAttrs::new(raw, Endian::Little).unwrap();
    let mut subsections = build_attrs.subsections();
    assert!(matches!(
        subsections.next(),
        Some(Err(ReadError::OutOfBounds))
    ));
}

#[test]
fn truncated_length_field_is_a_hard_error() {
    let raw = vec![b'A', 0x10, 0x00];
    let build_attrs = BuildAttrs::new(raw, Endian::Little).unwrap();
    let mut subsections = build_attrs.subsections();
    assert!(matches!(subsections.next(), Some(Err(ReadError::Eof))));
}

#[test]
fn vendor_name_without_terminator_is_a_hard_error() {
    let mut raw = vec![b'A'];
    raw.extend_from_slice(&12u32.to_le_bytes());
    raw.extend_from_slice(b"aeabi");
    let build_attrs = BuildAttrs::new(raw, Endian::Little).unwrap();
    let mut subsections = build_attrs.subsections();
    assert!(matches!(subsections.next(), Some(Err(ReadError::Eof))));
}

#[test]
fn vendor_name_must_be_utf8() {
    let mut raw = vec![b'A'];
    raw.extend_from_slice(&11u32.to_le_bytes());
    raw.extend_from_slice(&[0xff, 0xfe, 0]);
    raw.extend_from_slice(&[9, 9, 9, 9]);
    let build_attrs = BuildAttrs::new(raw, Endian::Little).unwrap();
    let mut subsections = build_attrs.subsections();
    assert!(matches!(subsections.next(), Some(Err(ReadError::Utf8))));
}

#[test]
fn two_subsections_scan_in_order() {
    let mut raw = vec![b'A'];
    raw.extend_from_slice(&12u32.to_le_bytes());
    raw.extend_from_slice(b"other\0");
    raw.extend_from_slice(&[7, 8]);
    raw.extend_from_slice(&17u32.to_le_bytes());
    raw.extend_from_slice(b"aeabi\0");
    raw.extend_from_slice(&[Tag_File, 7, 0, 0, 0, Tag_CPU_arch, 4]);
    let build_attrs = BuildAttrs::new(raw, Endian::Little).unwrap();
    let mut subsections = build_attrs.subsections();
    let first = subsections.next().unwrap().unwrap();
    assert_eq!(first.vendor_name(), "other");
    assert_eq!(first.data(), &[7, 8]);
    let second = subsections.next().unwrap().unwrap();
    assert!(second.is_aeabi());
    assert!(subsections.next().is_none());

    let file = second.into_public_attributes().unwrap();
    assert_eq!(
        file.attributes.cpu_arch,
        Some(arm_attr::enums::CpuArch::V5TE)
    );
}

#[test]
fn big_endian_length_and_size_fields_decode() {
    let mut raw = vec![b'A'];
    raw.extend_from_slice(&17u32.to_be_bytes());
    raw.extend_from_slice(b"aeabi\0");
    raw.extend_from_slice(&[Tag_File]);
    raw.extend_from_slice(&7u32.to_be_bytes());
    raw.extend_from_slice(&[Tag_CPU_arch, 4]);
    let build_attrs = BuildAttrs::new(raw, Endian::Big).unwrap();
    let mut subsections = build_attrs.subsections();
    let subsection = subsections.next().unwrap().unwrap();
    let file = subsection.into_public_attributes().unwrap();
    assert_eq!(
        file.attributes.cpu_arch,
        Some(arm_attr::enums::CpuArch::V5TE)
    );
}
