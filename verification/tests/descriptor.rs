use rust_apo::descriptor::{
    apo_props, friendly_name, name_buffer, APO_FLAG_BITSPERSAMPLE_MUST_MATCH,
    APO_FLAG_FRAMESPERSECOND_MUST_MATCH, APO_FLAG_INPLACE, APO_FLAG_SAMPLESPERFRAME_MUST_MATCH,
    NAME_CAPACITY,
};
use rust_apo::guid::{IID_IAUDIOPROCESSINGOBJECT, IID_IRUSTAPO};
use rust_apo::registration::get_dll_path;
use rust_apo::wide::{as_u8_slice, terminator_index, wide_c_string};
use rust_apo::Guid;
use windows::Win32::Media::Audio::Apo;

#[test]
fn descriptor_holds_the_plugin_identity_and_capabilities() {
    let props = apo_props();
    assert_eq!(props.clsid, Guid(IID_IRUSTAPO));
    assert_eq!(props.flags, 15);
    assert_eq!(props.major_version, 1);
    assert_eq!(props.minor_version, 0);
    assert_eq!(props.min_input_connections, 1);
    assert_eq!(props.max_input_connections, 1);
    assert_eq!(props.min_output_connections, 1);
    assert_eq!(props.max_output_connections, 1);
    assert_eq!(props.max_instances, u32::MAX);
    assert_eq!(props.num_interfaces, 1);
    assert_eq!(props.interfaces, vec![Guid(IID_IAUDIOPROCESSINGOBJECT)]);
    assert_eq!(props.interfaces.len(), props.num_interfaces as usize);

    let mut name = [0u16; 256];
    name[..7].copy_from_slice(&[82, 117, 115, 116, 65, 80, 79]);
    assert_eq!(props.friendly_name, name);
    assert_eq!(props.copyright_info, [0u16; 256]);
}

#[test]
fn capability_flags_are_those_of_the_host() {
    assert_eq!(APO_FLAG_INPLACE as i32, Apo::APO_FLAG_INPLACE.0);
    assert_eq!(
        APO_FLAG_SAMPLESPERFRAME_MUST_MATCH as i32,
        Apo::APO_FLAG_SAMPLESPERFRAME_MUST_MATCH.0
    );
    assert_eq!(
        APO_FLAG_FRAMESPERSECOND_MUST_MATCH as i32,
        Apo::APO_FLAG_FRAMESPERSECOND_MUST_MATCH.0
    );
    assert_eq!(
        APO_FLAG_BITSPERSAMPLE_MUST_MATCH as i32,
        Apo::APO_FLAG_BITSPERSAMPLE_MUST_MATCH.0
    );
    let flags = apo_props().flags;
    for flag in [
        APO_FLAG_INPLACE,
        APO_FLAG_SAMPLESPERFRAME_MUST_MATCH,
        APO_FLAG_FRAMESPERSECOND_MUST_MATCH,
        APO_FLAG_BITSPERSAMPLE_MUST_MATCH,
    ] {
        assert_eq!(flags & flag, flag);
    }
    assert_eq!(flags & 16, 0);
}

#[test]
fn friendly_name_is_rust_apo_terminated() {
    assert_eq!(friendly_name(), vec![82, 117, 115, 116, 65, 80, 79, 0]);
    assert_eq!(Some(friendly_name()), wide_c_string("RustAPO"));
}

#[test]
fn name_buffer_copies_and_terminates() {
    assert_eq!(NAME_CAPACITY, 256);
    assert_eq!(name_buffer(&[]), [0u16; 256]);

    let short = name_buffer(&[7, 8, 9]);
    assert_eq!(&short[..4], &[7, 8, 9, 0]);
    assert!(short[3..].iter().all(|unit| *unit == 0));

    let exact: Vec<u16> = (1..=255).collect();
    let buffer = name_buffer(&exact);
    assert_eq!(&buffer[..255], &exact[..]);
    assert_eq!(buffer[255], 0);
}

#[test]
fn name_buffer_cuts_a_long_name_and_still_terminates() {
    let long: Vec<u16> = (1..=256).collect();
    let buffer = name_buffer(&long);
    assert_eq!(&buffer[..255], &long[..255]);
    assert_eq!(buffer[255], 0);

    let longer: Vec<u16> = (0..1000).map(|i| 0x41 + (i % 26) as u16).collect();
    let buffer = name_buffer(&longer);
    assert_eq!(&buffer[..255], &longer[..255]);
    assert_eq!(buffer[255], 0);
    assert_eq!(terminator_index(&buffer), 255);
}

#[test]
fn terminator_index_finds_the_first_zero() {
    assert_eq!(terminator_index(&[]), 0);
    assert_eq!(terminator_index(&[0]), 0);
    assert_eq!(terminator_index(&[5, 6, 7]), 3);
    assert_eq!(terminator_index(&[5, 0, 7, 0]), 1);
    assert_eq!(terminator_index(&[5, 6, 0]), 2);
}

#[test]
fn bytes_are_little_endian_pairs() {
    assert_eq!(as_u8_slice(&[]), Vec::<u8>::new());
    assert_eq!(as_u8_slice(&[0x1234]), vec![0x34, 0x12]);
    assert_eq!(
        as_u8_slice(&[0x0041, 0xFFFE, 0, 0xFF00, 0x00FF]),
        vec![0x41, 0, 0xFE, 0xFF, 0, 0, 0, 0xFF, 0xFF, 0]
    );
    let units: Vec<u16> = vec![0x0102, 0x0304];
    let expected: Vec<u8> = units.iter().flat_map(|unit| unit.to_le_bytes()).collect();
    assert_eq!(as_u8_slice(&units), expected);
}

#[test]
fn wide_c_string_encodes_and_terminates() {
    assert_eq!(wide_c_string(""), Some(vec![0]));
    assert_eq!(wide_c_string("Both"), Some(vec![66, 111, 116, 104, 0]));
    assert_eq!(wide_c_string("Both\0"), Some(vec![66, 111, 116, 104, 0]));
    assert_eq!(wide_c_string("\0"), Some(vec![0]));
    assert_eq!(wide_c_string("a\0b"), None);
    assert_eq!(wide_c_string("\0a"), None);
    assert_eq!(wide_c_string("a\0\0"), None);
    assert_eq!(
        wide_c_string("\u{E9}\u{20AC}\u{1F600}\u{10000}\u{10FFFF}"),
        Some(vec![0xE9, 0x20AC, 0xD83D, 0xDE00, 0xD800, 0xDC00, 0xDBFF, 0xDFFF, 0])
    );
}

#[test]
fn dll_path_is_the_written_part_of_the_buffer_terminated() {
    let mut buffer = [0u16; 1024];
    let path: Vec<u16> = "C:\\Windows\\apo.dll".encode_utf16().collect();
    buffer[..path.len()].copy_from_slice(&path);

    let mut expected = path.clone();
    expected.push(0);
    assert_eq!(get_dll_path(&buffer, path.len()), Some(expected.clone()));
    assert_eq!(get_dll_path(&buffer, path.len() + 1), Some(expected));
    assert_eq!(get_dll_path(&buffer, path.len() + 2), None);
    assert_eq!(get_dll_path(&buffer, 0), Some(vec![0]));
    assert_eq!(get_dll_path(&buffer, 3), Some(vec![67, 58, 92, 0]));
    assert_eq!(get_dll_path(&buffer, 1025), None);
    assert_eq!(get_dll_path(&[], 0), Some(vec![0]));
    assert_eq!(get_dll_path(&[], 1), None);

    let full = [0x41u16; 1024];
    let mut cut = vec![0x41u16; 1024];
    cut.push(0);
    assert_eq!(get_dll_path(&full, 1024), Some(cut));
    assert_eq!(get_dll_path(&[65, 0, 66], 3), None);
}

#[test]
fn identifier_text_is_upper_case_hex_in_five_groups() {
    assert_eq!(Guid(IID_IRUSTAPO).text(), "0129658B-8ED4-47E7-BFA5-E2933B128767");
    assert_eq!(Guid(0).text(), "00000000-0000-0000-0000-000000000000");
    assert_eq!(Guid(u128::MAX).text(), "FFFFFFFF-FFFF-FFFF-FFFF-FFFFFFFFFFFF");
    assert_eq!(
        Guid(0x0123_4567_89AB_CDEF_0F1E_2D3C_4B5A_6978).text(),
        "01234567-89AB-CDEF-0F1E-2D3C4B5A6978"
    );
    assert_eq!(
        Guid(IID_IAUDIOPROCESSINGOBJECT).text(),
        "FD7F2B29-24D0-4B5C-B177-592C39F9CA10"
    );
    assert_eq!(Guid(0xA).text(), "00000000-0000-0000-0000-00000000000A");
}

#[test]
fn decoding_restores_what_was_encoded() {
    for text in ["", "RustAPO", "Both", "\u{E9}t\u{E9}", "\u{1F600}\u{10000}x\u{10FFFF}", "\u{FFFD}"] {
        let mut units = wide_c_string(text).unwrap();
        assert_eq!(units.pop(), Some(0));
        let expected: Vec<u16> = text.encode_utf16().collect();
        assert_eq!(units, expected);
        assert_eq!(rust_apo::wide::decode_name(&units), text);
    }
}
