use satu_toko::patch::{find_markers, letter, patch_driver, scramble_byte};

fn is_letter(b: u8) -> bool {
    b.is_ascii_alphabetic()
}

#[test]
fn buffer_without_marker_is_unchanged() {
    let contents = b"no marker in here, cdc and c_dc do not count".to_vec();
    let patched = patch_driver(&contents);
    assert_eq!(patched.patches, 0);
    assert_eq!(patched.bytes, contents);
}

#[test]
fn empty_buffer_is_unchanged() {
    let patched = patch_driver(&Vec::new());
    assert_eq!(patched.patches, 0);
    assert!(patched.bytes.is_empty());
}

#[test]
fn window_behind_marker_is_scrambled() {
    let mut contents = vec![0u8; 64];
    contents[10..14].copy_from_slice(b"cdc_");
    let patched = patch_driver(&contents);
    assert_eq!(patched.patches, 1);
    assert_eq!(patched.bytes.len(), 64);
    for k in 0..64 {
        if (14..32).contains(&k) {
            assert!(is_letter(patched.bytes[k]), "offset {} is no letter", k);
        } else {
            assert_eq!(patched.bytes[k], contents[k], "offset {} changed", k);
        }
    }
    assert_eq!(&patched.bytes[10..14], b"cdc_");
}

#[test]
fn overlapping_windows_are_both_scrambled_and_clipped() {
    // Markers at 2 and 12: the second lies in the first one's window, and
    // its own window reaches beyond the end of the buffer.
    let mut contents = vec![0u8; 30];
    contents[2..6].copy_from_slice(b"cdc_");
    contents[12..16].copy_from_slice(b"cdc_");
    let patched = patch_driver(&contents);
    assert_eq!(patched.patches, 2);
    assert_eq!(patched.bytes.len(), 30);
    assert_eq!(&patched.bytes[0..6], &contents[0..6]);
    for k in 6..30 {
        assert!(is_letter(patched.bytes[k]), "offset {} is no letter", k);
    }
}

#[test]
fn marker_at_the_very_end_changes_nothing() {
    let contents = b"xxxxcdc_".to_vec();
    let patched = patch_driver(&contents);
    assert_eq!(patched.patches, 1);
    assert_eq!(patched.bytes, contents);
}

#[test]
fn patching_keeps_the_length() {
    let contents = b"cdc_adoQpoasnfa76pfcZLmcfl_Array and cdc_adoQpoasnfa76pfcZLmcfl_Promise".to_vec();
    let patched = patch_driver(&contents);
    assert_eq!(patched.patches, 2);
    assert_eq!(patched.bytes.len(), contents.len());
    assert_eq!(&patched.bytes[22..41], &contents[22..41]);
}

#[test]
fn markers_are_found_in_rising_order() {
    let contents = b"cdc_cdc_..cdc".to_vec();
    assert_eq!(find_markers(&contents), vec![0, 4]);
    assert_eq!(find_markers(&b"cd".to_vec()), Vec::<usize>::new());
}

#[test]
fn draws_map_to_the_alphabet() {
    assert_eq!(letter(0), b'a');
    assert_eq!(letter(25), b'z');
    assert_eq!(letter(26), b'A');
    assert_eq!(letter(51), b'Z');
}

#[test]
fn scramble_byte_writes_within_bounds_only() {
    let mut buf = vec![0u8, 0, 0];
    scramble_byte(&mut buf, 1, 27);
    assert_eq!(buf, vec![0, b'B', 0]);
    scramble_byte(&mut buf, 3, 0);
    assert_eq!(buf, vec![0, b'B', 0]);
}

#[test]
fn close_markers_leave_the_second_marker_where_the_first_window_ends() {
    // Markers at 0 and 20: the first window ends at 22, inside the second
    // marker, whose last two bytes stay.
    let mut contents = vec![b'.'; 50];
    contents[0..4].copy_from_slice(b"cdc_");
    contents[20..24].copy_from_slice(b"cdc_");
    let patched = patch_driver(&contents);
    assert_eq!(patched.patches, 2);
    for k in (4..22).chain(24..42) {
        assert!(is_letter(patched.bytes[k]), "offset {} is no letter", k);
    }
    assert_eq!(&patched.bytes[22..24], b"c_");
    assert_eq!(&patched.bytes[42..], &contents[42..]);
}
