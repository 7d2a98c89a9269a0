use dokany::wide::terminated_prefix;
use dokany::wide::wide_cstring;
use dokany::wide::wide_strlen;
use dokany::AsWide;
use dokany::WriteWideCStringCell;

fn utf16(s: &str) -> Vec<u16> {
    s.encode_utf16().collect()
}

#[test]
fn encode_then_decode_returns_short_string_unchanged() {
    let mut cell = WriteWideCStringCell::new(32);
    cell.write("Simple Filesystem");
    assert!(cell.is_initialized());
    let units = cell.as_units();
    assert_eq!(units.len(), 32);
    assert_eq!(terminated_prefix(units), utf16("Simple Filesystem"));
    // Zero-terminated right after the written characters.
    assert_eq!(units[17], 0);
}

#[test]
fn encode_exact_fit_keeps_all_units() {
    let mut cell = WriteWideCStringCell::new(3);
    cell.write("ab");
    assert_eq!(cell.as_units(), &[97, 98, 0]);
    assert_eq!(terminated_prefix(cell.as_units()), utf16("ab"));
}

#[test]
fn encode_truncates_long_string_and_terminates() {
    let mut cell = WriteWideCStringCell::new(4);
    cell.write("hello");
    let units = cell.as_units();
    // No overrun: the buffer keeps its capacity.
    assert_eq!(units.len(), 4);
    // Truncated to capacity minus one units, then the terminator.
    assert_eq!(units, &[104, 101, 108, 0]);
    assert_eq!(terminated_prefix(units), utf16("hel"));
}

#[test]
fn encode_much_longer_string_still_terminates() {
    let mut cell = WriteWideCStringCell::new(2);
    cell.write("a long volume name that cannot fit");
    assert_eq!(cell.as_units(), &[97, 0]);
}

#[test]
fn write_twice_overwrites_prefix_only() {
    let mut cell = WriteWideCStringCell::new(6);
    cell.write("abcd");
    assert_eq!(cell.as_units(), &[97, 98, 99, 100, 0, 0]);
    cell.write("x");
    // The shorter write replaces the front and re-terminates; units past
    // its terminator keep what the earlier write left there.
    assert_eq!(cell.as_units(), &[120, 0, 99, 100, 0, 0]);
    assert_eq!(terminated_prefix(cell.as_units()), utf16("x"));
}

#[test]
fn fresh_cell_is_zeroed_and_uninitialized() {
    let cell = WriteWideCStringCell::new(4);
    assert!(!cell.is_initialized());
    assert_eq!(cell.total_len(), 4);
    assert_eq!(cell.as_units(), &[0, 0, 0, 0]);
}

#[test]
fn wide_strlen_stops_at_first_zero() {
    assert_eq!(wide_strlen(&[72, 105, 0, 33]), 2);
    assert_eq!(wide_strlen(&[0, 7]), 0);
    assert_eq!(wide_strlen(&[]), 0);
}

#[test]
fn wide_strlen_without_zero_is_whole_slice() {
    assert_eq!(wide_strlen(&[1, 2, 3]), 3);
}

#[test]
fn terminated_prefix_of_unterminated_slice_is_whole_slice() {
    assert_eq!(terminated_prefix(&[1, 2, 3]), vec![1, 2, 3]);
}

#[test]
fn wide_cstring_appends_exactly_one_terminator() {
    assert_eq!(wide_cstring("Z"), vec![90, 0]);
    assert_eq!(wide_cstring(""), vec![0]);
    let path: Vec<u16> = utf16("C:\\mount");
    let mut expected = path.clone();
    expected.push(0);
    assert_eq!(wide_cstring(&path), expected);
}

#[test]
fn as_wide_agrees_across_implementations() {
    let s = "mount";
    let owned = String::from("mount");
    let units: Vec<u16> = utf16("mount");
    let slice: &[u16] = &units;
    assert_eq!(s.as_wide(), units);
    assert_eq!((&owned).as_wide(), units);
    assert_eq!((&units).as_wide(), units);
    assert_eq!(slice.as_wide(), units);
}

#[test]
fn as_wide_encodes_beyond_basic_plane() {
    // One character that takes a surrogate pair.
    let s = "\u{1D11E}";
    let units = s.as_wide();
    assert_eq!(units, utf16(s));
    assert_eq!(units.len(), 2);
}

#[test]
fn units_for_buffer_hands_fitting_strings_over_unchanged() {
    let mut cell = WriteWideCStringCell::new(4);
    cell.write("ab");
    assert_eq!(cell.units_for_buffer(3), vec![97, 98, 0]);
    assert_eq!(cell.units_for_buffer(4), vec![97, 98, 0, 0]);
}

#[test]
fn units_for_buffer_pads_short_cells_with_zeros() {
    let mut cell = WriteWideCStringCell::new(2);
    cell.write("a");
    assert_eq!(cell.units_for_buffer(4), vec![97, 0, 0, 0]);
}

#[test]
fn units_for_buffer_forces_a_terminator_when_truncating() {
    let mut cell = WriteWideCStringCell::new(6);
    cell.write("abcde");
    // The cell's own terminator lies beyond the native buffer, so the
    // last handed-over unit becomes the terminator.
    assert_eq!(cell.units_for_buffer(3), vec![97, 98, 0]);
    assert_eq!(cell.units_for_buffer(1), vec![0]);
}
