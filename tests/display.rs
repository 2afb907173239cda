use ferris_demo::dlist::{
    resolve_row, scroll_text, set_ferris_position, sub_pixel_offsets, update_dlist, DisplayList,
    DisplayListLine, SubPixelAddressTable, BOTTOM_LINES, FERRIS_HEIGHT, MODE_BLANK, MODE_GRAPHICS,
    MODE_JUMP, MODE_TEXT, TOP_LINES,
};

const BASE: usize = 0x4000;

fn row(i: usize) -> usize {
    BASE + 64 * i
}

fn blank_lines(n: usize) -> Vec<DisplayListLine> {
    vec![DisplayListLine { mode: MODE_GRAPHICS, addr: 0 }; n]
}

#[test]
fn table_entries_split_row_addresses() {
    let t = SubPixelAddressTable::new(BASE);
    assert_eq!(t.base(), BASE);
    assert_eq!((t.lo_at(0), t.hi_at(0)), (0x00, 0x40));
    assert_eq!((t.lo_at(1), t.hi_at(1)), (0x40, 0x40));
    assert_eq!((t.lo_at(4), t.hi_at(4)), (0x00, 0x41));
    assert_eq!((t.lo_at(207), t.hi_at(207)), (0xc0, 0x73));
    for i in 0..FERRIS_HEIGHT {
        let a = t.hi_at(i) as usize * 256 + t.lo_at(i) as usize;
        assert_eq!(a, row(i));
    }
    let odd = SubPixelAddressTable::new(0x1234);
    assert_eq!((odd.lo_at(3), odd.hi_at(3)), (0xf4, 0x12));
}

#[test]
fn row_index_wraps_past_margin() {
    assert_eq!(resolve_row(0), 0);
    assert_eq!(resolve_row(191), 191);
    assert_eq!(resolve_row(192), 0);
    assert_eq!(resolve_row(207), 0);
    assert_eq!(resolve_row(300), 0);
    assert_eq!(resolve_row(-1), 0);
    assert_eq!(resolve_row(-44), 0);
}

#[test]
fn sub_pixel_offsets_are_one_stride_apart() {
    let t = SubPixelAddressTable::new(BASE);
    assert_eq!(sub_pixel_offsets(&t, 0, 0), (0, 64, 128, 192));
    assert_eq!(sub_pixel_offsets(&t, 1, 10), (74, 138, 202, 10));
    assert_eq!(sub_pixel_offsets(&t, 4, 63), (63, 127, 191, 255));
    assert_eq!(sub_pixel_offsets(&t, -3, 5), (69, 133, 197, 5));
    for b in 0..64u8 {
        let (l0, l1, l2, l3) = sub_pixel_offsets(&t, 2, b);
        assert_eq!(l1, l0.wrapping_add(64));
        assert_eq!(l2, l0.wrapping_add(128));
        assert_eq!(l3, l0.wrapping_add(192));
    }
}

#[test]
fn update_dlist_points_rows_in_order() {
    let t = SubPixelAddressTable::new(BASE);
    let mut lines = blank_lines(32);
    let mut index: i16 = 3;
    update_dlist(&mut index, &mut lines, 5, &t);
    assert_eq!(index, 35);
    for (j, l) in lines.iter().enumerate() {
        assert_eq!(l.mode, MODE_GRAPHICS);
        assert_eq!(l.addr, row(3 + j) + 5);
    }
}

#[test]
fn update_dlist_wraps_to_first_row() {
    let t = SubPixelAddressTable::new(BASE);
    let mut lines = blank_lines(16);
    let mut index: i16 = 200;
    update_dlist(&mut index, &mut lines, 7, &t);
    assert_eq!(index, 216);
    for (k, l) in lines.iter().enumerate() {
        assert_eq!(l.addr, BASE + 256 * (k / 4) + 64 * (k % 4) + 7);
    }
    let mut lines = blank_lines(16);
    let mut index: i16 = -3;
    update_dlist(&mut index, &mut lines, 0, &t);
    assert_eq!(index, 13);
    assert_eq!(lines[0].addr, BASE + 64);
    assert_eq!(lines[3].addr, BASE);
    assert_eq!(lines[4].addr, BASE + 256 + 64);
}

#[test]
fn new_display_list_shape() {
    let dl = DisplayList::new(0x3c00);
    assert_eq!(dl.data, [MODE_BLANK]);
    assert_eq!(dl.lines.len(), TOP_LINES);
    assert_eq!(dl.lines2.len(), BOTTOM_LINES);
    assert!(dl.lines.iter().all(|l| l.mode == MODE_GRAPHICS && l.addr == 0));
    assert_eq!(dl.text, DisplayListLine { mode: MODE_TEXT, addr: 0 });
    assert_eq!(dl.footer, DisplayListLine { mode: MODE_JUMP, addr: 0x3c00 });
}

#[test]
fn set_ferris_position_centred() {
    let t = SubPixelAddressTable::new(BASE);
    let mut dl = DisplayList::new(0x3c00);
    set_ferris_position(&mut dl, &t, 0, 0);
    // start row -12 wraps to the first row for the first pass
    for k in 0..16 {
        assert_eq!(dl.lines[k].addr, row(k) + 32);
    }
    // the second pass starts at row 4
    for k in 0..16 {
        assert_eq!(dl.lines[16 + k].addr, row(4 + k) + 32);
    }
    // the bottom block starts at row 204, which wraps
    for k in 0..16 {
        assert_eq!(dl.lines2[k].addr, row(k) + 32);
    }
    assert_eq!(dl.text, DisplayListLine { mode: MODE_TEXT, addr: 0 });
    assert_eq!(dl.footer.addr, 0x3c00);
}

#[test]
fn set_ferris_position_shifted() {
    let t = SubPixelAddressTable::new(BASE);
    let mut dl = DisplayList::new(0x3c00);
    set_ferris_position(&mut dl, &t, 127, 20);
    // start row 8, byte offset 63
    for j in 0..TOP_LINES {
        let pass = j / 16;
        let start = 8 + 16 * pass;
        let k = j % 16;
        let expected = if start < 192 {
            row(start + k) + 63
        } else {
            BASE + 256 * (k / 4) + 64 * ((start + k) % 4) + 63
        };
        assert_eq!(dl.lines[j].addr, expected, "entry {}", j);
    }
    // bottom block starts at row 224 and wraps
    for k in 0..16 {
        assert_eq!(dl.lines2[k].addr, row(k) + 63);
    }
}

#[test]
fn scroll_text_moves_only_text_line() {
    let mut dl = DisplayList::new(0x3c00);
    scroll_text(&mut dl, 0x8000, 17);
    assert_eq!(dl.text, DisplayListLine { mode: MODE_TEXT, addr: 0x8011 });
    assert_eq!(dl.footer.addr, 0x3c00);
    assert!(dl.lines.iter().all(|l| l.addr == 0));
}

#[test]
fn encode_lays_out_entries() {
    let t = SubPixelAddressTable::new(BASE);
    let mut dl = DisplayList::new(0x3c00);
    set_ferris_position(&mut dl, &t, 0, 0);
    scroll_text(&mut dl, 0x8000, 0x123);
    let bytes = dl.encode();
    assert_eq!(bytes.len(), 1 + 3 * (TOP_LINES + BOTTOM_LINES + 2));
    assert_eq!(bytes[0], MODE_BLANK);
    assert_eq!(&bytes[1..4], &[MODE_GRAPHICS, 0x20, 0x40]);
    assert_eq!(&bytes[4..7], &[MODE_GRAPHICS, 0x60, 0x40]);
    let text_at = 1 + 3 * TOP_LINES;
    assert_eq!(&bytes[text_at..text_at + 3], &[MODE_TEXT, 0x23, 0x81]);
    let n = bytes.len();
    assert_eq!(&bytes[n - 3..], &[MODE_JUMP, 0x00, 0x3c]);
}
