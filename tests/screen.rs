use ark::cp437::normalize_to_cp437;
use ark::vga::{CellWrite, CharEffect, VGAScreen, BLANK_CELL};

#[test]
fn code_page_mapping() {
    assert_eq!(normalize_to_cp437('A'), 0x41);
    assert_eq!(normalize_to_cp437(' '), 0x20);
    assert_eq!(normalize_to_cp437('}'), b'}');
    assert_eq!(normalize_to_cp437('~'), 0xFE);
    assert_eq!(normalize_to_cp437('\n'), b'\n');
    assert_eq!(normalize_to_cp437('\t'), b'\t');
    assert_eq!(normalize_to_cp437('\r'), b'\r');
    assert_eq!(normalize_to_cp437('á'), 0xA0);
    assert_eq!(normalize_to_cp437('ç'), 0x87);
    assert_eq!(normalize_to_cp437('õ'), 0xA5);
    assert_eq!(normalize_to_cp437('€'), 0xFE);
    assert_eq!(normalize_to_cp437('\u{7}'), 0xFE);
}

#[test]
fn write_string_places_glyphs() {
    let mut screen = VGAScreen::new();
    let effects = screen.write_string("Ab\nç");
    assert_eq!(effects.len(), 4);
    assert_eq!(effects[0], CharEffect { put: Some(CellWrite { index: 0, value: 0x0F41 }), scrolled: false });
    assert_eq!(effects[1], CharEffect { put: Some(CellWrite { index: 1, value: 0x0F62 }), scrolled: false });
    assert_eq!(effects[2], CharEffect { put: None, scrolled: false });
    assert_eq!(effects[3], CharEffect { put: Some(CellWrite { index: 80, value: 0x0F87 }), scrolled: false });
    assert_eq!(screen.cursor_index(), 81);
    screen.reset();
    assert_eq!(screen.cursor_index(), 0);
    assert_eq!(BLANK_CELL, 0x0F20);
}

#[test]
fn tab_carriage_return_wrap_and_scroll() {
    let mut screen = VGAScreen::new();
    screen.write_string("abc\t");
    assert_eq!(screen.cursor_index(), 8);
    screen.write_string("x\r");
    assert_eq!(screen.cursor_index(), 0);
    let line: String = std::iter::repeat('x').take(80).collect();
    screen.write_string(&line);
    assert_eq!(screen.cursor_index(), 80);
    let newlines: String = std::iter::repeat('\n').take(23).collect();
    let effects = screen.write_string(&newlines);
    assert!(effects.iter().all(|e| !e.scrolled));
    assert_eq!(screen.cursor_index(), 24 * 80);
    let last = screen.write_string("\n");
    assert!(last[0].scrolled);
    assert_eq!(screen.cursor_index(), 24 * 80);
}
