use kernel_gfx::{
    bump_alloc, bump_init, file_create, file_find, file_read, file_write, format_hex, idt_entry,
    idt_limit, vga_clear, vga_print, vga_print_at, vga_print_hex, vga_scroll, Cell, RamFs,
    TextConsole, BUFFER_HEIGHT, BUFFER_WIDTH, BUMP_ALIGN, CLEAR_ATTR, IDT_ENTRY_BYTES, IDT_ENTRIES,
    IDT_SELECTOR, IDT_TYPE_ATTR, MAX_FILES, MAX_FILE_SIZE, NAME_SIZE,
};

fn row_text(console: &TextConsole, row: usize, len: usize) -> String {
    let mut out = String::new();
    for col in 0..len {
        out.push(console.cell(row, col).ch as char);
    }
    out
}

fn blank() -> Cell {
    Cell { ch: b' ', attr: CLEAR_ATTR }
}

#[test]
fn console_starts_cleared() {
    let console = TextConsole::new();
    assert_eq!(BUFFER_WIDTH, 80);
    assert_eq!(BUFFER_HEIGHT, 25);
    assert_eq!(CLEAR_ATTR, 0x2f);
    for row in 0..25 {
        for col in 0..80 {
            assert_eq!(console.cell(row, col), blank());
        }
    }
    assert_eq!((console.cursor_row(), console.cursor_col()), (0, 0));
}

#[test]
fn print_writes_cells_and_moves_the_cursor() {
    let mut console = TextConsole::new();
    vga_print(&mut console, "Hi", 0x4f);
    assert_eq!(console.cell(0, 0), Cell { ch: b'H', attr: 0x4f });
    assert_eq!(console.cell(0, 1), Cell { ch: b'i', attr: 0x4f });
    assert_eq!(console.cell(0, 2), blank());
    assert_eq!((console.cursor_row(), console.cursor_col()), (0, 2));
    vga_print(&mut console, "!", 0x1f);
    assert_eq!(console.cell(0, 2), Cell { ch: b'!', attr: 0x1f });
    assert_eq!((console.cursor_row(), console.cursor_col()), (0, 3));
}

#[test]
fn line_feed_and_carriage_return_move_the_cursor() {
    let mut console = TextConsole::new();
    vga_print(&mut console, "ab\ncd\rE\n\nf", 7);
    assert_eq!(row_text(&console, 0, 3), "ab ");
    assert_eq!(row_text(&console, 1, 3), "Ed ");
    assert_eq!(row_text(&console, 2, 3), "   ");
    assert_eq!(row_text(&console, 3, 3), "f  ");
    assert_eq!((console.cursor_row(), console.cursor_col()), (3, 1));
}

#[test]
fn print_wraps_after_the_last_column() {
    let mut console = TextConsole::new();
    vga_print_at(&mut console, "xyz", 4, 78, 7);
    assert_eq!(console.cell(4, 78).ch, b'x');
    assert_eq!(console.cell(4, 79).ch, b'y');
    assert_eq!(console.cell(5, 0).ch, b'z');
    assert_eq!((console.cursor_row(), console.cursor_col()), (5, 1));
    vga_print_at(&mut console, "q", 2, 79, 7);
    assert_eq!((console.cursor_row(), console.cursor_col()), (3, 0));
}

#[test]
fn print_below_the_screen_scrolls_first() {
    let mut console = TextConsole::new();
    vga_print_at(&mut console, "top", 0, 0, 7);
    vga_print_at(&mut console, "second", 1, 0, 7);
    vga_print_at(&mut console, "last\n", 24, 0, 7);
    assert_eq!((console.cursor_row(), console.cursor_col()), (25, 0));
    assert_eq!(row_text(&console, 0, 3), "top");
    vga_print(&mut console, "new", 9);
    assert_eq!(row_text(&console, 0, 6), "second");
    assert_eq!(row_text(&console, 23, 4), "last");
    assert_eq!(row_text(&console, 24, 4), "new ");
    assert_eq!(console.cell(24, 0).attr, 9);
    assert_eq!(console.cell(24, 3), blank());
    assert_eq!((console.cursor_row(), console.cursor_col()), (24, 3));
}

#[test]
fn line_feeds_below_the_screen_scroll_once() {
    let mut console = TextConsole::new();
    vga_print_at(&mut console, "a", 0, 0, 7);
    vga_print_at(&mut console, "b", 1, 0, 7);
    vga_print_at(&mut console, "c", 2, 0, 7);
    vga_print_at(&mut console, "\n\n\n\nz", 24, 0, 7);
    assert_eq!(row_text(&console, 0, 1), "b");
    assert_eq!(row_text(&console, 1, 1), "c");
    assert_eq!(row_text(&console, 24, 1), "z");
    assert_eq!((console.cursor_row(), console.cursor_col()), (24, 1));
}

#[test]
fn print_at_a_row_far_below_the_screen() {
    let mut console = TextConsole::new();
    vga_print_at(&mut console, "a", 1, 0, 7);
    vga_print_at(&mut console, "z", 1000, 5, 7);
    assert_eq!(row_text(&console, 0, 1), "a");
    assert_eq!(console.cell(24, 5).ch, b'z');
    assert_eq!((console.cursor_row(), console.cursor_col()), (24, 6));
    vga_print_at(&mut console, "", usize::MAX, 3, 7);
    assert_eq!((console.cursor_row(), console.cursor_col()), (25, 3));
}

#[test]
fn filling_the_last_cell_moves_below_the_screen() {
    let mut console = TextConsole::new();
    vga_print_at(&mut console, "e", 24, 79, 7);
    assert_eq!(console.cell(24, 79).ch, b'e');
    assert_eq!((console.cursor_row(), console.cursor_col()), (25, 0));
    vga_print(&mut console, "f", 7);
    assert_eq!(console.cell(23, 79).ch, b'e');
    assert_eq!(console.cell(24, 0).ch, b'f');
    assert_eq!(console.cell(24, 79), blank());
}

#[test]
fn scroll_moves_every_row_up() {
    let mut console = TextConsole::new();
    vga_print_at(&mut console, "zero", 0, 0, 1);
    vga_print_at(&mut console, "one", 1, 0, 2);
    vga_print_at(&mut console, "bottom", 24, 10, 3);
    vga_print_at(&mut console, "", 7, 9, 3);
    vga_scroll(&mut console);
    assert_eq!(row_text(&console, 0, 4), "one ");
    assert_eq!(console.cell(0, 0).attr, 2);
    assert_eq!(console.cell(23, 10), Cell { ch: b'b', attr: 3 });
    for col in 0..80 {
        assert_eq!(console.cell(24, col), blank());
    }
    assert_eq!((console.cursor_row(), console.cursor_col()), (7, 9));
}

#[test]
fn clear_blanks_the_screen_and_homes_the_cursor() {
    let mut console = TextConsole::new();
    vga_print_at(&mut console, "something\nmore", 3, 3, 9);
    vga_clear(&mut console);
    for row in 0..25 {
        for col in 0..80 {
            assert_eq!(console.cell(row, col), blank());
        }
    }
    assert_eq!((console.cursor_row(), console.cursor_col()), (0, 0));
}

#[test]
fn hex_text_has_eight_upper_case_digits() {
    assert_eq!(&format_hex(0), b"0x00000000");
    assert_eq!(&format_hex(0xDEADBEEF), b"0xDEADBEEF");
    assert_eq!(&format_hex(0x1234ABCD), b"0x1234ABCD");
    assert_eq!(&format_hex(u32::MAX), b"0xFFFFFFFF");
    assert_eq!(&format_hex(0x9A), b"0x0000009A");
    assert_eq!(&format_hex(0x10000000), b"0x10000000");
}

#[test]
fn print_hex_prints_the_hex_text() {
    let mut console = TextConsole::new();
    vga_print(&mut console, "v=", 7);
    vga_print_hex(&mut console, 0xC0FFEE, 0x2f);
    assert_eq!(row_text(&console, 0, 13), "v=0x00C0FFEE ");
    assert_eq!(console.cell(0, 2).attr, 0x2f);
    assert_eq!((console.cursor_row(), console.cursor_col()), (0, 12));
}

#[test]
fn heap_hands_out_blocks_front_to_back() {
    assert_eq!(BUMP_ALIGN, 8);
    let mut heap = bump_init(0x100000, 0x200000);
    assert_eq!(heap.remaining(), 0x100000);
    assert_eq!(bump_alloc(&mut heap, 64), Some(0x100000));
    assert_eq!(bump_alloc(&mut heap, 128), Some(0x100040));
    assert_eq!(bump_alloc(&mut heap, 1), Some(0x1000C0));
    assert_eq!(bump_alloc(&mut heap, 9), Some(0x1000C8));
    assert_eq!(bump_alloc(&mut heap, 0), Some(0x1000D8));
    assert_eq!(bump_alloc(&mut heap, 8), Some(0x1000D8));
    assert_eq!(heap.remaining(), 0x100000 - 0xE0);
}

#[test]
fn heap_refuses_what_does_not_fit() {
    let mut heap = bump_init(16, 40);
    assert_eq!(bump_alloc(&mut heap, 25), None);
    assert_eq!(heap.remaining(), 24);
    assert_eq!(bump_alloc(&mut heap, usize::MAX), None);
    assert_eq!(bump_alloc(&mut heap, usize::MAX - 7), None);
    assert_eq!(bump_alloc(&mut heap, 17), Some(16));
    assert_eq!(bump_alloc(&mut heap, 1), None);
    assert_eq!(heap.remaining(), 0);
    assert_eq!(bump_alloc(&mut heap, 0), Some(40));
}

#[test]
fn heap_with_its_end_before_its_start_is_empty() {
    let mut heap = bump_init(100, 50);
    assert_eq!(heap.remaining(), 0);
    assert_eq!(bump_alloc(&mut heap, 0), None);
    assert_eq!(bump_alloc(&mut heap, 8), None);
}

#[test]
fn entry_splits_the_routine_address() {
    let e = idt_entry(0x1122_3344_5566_7788);
    assert_eq!(e.offset_low, 0x7788);
    assert_eq!(e.offset_mid, 0x5566);
    assert_eq!(e.offset_high, 0x1122_3344);
    assert_eq!(e.selector, 0x08);
    assert_eq!(e.type_attr, 0x8E);
    assert_eq!(e.ist, 0);
    assert_eq!(e.zero, 0);
    assert_eq!((IDT_SELECTOR, IDT_TYPE_ATTR), (0x08, 0x8E));
    assert_eq!(idt_entry(0), idt_entry(0));
    assert_eq!(idt_entry(u64::MAX).offset_high, u32::MAX);
    assert_eq!(idt_entry(0xFFFF).offset_mid, 0);
    assert_eq!(idt_entry(0x1_0000).offset_mid, 1);
}

#[test]
fn table_limit_is_its_size_less_one() {
    assert_eq!(IDT_ENTRIES * IDT_ENTRY_BYTES, 4096);
    assert_eq!(idt_limit(), 4095);
}

#[test]
fn store_creates_files_in_the_first_free_slot() {
    assert_eq!((MAX_FILES, MAX_FILE_SIZE, NAME_SIZE), (4, 256, 16));
    let mut fs = RamFs::new();
    assert_eq!(file_create(&mut fs, "a"), Some(0));
    assert_eq!(file_create(&mut fs, "b"), Some(1));
    assert_eq!(file_create(&mut fs, "a"), Some(2));
    assert_eq!(file_create(&mut fs, ""), Some(3));
    assert_eq!(file_create(&mut fs, "e"), None);
    assert_eq!(file_find(&fs, "a"), Some(0));
    assert_eq!(file_find(&fs, "b"), Some(1));
    assert_eq!(file_find(&fs, ""), Some(3));
    assert_eq!(file_find(&fs, "e"), None);
}

#[test]
fn store_reads_back_what_was_written() {
    let mut fs = RamFs::new();
    assert_eq!(file_read(&fs, 0), None);
    assert!(!file_write(&mut fs, 0, b"early"));
    assert_eq!(file_create(&mut fs, "log"), Some(0));
    assert_eq!(file_read(&fs, 0), Some(&b""[..]));
    assert!(file_write(&mut fs, 0, b"hello world"));
    assert_eq!(file_read(&fs, 0), Some(&b"hello world"[..]));
    assert!(file_write(&mut fs, 0, b"bye"));
    assert_eq!(file_read(&fs, 0), Some(&b"bye"[..]));
    assert!(!file_write(&mut fs, 1, b"x"));
    assert!(!file_write(&mut fs, 4, b"x"));
    assert!(!file_write(&mut fs, usize::MAX, b"x"));
    assert_eq!(file_read(&fs, 1), None);
    assert_eq!(file_read(&fs, 4), None);
}

#[test]
fn store_cuts_contents_at_the_size_limit() {
    let mut fs = RamFs::new();
    file_create(&mut fs, "big");
    let data: Vec<u8> = (0..300).map(|i| (i % 251) as u8).collect();
    assert!(file_write(&mut fs, 0, &data));
    assert_eq!(file_read(&fs, 0), Some(&data[..256]));
    assert!(file_write(&mut fs, 0, &data[..256]));
    assert_eq!(file_read(&fs, 0).map(|d| d.len()), Some(256));
}

#[test]
fn store_keeps_files_apart() {
    let mut fs = RamFs::new();
    file_create(&mut fs, "one");
    file_create(&mut fs, "two");
    file_write(&mut fs, 0, b"first");
    file_write(&mut fs, 1, b"second");
    file_create(&mut fs, "three");
    assert_eq!(file_read(&fs, 0), Some(&b"first"[..]));
    assert_eq!(file_read(&fs, 1), Some(&b"second"[..]));
    assert_eq!(file_read(&fs, 2), Some(&b""[..]));
    assert_eq!(file_find(&fs, "two"), Some(1));
    assert_eq!(file_find(&fs, "three"), Some(2));
}

#[test]
fn store_keeps_sixteen_bytes_of_a_name() {
    let mut fs = RamFs::new();
    file_create(&mut fs, "exactly16bytes!!");
    file_create(&mut fs, "a-name-longer-than-sixteen");
    assert_eq!(file_find(&fs, "exactly16bytes!!"), Some(0));
    assert_eq!(file_find(&fs, "a-name-longer-than-sixteen"), None);
    assert_eq!(file_find(&fs, "a-name-longer-th"), Some(1));
    assert_eq!(file_find(&fs, "a-name-longer-t"), None);
}

#[test]
fn store_finds_a_name_cut_inside_a_character_only_under_the_empty_name() {
    let mut fs = RamFs::new();
    file_create(&mut fs, "fifteen-bytes-a\u{e9}");
    assert_eq!(file_find(&fs, "fifteen-bytes-a\u{e9}"), None);
    assert_eq!(file_find(&fs, "fifteen-bytes-a"), None);
    assert_eq!(file_find(&fs, ""), Some(0));
    file_create(&mut fs, "caf\u{e9}");
    assert_eq!(file_find(&fs, "caf\u{e9}"), Some(1));
}

#[test]
fn store_drops_zero_bytes_at_the_end_of_a_name() {
    let mut fs = RamFs::new();
    file_create(&mut fs, "ab\0");
    assert_eq!(file_find(&fs, "ab"), Some(0));
    assert_eq!(file_find(&fs, "ab\0"), None);
    file_create(&mut fs, "a\0b");
    assert_eq!(file_find(&fs, "a\0b"), Some(1));
}
