use lagide::terminal::{
    encode_char, function_key_sequence, ssh_shell_args, ssh_title, wsl_shell_args, wsl_title,
    TermColor, TerminalCell, TerminalKey, TerminalScreen,
};

#[test]
fn key_sequences() {
    let table: Vec<(TerminalKey, &[u8])> = vec![
        (TerminalKey::Enter, b"\r"),
        (TerminalKey::Tab, b"\t"),
        (TerminalKey::Backspace, b"\x7f"),
        (TerminalKey::Escape, b"\x1b"),
        (TerminalKey::Up, b"\x1b[A"),
        (TerminalKey::Down, b"\x1b[B"),
        (TerminalKey::Right, b"\x1b[C"),
        (TerminalKey::Left, b"\x1b[D"),
        (TerminalKey::Home, b"\x1b[H"),
        (TerminalKey::End, b"\x1b[F"),
        (TerminalKey::PageUp, b"\x1b[5~"),
        (TerminalKey::PageDown, b"\x1b[6~"),
        (TerminalKey::Delete, b"\x1b[3~"),
        (TerminalKey::Insert, b"\x1b[2~"),
        (TerminalKey::CtrlC, b"\x03"),
        (TerminalKey::CtrlD, b"\x04"),
        (TerminalKey::CtrlZ, b"\x1a"),
        (TerminalKey::CtrlL, b"\x0c"),
        (TerminalKey::F(1), b"\x1bOP"),
        (TerminalKey::F(4), b"\x1bOS"),
        (TerminalKey::F(5), b"\x1b[15~"),
        (TerminalKey::F(11), b"\x1b[23~"),
        (TerminalKey::F(12), b"\x1b[24~"),
    ];
    for (k, want) in table {
        assert_eq!(k.sequence().unwrap(), want.to_vec(), "{:?}", k);
    }
    assert!(TerminalKey::F(0).sequence().is_none());
    assert!(TerminalKey::F(13).sequence().is_none());
    assert!(function_key_sequence(200).is_none());
}

#[test]
fn typed_characters_are_utf8() {
    for c in ['a', '\0', '\u{7f}', '\u{80}', 'é', '\u{7ff}', '\u{800}', '€', '\u{ffff}', '\u{10000}', '😀', '\u{10ffff}'] {
        let mut buf = [0u8; 4];
        assert_eq!(encode_char(c), c.encode_utf8(&mut buf).as_bytes().to_vec());
    }
}

#[test]
fn screen_shows_processed_output() {
    let mut s = TerminalScreen::new(3, 5, 100);
    s.process(b"ab\x1b[31mc");
    let lines = s.screen_lines(3, 5);
    assert_eq!(lines.len(), 3);
    assert!(lines.iter().all(|l| l.cells.len() == 5));
    assert_eq!(lines[0].cells[0].c, 'a');
    assert_eq!(lines[0].cells[2].c, 'c');
    assert_eq!(lines[0].cells[2].fg, TermColor::Indexed(1));
    assert_eq!(lines[0].cells[3], TerminalCell::default());
    assert_eq!(s.cursor_position(), (0, 3));
    let bigger = s.screen_lines(4, 6);
    assert_eq!(bigger[3].cells[5], TerminalCell::default());
    s.set_size(2, 2);
    let small = s.screen_lines(2, 2);
    assert_eq!(small[0].cells[1].c, 'b');
}

#[test]
fn default_cell_is_blank() {
    let c = TerminalCell::default();
    assert_eq!(c.c, ' ');
    assert_eq!(c.fg, TermColor::Default);
    assert_eq!(c.bg, TermColor::Default);
    assert!(!c.bold && !c.italic && !c.underline && !c.inverse);
}

#[test]
fn titles_and_arguments() {
    assert_eq!(wsl_title("Debian"), "WSL: Debian");
    assert_eq!(wsl_shell_args("Debian"), vec!["-d", "Debian"]);
    assert_eq!(ssh_title("example.org", 22, "root"), "SSH: root@example.org:22");
    assert_eq!(
        ssh_shell_args("example.org", 2200, "root"),
        vec!["-p", "2200", "-o", "StrictHostKeyChecking=accept-new", "root@example.org"]
    );
}

#[test]
fn new_screen_cursor_and_empty_output() {
    let mut s = TerminalScreen::new(4, 10, 0);
    assert_eq!(s.cursor_position(), (0, 0));
    let before = s.screen_lines(4, 10);
    s.process(b"");
    assert_eq!(s.cursor_position(), (0, 0));
    let after = s.screen_lines(4, 10);
    for (a, b) in before.iter().zip(after.iter()) {
        assert_eq!(a.cells, b.cells);
    }
    s.process(b"hi\r\nyo");
    assert_eq!(s.cursor_position(), (1, 2));
    assert_eq!(s.screen_lines(4, 10)[1].cells[1].c, 'o');
}

#[test]
fn wide_characters_on_two_columns_and_resize_clamps_cursor() {
    let mut s = TerminalScreen::new(2, 2, 0);
    s.process("中中".as_bytes());
    assert_eq!(s.screen_lines(2, 2)[0].cells[0].c, '中');
    let mut t = TerminalScreen::new(5, 10, 0);
    t.process(b"\x1b[5;10H");
    assert_eq!(t.cursor_position(), (4, 9));
    t.set_size(3, 4);
    let (r, c) = t.cursor_position();
    assert!(r < 3 && c < 4);
}
