//! The terminal emulator's logic: the bytes that keys send, the encoding of
//! typed characters, the screen kept by the `vt100` parser and the grid of
//! cells that is drawn from it.

use vstd::prelude::*;
use vstd::utf8::{encode_scalar, char_is_scalar};
use crate::text::{chars_of, concat2, decimal, decimal_string, owned};
use crate::wsl::string_views;

verus! {

/// A key that has its own byte sequence.
#[derive(Debug, Clone, Copy, PartialEq, Eq, Structural)]
pub enum TerminalKey {
    Enter,
    Tab,
    Backspace,
    Escape,
    Up,
    Down,
    Right,
    Left,
    Home,
    End,
    PageUp,
    PageDown,
    Delete,
    Insert,
    F(u8),
    CtrlC,
    CtrlD,
    CtrlZ,
    CtrlL,
}

/// The bytes that the function key `n` sends: `ESC O P` to `ESC O S` for
/// F1 to F4, `ESC [ nn ~` for F5 to F12, nothing for other numbers.
pub open spec fn function_key_bytes(n: u8) -> Option<Seq<u8>> {
    if n == 1 {
        Some(seq![0x1bu8, 0x4f, 0x50])
    } else if n == 2 {
        Some(seq![0x1bu8, 0x4f, 0x51])
    } else if n == 3 {
        Some(seq![0x1bu8, 0x4f, 0x52])
    } else if n == 4 {
        Some(seq![0x1bu8, 0x4f, 0x53])
    } else if n == 5 {
        Some(seq![0x1bu8, 0x5b, 0x31, 0x35, 0x7e])
    } else if n == 6 {
        Some(seq![0x1bu8, 0x5b, 0x31, 0x37, 0x7e])
    } else if n == 7 {
        Some(seq![0x1bu8, 0x5b, 0x31, 0x38, 0x7e])
    } else if n == 8 {
        Some(seq![0x1bu8, 0x5b, 0x31, 0x39, 0x7e])
    } else if n == 9 {
        Some(seq![0x1bu8, 0x5b, 0x32, 0x30, 0x7e])
    } else if n == 10 {
        Some(seq![0x1bu8, 0x5b, 0x32, 0x31, 0x7e])
    } else if n == 11 {
        Some(seq![0x1bu8, 0x5b, 0x32, 0x33, 0x7e])
    } else if n == 12 {
        Some(seq![0x1bu8, 0x5b, 0x32, 0x34, 0x7e])
    } else {
        None
    }
}

/// The bytes that a key sends to the program in the terminal: control
/// characters, and the xterm escape sequences for the cursor and editing
/// keys; a function key sends what `function_key_bytes` says.
pub open spec fn key_bytes(k: TerminalKey) -> Option<Seq<u8>> {
    match k {
        TerminalKey::Enter => Some(seq![0x0du8]),
        TerminalKey::Tab => Some(seq![0x09u8]),
        TerminalKey::Backspace => Some(seq![0x7fu8]),
        TerminalKey::Escape => Some(seq![0x1bu8]),
        TerminalKey::Up => Some(seq![0x1bu8, 0x5b, 0x41]),
        TerminalKey::Down => Some(seq![0x1bu8, 0x5b, 0x42]),
        TerminalKey::Right => Some(seq![0x1bu8, 0x5b, 0x43]),
        TerminalKey::Left => Some(seq![0x1bu8, 0x5b, 0x44]),
        TerminalKey::Home => Some(seq![0x1bu8, 0x5b, 0x48]),
        TerminalKey::End => Some(seq![0x1bu8, 0x5b, 0x46]),
        TerminalKey::PageUp => Some(seq![0x1bu8, 0x5b, 0x35, 0x7e]),
        TerminalKey::PageDown => Some(seq![0x1bu8, 0x5b, 0x36, 0x7e]),
        TerminalKey::Delete => Some(seq![0x1bu8, 0x5b, 0x33, 0x7e]),
        TerminalKey::Insert => Some(seq![0x1bu8, 0x5b, 0x32, 0x7e]),
        TerminalKey::F(n) => function_key_bytes(n),
        TerminalKey::CtrlC => Some(seq![0x03u8]),
        TerminalKey::CtrlD => Some(seq![0x04u8]),
        TerminalKey::CtrlZ => Some(seq![0x1au8]),
        TerminalKey::CtrlL => Some(seq![0x0cu8]),
    }
}

/// The bytes that the function key `n` sends, if it is one of F1 to F12.
pub fn function_key_sequence(n: u8) -> (r: Option<Vec<u8>>)
    ensures
        match r {
            Some(v) => function_key_bytes(n) == Some(v@),
            None => function_key_bytes(n) is None,
        },
{
    let v: Vec<u8> = if n == 1 {
        vec![0x1b, 0x4f, 0x50]
    } else if n == 2 {
        vec![0x1b, 0x4f, 0x51]
    } else if n == 3 {
        vec![0x1b, 0x4f, 0x52]
    } else if n == 4 {
        vec![0x1b, 0x4f, 0x53]
    } else if n == 5 {
        vec![0x1b, 0x5b, 0x31, 0x35, 0x7e]
    } else if n == 6 {
        vec![0x1b, 0x5b, 0x31, 0x37, 0x7e]
    } else if n == 7 {
        vec![0x1b, 0x5b, 0x31, 0x38, 0x7e]
    } else if n == 8 {
        vec![0x1b, 0x5b, 0x31, 0x39, 0x7e]
    } else if n == 9 {
        vec![0x1b, 0x5b, 0x32, 0x30, 0x7e]
    } else if n == 10 {
        vec![0x1b, 0x5b, 0x32, 0x31, 0x7e]
    } else if n == 11 {
        vec![0x1b, 0x5b, 0x32, 0x33, 0x7e]
    } else if n == 12 {
        vec![0x1b, 0x5b, 0x32, 0x34, 0x7e]
    } else {
        return None;
    };
    assert(function_key_bytes(n) == Some(v@));
    Some(v)
}

impl TerminalKey {
    /// The bytes that the key sends; none for a function key other than F1
    /// to F12.
    pub fn sequence(&self) -> (r: Option<Vec<u8>>)
        ensures
            match r {
                Some(v) => key_bytes(*self) == Some(v@),
                None => key_bytes(*self) is None,
            },
    {
        let v: Vec<u8> = match self {
            TerminalKey::Enter => vec![0x0d],
            TerminalKey::Tab => vec![0x09],
            TerminalKey::Backspace => vec![0x7f],
            TerminalKey::Escape => vec![0x1b],
            TerminalKey::Up => vec![0x1b, 0x5b, 0x41],
            TerminalKey::Down => vec![0x1b, 0x5b, 0x42],
            TerminalKey::Right => vec![0x1b, 0x5b, 0x43],
            TerminalKey::Left => vec![0x1b, 0x5b, 0x44],
            TerminalKey::Home => vec![0x1b, 0x5b, 0x48],
            TerminalKey::End => vec![0x1b, 0x5b, 0x46],
            TerminalKey::PageUp => vec![0x1b, 0x5b, 0x35, 0x7e],
            TerminalKey::PageDown => vec![0x1b, 0x5b, 0x36, 0x7e],
            TerminalKey::Delete => vec![0x1b, 0x5b, 0x33, 0x7e],
            TerminalKey::Insert => vec![0x1b, 0x5b, 0x32, 0x7e],
            TerminalKey::F(n) => {
                return function_key_sequence(*n);
            },
            TerminalKey::CtrlC => vec![0x03],
            TerminalKey::CtrlD => vec![0x04],
            TerminalKey::CtrlZ => vec![0x1a],
            TerminalKey::CtrlL => vec![0x0c],
        };
        assert(key_bytes(*self) == Some(v@));
        Some(v)
    }
}

/// The UTF-8 encoding of `c`, the bytes that typing it sends.
pub fn encode_char(c: char) -> (r: Vec<u8>)
    ensures
        r@ == encode_scalar(c as u32),
        1 <= r@.len() <= 4,
{
    proof {
        char_is_scalar(c);
    }
    let u: u32 = c as u32;
    if u <= 0x7f {
        vec![(u & 0x7F) as u8]
    } else if u <= 0x7ff {
        vec![0xC0 | ((u >> 6) & 0x1F) as u8, 0x80 | (u & 0x3F) as u8]
    } else if u <= 0xffff {
        vec![
            0xE0 | ((u >> 12) & 0x0F) as u8,
            0x80 | ((u >> 6) & 0x3F) as u8,
            0x80 | (u & 0x3F) as u8,
        ]
    } else {
        vec![
            0xF0 | ((u >> 18) & 0x7) as u8,
            0x80 | ((u >> 12) & 0x3F) as u8,
            0x80 | ((u >> 6) & 0x3F) as u8,
            0x80 | (u & 0x3F) as u8,
        ]
    }
}

/// A colour of the terminal's palette.
#[derive(Debug, Clone, Copy, PartialEq, Eq, Structural)]
pub enum TermColor {
    Default,
    Indexed(u8),
    Rgb(u8, u8, u8),
}

/// A character cell as it is drawn: its character, colours and attributes.
#[derive(Debug, Clone, Copy, PartialEq, Eq, Structural)]
pub struct TerminalCell {
    pub c: char,
    pub fg: TermColor,
    pub bg: TermColor,
    pub bold: bool,
    pub italic: bool,
    pub underline: bool,
    pub inverse: bool,
}

/// An empty cell: a space in the default colours, without attributes.
pub open spec fn blank_cell() -> TerminalCell {
    TerminalCell {
        c: ' ',
        fg: TermColor::Default,
        bg: TermColor::Default,
        bold: false,
        italic: false,
        underline: false,
        inverse: false,
    }
}

impl Default for TerminalCell {
    fn default() -> (r: Self)
        ensures
            r == blank_cell(),
    {
        TerminalCell {
            c: ' ',
            fg: TermColor::Default,
            bg: TermColor::Default,
            bold: false,
            italic: false,
            underline: false,
            inverse: false,
        }
    }
}

/// One row of cells.
#[derive(Debug, Clone)]
pub struct TerminalLine {
    pub cells: Vec<TerminalCell>,
}

/// What the `vt100` screen holds in one cell: its text (a character and
/// any combining characters that follow it), colours and attributes.
#[derive(Debug, Clone)]
pub struct ScreenCell {
    pub contents: String,
    pub fg: TermColor,
    pub bg: TermColor,
    pub bold: bool,
    pub italic: bool,
    pub underline: bool,
    pub inverse: bool,
}

/// The cell drawn for a screen cell: the first character of its text, or a
/// space where it has none.
pub open spec fn drawn_cell(s: ScreenCell) -> TerminalCell {
    TerminalCell {
        c: if s.contents@.len() > 0 {
            s.contents@[0]
        } else {
            ' '
        },
        fg: s.fg,
        bg: s.bg,
        bold: s.bold,
        italic: s.italic,
        underline: s.underline,
        inverse: s.inverse,
    }
}

/// The cell drawn for a screen cell.
pub fn drawn_cell_of(s: &ScreenCell) -> (r: TerminalCell)
    ensures
        r == drawn_cell(*s),
{
    let text = chars_of(s.contents.as_str());
    let c = if text.len() > 0 {
        text[0]
    } else {
        ' '
    };
    TerminalCell {
        c,
        fg: s.fg,
        bg: s.bg,
        bold: s.bold,
        italic: s.italic,
        underline: s.underline,
        inverse: s.inverse,
    }
}

/// `vt100::Parser`, the terminal state that output is fed into.
#[verifier::external_type_specification]
#[verifier::external_body]
pub struct ExVt100Parser(vt100::Parser);

/// The cells that the parser's screen shows, by (row, column).
pub uninterp spec fn visible_cells(p: vt100::Parser) -> Map<(u16, u16), ScreenCell>;

/// The (rows, columns) that the parser's screen was made or last resized
/// with.
pub uninterp spec fn screen_size(p: vt100::Parser) -> (u16, u16);

/// The cells that the parser's screen shows, and where its cursor stands,
/// after `bytes` of output are fed to it: terminal emulation, a function of
/// the parser's state and the bytes.
pub uninterp spec fn after_output(p: vt100::Parser, bytes: Seq<u8>) -> (Map<(u16, u16), ScreenCell>, (u16, u16));

/// The cells that the parser's screen shows, and where its cursor stands,
/// after it is resized to `rows` by `cols`.
pub uninterp spec fn after_resize(p: vt100::Parser, rows: u16, cols: u16) -> (Map<(u16, u16), ScreenCell>, (u16, u16));

/// The (row, column) of the cursor on the parser's screen.
pub uninterp spec fn cursor_of(p: vt100::Parser) -> (u16, u16);

/// A screen cell with no text, in the default colours, without attributes.
pub open spec fn is_blank_screen_cell(s: ScreenCell) -> bool {
    &&& s.contents@.len() == 0
    &&& s.fg == TermColor::Default
    &&& s.bg == TermColor::Default
    &&& !s.bold
    &&& !s.italic
    &&& !s.underline
    &&& !s.inverse
}

/// `vt100::Parser::new`: a screen of the given size, with the given number
/// of rows of scrollback.
///
/// Stated: the screen has that size, its cursor is at (0, 0) (both grids
/// start at `Pos::default()`), and every cell it shows is blank (the rows are
/// made of `Cell::default()`, which has no text, default colours and no
/// attributes). The parser panics on zero rows, and later output panics on
/// zero columns; `requires` leaves both out.
#[verifier::external_body]
fn parser_new(rows: u16, cols: u16, scrollback: usize) -> (r: vt100::Parser)
    requires
        rows > 0,
        cols > 0,
    ensures
        screen_size(r) == (rows, cols),
        cursor_of(r) == (0u16, 0u16),
        forall|k: (u16, u16)|
            visible_cells(r).contains_key(k) ==> is_blank_screen_cell(
                #[trigger] visible_cells(r)[k],
            ),
{
    vt100::Parser::new(rows, cols, scrollback)
}

/// `vt100::Parser::process`: feeds output bytes to the screen.
///
/// Stated: the screen keeps its size; the cells it then shows and its cursor
/// are `after_output` of the parser before the call and the bytes (how the
/// bytes change them is terminal emulation, left to the name); and no bytes
/// change nothing, as the source feeds the bytes one by one in a loop.
/// On a screen without rows, or with fewer than two columns, printing a
/// character panics (a double-width one computes `cols - 2` and then reads
/// a cell past the row), which `requires` leaves out.
#[verifier::external_body]
fn parser_process(p: &mut vt100::Parser, bytes: &[u8])
    requires
        screen_size(*old(p)).0 > 0,
        screen_size(*old(p)).1 >= 2,
    ensures
        screen_size(*final(p)) == screen_size(*old(p)),
        (visible_cells(*final(p)), cursor_of(*final(p))) == after_output(*old(p), bytes@),
        bytes@.len() == 0 ==> *final(p) == *old(p),
{
    p.process(bytes)
}

/// `vt100::Parser::set_size`: resizes the screen.
///
/// Stated: the screen has the new size; the cells it then shows and its
/// cursor are `after_resize` of the parser before the call and the size;
/// and the cursor is inside the new screen, as both grids clamp it
/// (`row_clamp_bottom`, `col_clamp`). It panics on zero rows or columns,
/// which `requires` leaves out.
#[verifier::external_body]
fn parser_set_size(p: &mut vt100::Parser, rows: u16, cols: u16)
    requires
        rows > 0,
        cols > 0,
    ensures
        screen_size(*final(p)) == (rows, cols),
        (visible_cells(*final(p)), cursor_of(*final(p))) == after_resize(*old(p), rows, cols),
        cursor_of(*final(p)).0 < rows,
        cursor_of(*final(p)).1 < cols,
{
    p.set_size(rows, cols)
}

/// `vt100::Screen::cursor_position`: the cursor's (row, column).
///
/// Stated: it is `cursor_of` the parser. Where the cursor goes as output is
/// fed is left to the name (the column can reach the number of columns
/// while a line wrap is pending, so no bound is stated).
#[verifier::external_body]
fn parser_cursor(p: &vt100::Parser) -> (r: (u16, u16))
    ensures
        r == cursor_of(*p),
{
    p.screen().cursor_position()
}

/// `vt100::Screen::cell`: the cell at (row, column), converted to plain
/// values one for one.
///
/// Stated: it is the cell that `visible_cells` holds there, or nothing where
/// that holds none.
#[verifier::external_body]
fn parser_cell(p: &vt100::Parser, row: u16, col: u16) -> (r: Option<ScreenCell>)
    ensures
        match r {
            Some(c) => visible_cells(*p).contains_key((row, col)) && c == visible_cells(
                *p,
            )[(row, col)],
            None => !visible_cells(*p).contains_key((row, col)),
        },
{
    let color = |c: vt100::Color| match c {
        vt100::Color::Default => TermColor::Default,
        vt100::Color::Idx(i) => TermColor::Indexed(i),
        vt100::Color::Rgb(r, g, b) => TermColor::Rgb(r, g, b),
    };
    p.screen().cell(row, col).map(|c| ScreenCell {
        contents: c.contents(),
        fg: color(c.fgcolor()),
        bg: color(c.bgcolor()),
        bold: c.bold(),
        italic: c.italic(),
        underline: c.underline(),
        inverse: c.inverse(),
    })
}

/// The cell drawn at (row, column) of a screen whose cells are `cells`:
/// the drawn form of the screen cell there, or a blank cell.
pub open spec fn cell_at(cells: Map<(u16, u16), ScreenCell>, row: int, col: int) -> TerminalCell {
    if cells.contains_key((row as u16, col as u16)) {
        drawn_cell(cells[(row as u16, col as u16)])
    } else {
        blank_cell()
    }
}

/// The screen of a terminal: the `vt100` parser that its output is fed to.
pub struct TerminalScreen {
    parser: vt100::Parser,
}

impl TerminalScreen {
    /// The cells that the screen shows.
    pub closed spec fn cells(&self) -> Map<(u16, u16), ScreenCell> {
        visible_cells(self.parser)
    }

    /// The size that the screen was made or last resized with.
    pub closed spec fn size(&self) -> (u16, u16) {
        screen_size(self.parser)
    }

    /// The cursor's (row, column).
    pub closed spec fn cursor(&self) -> (u16, u16) {
        cursor_of(self.parser)
    }

    /// The cells that the screen shows, and its cursor, after `bytes` of
    /// output are fed to it.
    pub closed spec fn after(&self, bytes: Seq<u8>) -> (Map<(u16, u16), ScreenCell>, (u16, u16)) {
        after_output(self.parser, bytes)
    }

    /// The cells that the screen shows, and its cursor, after it is resized
    /// to `rows` by `cols`.
    pub closed spec fn resized(&self, rows: u16, cols: u16) -> (Map<(u16, u16), ScreenCell>, (u16, u16)) {
        after_resize(self.parser, rows, cols)
    }

    /// A screen of `rows` by `cols` cells, keeping `scrollback` rows that
    /// scroll off.
    pub fn new(rows: u16, cols: u16, scrollback: usize) -> (r: Self)
        requires
            rows > 0,
            cols > 0,
        ensures
            r.size() == (rows, cols),
            r.cursor() == (0u16, 0u16),
            forall|i: int, j: int| #[trigger] cell_at(r.cells(), i, j) == blank_cell(),
    {
        let r = TerminalScreen { parser: parser_new(rows, cols, scrollback) };
        assert forall|i: int, j: int| #[trigger] cell_at(r.cells(), i, j) == blank_cell() by {
            let k: (u16, u16) = (i as u16, j as u16);
            if r.cells().contains_key(k) {
                assert(is_blank_screen_cell(r.cells()[k]));
            }
        }
        r
    }

    /// Feeds output of the program in the terminal to the screen: it keeps
    /// its size and shows the cells and cursor that the output leaves; no
    /// output changes nothing. The screen needs at least two columns.
    pub fn process(&mut self, bytes: &[u8])
        requires
            old(self).size().0 > 0,
            old(self).size().1 >= 2,
        ensures
            final(self).size() == old(self).size(),
            (final(self).cells(), final(self).cursor()) == old(self).after(bytes@),
            bytes@.len() == 0 ==> *final(self) == *old(self),
    {
        parser_process(&mut self.parser, bytes)
    }

    /// Resizes the screen: it shows the cells and cursor that the resize
    /// leaves, the cursor inside the new size.
    pub fn set_size(&mut self, rows: u16, cols: u16)
        requires
            rows > 0,
            cols > 0,
        ensures
            final(self).size() == (rows, cols),
            (final(self).cells(), final(self).cursor()) == old(self).resized(rows, cols),
            final(self).cursor().0 < rows,
            final(self).cursor().1 < cols,
    {
        parser_set_size(&mut self.parser, rows, cols)
    }

    /// The cursor's (row, column).
    pub fn cursor_position(&self) -> (r: (u16, u16))
        ensures
            r == self.cursor(),
    {
        parser_cursor(&self.parser)
    }

    /// The `rows` by `cols` grid of cells to draw: at each place the drawn
    /// form of the screen's cell there, or a blank cell where the screen has
    /// none.
    pub fn screen_lines(&self, rows: u16, cols: u16) -> (r: Vec<TerminalLine>)
        ensures
            r@.len() == rows,
            forall|i: int|
                0 <= i < rows ==> (#[trigger] r@[i]).cells@.len() == cols && forall|j: int|
                    0 <= j < cols ==> #[trigger] r@[i].cells@[j] == cell_at(self.cells(), i, j),
    {
        let mut lines: Vec<TerminalLine> = Vec::new();
        let mut row: u16 = 0;
        while row < rows
            invariant
                row <= rows,
                lines@.len() == row,
                forall|i: int|
                    0 <= i < row ==> (#[trigger] lines@[i]).cells@.len() == cols && forall|j: int|
                        0 <= j < cols ==> #[trigger] lines@[i].cells@[j] == cell_at(
                            self.cells(),
                            i,
                            j,
                        ),
            decreases rows - row,
        {
            let mut cells: Vec<TerminalCell> = Vec::new();
            let mut col: u16 = 0;
            while col < cols
                invariant
                    row < rows,
                    col <= cols,
                    cells@.len() == col,
                    forall|j: int|
                        0 <= j < col ==> #[trigger] cells@[j] == cell_at(self.cells(), row as int, j),
                decreases cols - col,
            {
                let cell = match parser_cell(&self.parser, row, col) {
                    Some(sc) => drawn_cell_of(&sc),
                    None => TerminalCell::default(),
                };
                cells.push(cell);
                col += 1;
            }
            lines.push(TerminalLine { cells });
            row += 1;
        }
        lines
    }
}

/// The title of a terminal on a WSL distribution.
pub fn wsl_title(distro: &str) -> (r: String)
    ensures
        r@ == "WSL: "@ + distro@,
{
    concat2("WSL: ", distro)
}

/// The arguments of `wsl` for a shell on a distribution.
pub fn wsl_shell_args(distro: &str) -> (r: Vec<String>)
    ensures
        string_views(r@) == seq!["-d"@, distro@],
{
    let mut r: Vec<String> = Vec::new();
    r.push(owned("-d"));
    r.push(owned(distro));
    assert(string_views(r@) =~= seq!["-d"@, distro@]);
    r
}

/// The title of a terminal on an SSH host: `SSH: user@host:port`.
pub fn ssh_title(host: &str, port: u16, username: &str) -> (r: String)
    ensures
        r@ == "SSH: "@ + username@ + "@"@ + host@ + ":"@ + decimal(port as nat),
{
    let mut r = concat2("SSH: ", username);
    r.append("@");
    r.append(host);
    r.append(":");
    r.append(decimal_string(port as u64).as_str());
    r
}

/// The arguments of `ssh` for an interactive session: the port, accepting
/// a host key seen for the first time, and `user@host`.
pub fn ssh_shell_args(host: &str, port: u16, username: &str) -> (r: Vec<String>)
    ensures
        string_views(r@) == seq![
            "-p"@,
            decimal(port as nat),
            "-o"@,
            "StrictHostKeyChecking=accept-new"@,
            username@ + "@"@ + host@,
        ],
{
    let mut r: Vec<String> = Vec::new();
    r.push(owned("-p"));
    r.push(decimal_string(port as u64));
    r.push(owned("-o"));
    r.push(owned("StrictHostKeyChecking=accept-new"));
    let mut target = owned(username);
    target.append("@");
    target.append(host);
    r.push(target);
    assert(string_views(r@) =~= seq![
        "-p"@,
        decimal(port as nat),
        "-o"@,
        "StrictHostKeyChecking=accept-new"@,
        username@ + "@"@ + host@,
    ]);
    r
}


/// Every key but a function key sends a non-empty sequence; a function key
/// sends one exactly when it is F1 to F12, and that one starts with `ESC`.
pub proof fn law_key_sequences_defined(k: TerminalKey, n: u8)
    ensures
        !(k is F) ==> key_bytes(k) is Some && key_bytes(k)->0.len() > 0,
        function_key_bytes(n) is Some <==> 1 <= n <= 12,
        function_key_bytes(n) matches Some(b) ==> b.len() >= 3 && b[0] == 0x1b,
{
}

/// Two different keys, F1 to F12 among them, send different sequences.
pub proof fn law_key_sequences_distinct(a: TerminalKey, b: TerminalKey)
    requires
        a != b,
        key_bytes(a) is Some,
        key_bytes(b) is Some,
    ensures
        key_bytes(a) != key_bytes(b),
{
    let x = key_bytes(a)->0;
    let y = key_bytes(b)->0;
    if x == y {
        assert(x.len() == y.len());
        if x.len() >= 1 {
            assert(x[0] == y[0]);
        }
        if x.len() >= 2 {
            assert(x[1] == y[1]);
        }
        if x.len() >= 3 {
            assert(x[2] == y[2]);
        }
        if x.len() >= 4 {
            assert(x[3] == y[3]);
        }
        if x.len() >= 5 {
            assert(x[4] == y[4]);
        }
    }
}

/// The bytes sent for a typed character decode to that character.
pub proof fn law_typed_char_round_trip(c: char)
    ensures
        vstd::utf8::decode_utf8(encode_scalar(c as u32)) == seq![c],
{
    vstd::utf8::encode_utf8_decode_utf8(seq![c]);
    assert(vstd::utf8::encode_utf8(seq![c]) =~= encode_scalar(c as u32) + vstd::utf8::encode_utf8(
        seq![c].drop_first(),
    ));
    assert(seq![c].drop_first() =~= Seq::<char>::empty());
    assert(encode_scalar(c as u32) + Seq::<u8>::empty() =~= encode_scalar(c as u32));
}

/// The xterm table of function keys: F1 to F4 send `ESC O` and the letter
/// `P` to `S` in order; F5 to F12 send `ESC [`, the two digits of the codes
/// 15, 17, 18, 19, 20, 21, 23, 24 (counting from 15, skipping 16 and 22),
/// then `~`. A key `F(n)` sends what the table gives for `n`.
pub proof fn law_function_keys_follow_xterm(n: u8)
    ensures
        1 <= n <= 4 ==> function_key_bytes(n) == Some(seq![0x1bu8, 0x4fu8, (0x50 + n - 1) as u8]),
        5 <= n <= 12 ==> {
            let code: int = 10 + n + (if n >= 6 { 1int } else { 0 }) + (if n >= 11 { 1int } else { 0 });
            function_key_bytes(n) == Some(
                seq![0x1bu8, 0x5bu8, (0x30 + code / 10) as u8, (0x30 + code % 10) as u8, 0x7eu8],
            )
        },
        key_bytes(TerminalKey::F(n)) == function_key_bytes(n),
{
}

/// The cursor keys send `ESC [` and `A`, `B`, `C`, `D` for up, down, right
/// and left; Enter sends a carriage return and the control keys the control
/// codes of their letters (`c` is 3, `d` 4, `l` 12, `z` 26).
pub proof fn law_cursor_and_control_keys(k: TerminalKey)
    ensures
        k == TerminalKey::Up ==> key_bytes(k) == Some(seq![0x1bu8, 0x5bu8, 0x41u8]),
        k == TerminalKey::Down ==> key_bytes(k) == Some(seq![0x1bu8, 0x5bu8, 0x42u8]),
        k == TerminalKey::Right ==> key_bytes(k) == Some(seq![0x1bu8, 0x5bu8, 0x43u8]),
        k == TerminalKey::Left ==> key_bytes(k) == Some(seq![0x1bu8, 0x5bu8, 0x44u8]),
        k == TerminalKey::Enter ==> key_bytes(k) == Some(seq![0x0du8]),
        k == TerminalKey::CtrlC ==> key_bytes(k) == Some(seq![((('c' as u32) - 0x60) as u8)]),
        k == TerminalKey::CtrlD ==> key_bytes(k) == Some(seq![((('d' as u32) - 0x60) as u8)]),
        k == TerminalKey::CtrlL ==> key_bytes(k) == Some(seq![((('l' as u32) - 0x60) as u8)]),
        k == TerminalKey::CtrlZ ==> key_bytes(k) == Some(seq![((('z' as u32) - 0x60) as u8)]),
{
}

/// A screen cell is drawn with its own colours and attributes: the drawn
/// cell keeps the foreground, the background, bold, italic, underline and
/// inverse of the screen cell, and shows the first character of its text,
/// a space where it has none. Where the screen holds no cell, a blank one
/// is drawn.
pub proof fn law_drawn_cell_keeps_style(s: ScreenCell, cells: Map<(u16, u16), ScreenCell>, row: u16, col: u16)
    ensures
        drawn_cell(s).fg == s.fg,
        drawn_cell(s).bg == s.bg,
        drawn_cell(s).bold == s.bold,
        drawn_cell(s).italic == s.italic,
        drawn_cell(s).underline == s.underline,
        drawn_cell(s).inverse == s.inverse,
        s.contents@.len() > 0 ==> drawn_cell(s).c == s.contents@[0],
        s.contents@.len() == 0 ==> drawn_cell(s).c == ' ',
        cells.contains_key((row, col)) ==> cell_at(cells, row as int, col as int).bg == cells[(row, col)].bg
            && cell_at(cells, row as int, col as int).fg == cells[(row, col)].fg,
        !cells.contains_key((row, col)) ==> cell_at(cells, row as int, col as int) == blank_cell(),
{
}

} // verus!
