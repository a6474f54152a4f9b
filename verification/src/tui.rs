//! The interactive multi-pane view of a parallel group: key decoding, the
//! bytes a key sends to a pane, layout arithmetic, the navigation state
//! machine, and the statuses and outcomes of panes.

use vstd::prelude::*;
use crate::status::{CommandOutput, Outcome, OutputCapture, RunStatus};
use crate::text::{decimal, push_char, push_decimal};

verus! {

broadcast use vstd::string::group_string_axioms;

/// Lines of scrollback kept per pane.
pub const SCROLLBACK_LINES: usize = 10000;

/// The narrowest sidebar.
pub const SIDEBAR_MIN: u16 = 15;

/// The preferred sidebar width.
pub const SIDEBAR_PREF: u16 = 24;

/// The widest sidebar.
pub const SIDEBAR_MAX: u16 = 40;

/// Rows taken by the status bar.
pub const STATUS_BAR_HEIGHT: u16 = 1;

/// A key, as the terminal reports it.
#[derive(Clone, Copy, PartialEq, Eq, Debug)]
pub enum Key {
    Char(char),
    Enter,
    Backspace,
    Tab,
    BackTab,
    Esc,
    Left,
    Right,
    Up,
    Down,
    Home,
    End,
    PageUp,
    PageDown,
    Insert,
    Delete,
    /// A function key `F1`, `F2`, ...
    F(u8),
    Null,
    /// Any other key.
    Other,
}

/// A key event with its modifiers.
#[derive(Clone, Copy, PartialEq, Eq, Debug)]
pub struct KeyPress {
    pub code: Key,
    pub ctrl: bool,
    pub alt: bool,
    /// The event reports a key release rather than a press.
    pub release: bool,
}

/// What a key does in navigation mode.
#[derive(Clone, Copy, PartialEq, Eq, Debug)]
pub enum NavAction {
    Quit,
    Enter,
    Next,
    Prev,
    Select(usize),
    ScrollUp,
    ScrollDown,
}

/// The navigation action of a key with `n` panes: `q` quits, Enter enters
/// input mode, `j`/Down and `k`/Up move, `g` and `G` jump to the first and
/// last pane, `1`-`9` jump to that pane, PageUp/PageDown scroll.
pub open spec fn nav_action(code: Key, n: usize) -> Option<NavAction> {
    match code {
        Key::Char(c) => if c == 'q' {
            Some(NavAction::Quit)
        } else if c == 'j' {
            Some(NavAction::Next)
        } else if c == 'k' {
            Some(NavAction::Prev)
        } else if c == 'g' {
            Some(NavAction::Select(0))
        } else if c == 'G' {
            Some(NavAction::Select(if n == 0 { 0 } else { (n - 1) as usize }))
        } else if '1' <= c && c <= '9' {
            Some(NavAction::Select(((c as u32) - ('1' as u32)) as usize))
        } else {
            None
        },
        Key::Enter => Some(NavAction::Enter),
        Key::Down => Some(NavAction::Next),
        Key::Up => Some(NavAction::Prev),
        Key::PageUp => Some(NavAction::ScrollUp),
        Key::PageDown => Some(NavAction::ScrollDown),
        _ => None,
    }
}

/// Decodes a key in navigation mode; modifiers are ignored.
pub fn nav_key(key: &KeyPress, n: usize) -> (r: Option<NavAction>)
    ensures
        r == nav_action(key.code, n),
{
    match key.code {
        Key::Char(c) => {
            if c == 'q' {
                Some(NavAction::Quit)
            } else if c == 'j' {
                Some(NavAction::Next)
            } else if c == 'k' {
                Some(NavAction::Prev)
            } else if c == 'g' {
                Some(NavAction::Select(0))
            } else if c == 'G' {
                Some(NavAction::Select(if n == 0 { 0 } else { n - 1 }))
            } else if '1' <= c && c <= '9' {
                Some(NavAction::Select(((c as u32) - ('1' as u32)) as usize))
            } else {
                None
            }
        },
        Key::Enter => Some(NavAction::Enter),
        Key::Down => Some(NavAction::Next),
        Key::Up => Some(NavAction::Prev),
        Key::PageUp => Some(NavAction::ScrollUp),
        Key::PageDown => Some(NavAction::ScrollDown),
        _ => None,
    }
}

/// The UTF-8 encoding of one character.
pub fn encode_char(c: char) -> (v: Vec<u8>)
    ensures
        v@ == vstd::utf8::encode_scalar(c as u32),
{
    let u = c as u32;
    proof {
        vstd::utf8::char_is_scalar(c);
    }
    let mut v: Vec<u8> = Vec::new();
    if u <= 0x7f {
        v.push((u & 0x7f) as u8);
    } else if u <= 0x7ff {
        v.push(0xc0 | ((u >> 6) & 0x1f) as u8);
        v.push(0x80 | (u & 0x3f) as u8);
    } else if u <= 0xffff {
        v.push(0xe0 | ((u >> 12) & 0x0f) as u8);
        v.push(0x80 | ((u >> 6) & 0x3f) as u8);
        v.push(0x80 | (u & 0x3f) as u8);
    } else {
        v.push(0xf0 | ((u >> 18) & 0x7) as u8);
        v.push(0x80 | ((u >> 12) & 0x3f) as u8);
        v.push(0x80 | ((u >> 6) & 0x3f) as u8);
        v.push(0x80 | (u & 0x3f) as u8);
    }
    v
}

/// The code point of `char::to_ascii_lowercase(c)`: ASCII capitals become
/// small letters, every other character is unchanged.
pub open spec fn lower_code(c: char) -> u32 {
    if 'A' <= c && c <= 'Z' {
        ((c as u32) + 32) as u32
    } else {
        c as u32
    }
}

/// The low byte of a code point (a `char as u8` cast).
pub open spec fn low_byte(u: u32) -> u8 {
    (u % 256) as u8
}

/// An ASCII letter byte.
pub open spec fn is_ascii_letter(b: u8) -> bool {
    (65 <= b && b <= 90) || (97 <= b && b <= 122)
}

/// The bytes a Ctrl-chord of a character sends: an ASCII letter gives its
/// control code; Space and `@` give NUL; `[ \ ] ^ _` give 0x1b-0x1f; `?`
/// gives DEL; any other character, non-ASCII ones included, is sent as its
/// UTF-8 bytes.
pub open spec fn ctrl_char_bytes(c: char) -> Seq<u8> {
    let b = low_byte(lower_code(c));
    if (c as u32) < 128 && is_ascii_letter(b) {
        seq![b & 0x1f]
    } else if c == ' ' || c == '@' {
        seq![0]
    } else if c == '[' {
        seq![0x1b]
    } else if c == '\\' {
        seq![0x1c]
    } else if c == ']' {
        seq![0x1d]
    } else if c == '^' {
        seq![0x1e]
    } else if c == '_' {
        seq![0x1f]
    } else if c == '?' {
        seq![0x7f]
    } else {
        vstd::utf8::encode_scalar(c as u32)
    }
}

/// The escape sequence of a function key `F1`-`F12`.
pub open spec fn function_key_bytes(n: u8) -> Option<Seq<u8>> {
    if n == 1 {
        Some(seq![0x1b, 0x4f, 0x50])
    } else if n == 2 {
        Some(seq![0x1b, 0x4f, 0x51])
    } else if n == 3 {
        Some(seq![0x1b, 0x4f, 0x52])
    } else if n == 4 {
        Some(seq![0x1b, 0x4f, 0x53])
    } else if n == 5 {
        Some(seq![0x1b, 0x5b, 0x31, 0x35, 0x7e])
    } else if n == 6 {
        Some(seq![0x1b, 0x5b, 0x31, 0x37, 0x7e])
    } else if n == 7 {
        Some(seq![0x1b, 0x5b, 0x31, 0x38, 0x7e])
    } else if n == 8 {
        Some(seq![0x1b, 0x5b, 0x31, 0x39, 0x7e])
    } else if n == 9 {
        Some(seq![0x1b, 0x5b, 0x32, 0x30, 0x7e])
    } else if n == 10 {
        Some(seq![0x1b, 0x5b, 0x32, 0x31, 0x7e])
    } else if n == 11 {
        Some(seq![0x1b, 0x5b, 0x32, 0x33, 0x7e])
    } else if n == 12 {
        Some(seq![0x1b, 0x5b, 0x32, 0x34, 0x7e])
    } else {
        None
    }
}

/// `ESC [` followed by `tail`.
pub open spec fn csi(tail: Seq<u8>) -> Seq<u8> {
    seq![0x1b, 0x5b] + tail
}

/// The bytes a key sends to a terminal, before the Alt prefix.
pub open spec fn key_body(code: Key, ctrl: bool) -> Option<Seq<u8>> {
    match code {
        Key::Char(c) => Some(if ctrl {
            ctrl_char_bytes(c)
        } else {
            vstd::utf8::encode_scalar(c as u32)
        }),
        Key::Enter => Some(seq![0x0d]),
        Key::Backspace => Some(seq![0x7f]),
        Key::Tab => Some(seq![0x09]),
        Key::BackTab => Some(csi(seq![0x5a])),
        Key::Esc => Some(seq![0x1b]),
        Key::Left => Some(csi(seq![0x44])),
        Key::Right => Some(csi(seq![0x43])),
        Key::Up => Some(csi(seq![0x41])),
        Key::Down => Some(csi(seq![0x42])),
        Key::Home => Some(csi(seq![0x48])),
        Key::End => Some(csi(seq![0x46])),
        Key::PageUp => Some(csi(seq![0x35, 0x7e])),
        Key::PageDown => Some(csi(seq![0x36, 0x7e])),
        Key::Insert => Some(csi(seq![0x32, 0x7e])),
        Key::Delete => Some(csi(seq![0x33, 0x7e])),
        Key::F(n) => function_key_bytes(n),
        Key::Null => Some(seq![0]),
        Key::Other => None,
    }
}

/// The bytes a key event sends: its body, prefixed by ESC when Alt is held;
/// `None` for keys that send nothing.
pub open spec fn key_bytes(key: KeyPress) -> Option<Seq<u8>> {
    match key_body(key.code, key.ctrl) {
        Some(b) => Some(if key.alt {
            seq![0x1bu8] + b
        } else {
            b
        }),
        None => None,
    }
}

fn bytes_of(bs: &[u8]) -> (v: Vec<u8>)
    ensures
        v@ == bs@,
{
    let mut v: Vec<u8> = Vec::new();
    let mut i: usize = 0;
    while i < bs.len()
        invariant
            i <= bs@.len(),
            v@ == bs@.take(i as int),
        decreases bs@.len() - i,
    {
        v.push(bs[i]);
        assert(bs@.take(i + 1) == bs@.take(i as int).push(bs@[i as int]));
        i += 1;
    }
    assert(bs@.take(i as int) == bs@);
    v
}

fn ctrl_bytes(c: char) -> (v: Vec<u8>)
    ensures
        v@ == ctrl_char_bytes(c),
{
    let l: u32 = if 'A' <= c && c <= 'Z' {
        (c as u32) + 32
    } else {
        c as u32
    };
    let b = (l % 256) as u8;
    if (c as u32) < 128 && ((65 <= b && b <= 90) || (97 <= b && b <= 122)) {
        bytes_of(&[b & 0x1f])
    } else if c == ' ' || c == '@' {
        bytes_of(&[0])
    } else if c == '[' {
        bytes_of(&[0x1b])
    } else if c == '\\' {
        bytes_of(&[0x1c])
    } else if c == ']' {
        bytes_of(&[0x1d])
    } else if c == '^' {
        bytes_of(&[0x1e])
    } else if c == '_' {
        bytes_of(&[0x1f])
    } else if c == '?' {
        bytes_of(&[0x7f])
    } else {
        encode_char(c)
    }
}

fn function_bytes(n: u8) -> (r: Option<Vec<u8>>)
    ensures
        match r {
            Some(v) => function_key_bytes(n) == Some(v@),
            None => function_key_bytes(n) is None,
        },
{
    if n == 1 {
        Some(bytes_of(&[0x1b, 0x4f, 0x50]))
    } else if n == 2 {
        Some(bytes_of(&[0x1b, 0x4f, 0x51]))
    } else if n == 3 {
        Some(bytes_of(&[0x1b, 0x4f, 0x52]))
    } else if n == 4 {
        Some(bytes_of(&[0x1b, 0x4f, 0x53]))
    } else if n == 5 {
        Some(bytes_of(&[0x1b, 0x5b, 0x31, 0x35, 0x7e]))
    } else if n == 6 {
        Some(bytes_of(&[0x1b, 0x5b, 0x31, 0x37, 0x7e]))
    } else if n == 7 {
        Some(bytes_of(&[0x1b, 0x5b, 0x31, 0x38, 0x7e]))
    } else if n == 8 {
        Some(bytes_of(&[0x1b, 0x5b, 0x31, 0x39, 0x7e]))
    } else if n == 9 {
        Some(bytes_of(&[0x1b, 0x5b, 0x32, 0x30, 0x7e]))
    } else if n == 10 {
        Some(bytes_of(&[0x1b, 0x5b, 0x32, 0x31, 0x7e]))
    } else if n == 11 {
        Some(bytes_of(&[0x1b, 0x5b, 0x32, 0x33, 0x7e]))
    } else if n == 12 {
        Some(bytes_of(&[0x1b, 0x5b, 0x32, 0x34, 0x7e]))
    } else {
        None
    }
}

fn body_bytes(code: Key, ctrl: bool) -> (r: Option<Vec<u8>>)
    ensures
        match r {
            Some(v) => key_body(code, ctrl) == Some(v@),
            None => key_body(code, ctrl) is None,
        },
{
    match code {
        Key::Char(c) => Some(if ctrl {
            ctrl_bytes(c)
        } else {
            encode_char(c)
        }),
        Key::Enter => Some(bytes_of(&[0x0d])),
        Key::Backspace => Some(bytes_of(&[0x7f])),
        Key::Tab => Some(bytes_of(&[0x09])),
        Key::BackTab => Some(bytes_of(&[0x1b, 0x5b, 0x5a])),
        Key::Esc => Some(bytes_of(&[0x1b])),
        Key::Left => Some(bytes_of(&[0x1b, 0x5b, 0x44])),
        Key::Right => Some(bytes_of(&[0x1b, 0x5b, 0x43])),
        Key::Up => Some(bytes_of(&[0x1b, 0x5b, 0x41])),
        Key::Down => Some(bytes_of(&[0x1b, 0x5b, 0x42])),
        Key::Home => Some(bytes_of(&[0x1b, 0x5b, 0x48])),
        Key::End => Some(bytes_of(&[0x1b, 0x5b, 0x46])),
        Key::PageUp => Some(bytes_of(&[0x1b, 0x5b, 0x35, 0x7e])),
        Key::PageDown => Some(bytes_of(&[0x1b, 0x5b, 0x36, 0x7e])),
        Key::Insert => Some(bytes_of(&[0x1b, 0x5b, 0x32, 0x7e])),
        Key::Delete => Some(bytes_of(&[0x1b, 0x5b, 0x33, 0x7e])),
        Key::F(n) => function_bytes(n),
        Key::Null => Some(bytes_of(&[0])),
        Key::Other => None,
    }
}

/// The bytes a key event sends to a pane, or `None` for keys that send
/// nothing.
pub fn key_to_bytes(key: &KeyPress) -> (r: Option<Vec<u8>>)
    ensures
        match r {
            Some(v) => key_bytes(*key) == Some(v@),
            None => key_bytes(*key) is None,
        },
{
    match body_bytes(key.code, key.ctrl) {
        Some(body) => {
            if key.alt {
                let mut out: Vec<u8> = Vec::new();
                out.push(0x1b);
                let mut i: usize = 0;
                while i < body.len()
                    invariant
                        i <= body@.len(),
                        out@ == seq![0x1bu8] + body@.take(i as int),
                    decreases body@.len() - i,
                {
                    out.push(body[i]);
                    assert(body@.take(i + 1) == body@.take(i as int).push(body@[i as int]));
                    i += 1;
                }
                assert(body@.take(i as int) == body@);
                Some(out)
            } else {
                Some(body)
            }
        },
        None => None,
    }
}

/// The sidebar width for a terminal `cols` columns wide: the preferred
/// width, kept between the minimum and the smaller of a third of the
/// terminal (at least the minimum) and the maximum.
pub open spec fn sidebar_width_of(cols: u16) -> u16 {
    let third: u16 = if cols / 3 < SIDEBAR_MIN {
        SIDEBAR_MIN
    } else {
        (cols / 3) as u16
    };
    let upper: u16 = if third < SIDEBAR_MAX {
        third
    } else {
        SIDEBAR_MAX
    };
    if SIDEBAR_PREF < upper {
        SIDEBAR_PREF
    } else {
        upper
    }
}

/// The room for a child's label in a sidebar row of width `sidebar_w`:
/// the marker, the digit, the elapsed time and the spaces take ten cells.
pub fn sidebar_label_width(sidebar_w: u16) -> (w: usize)
    ensures
        w == sat_sub(sidebar_w, 10),
{
    sidebar_w.saturating_sub(10) as usize
}

/// The room for a title in a bordered box of width `width`: the two
/// borders and the spaces around the title take four cells.
pub fn title_width(width: u16) -> (w: usize)
    ensures
        w == sat_sub(width, 4),
{
    width.saturating_sub(4) as usize
}

/// Computes the sidebar width.
pub fn sidebar_width(term_cols: u16) -> (w: u16)
    ensures
        w == sidebar_width_of(term_cols),
        SIDEBAR_MIN <= w <= SIDEBAR_PREF,
{
    let third = if term_cols / 3 < SIDEBAR_MIN {
        SIDEBAR_MIN
    } else {
        term_cols / 3
    };
    let upper = if third < SIDEBAR_MAX {
        third
    } else {
        SIDEBAR_MAX
    };
    if SIDEBAR_PREF < upper {
        SIDEBAR_PREF
    } else {
        upper
    }
}

/// The size of a pane's terminal.
#[derive(Clone, Copy, PartialEq, Eq, Debug)]
pub struct PaneSize {
    pub rows: u16,
    pub cols: u16,
}

/// `a - b`, stopping at zero.
pub open spec fn sat_sub(a: u16, b: u16) -> u16 {
    if a >= b {
        (a - b) as u16
    } else {
        0
    }
}

/// The size of a pane: the terminal minus the sidebar and the two border
/// columns, and minus the status bar and the two border rows, but at least
/// 10 columns and 3 rows.
pub open spec fn pane_size_of(cols: u16, rows: u16, sidebar: u16) -> PaneSize {
    let inner_cols = sat_sub(sat_sub(cols, sidebar), 2);
    let inner_rows = sat_sub(sat_sub(rows, STATUS_BAR_HEIGHT), 2);
    PaneSize {
        rows: if inner_rows < 3 {
            3
        } else {
            inner_rows
        },
        cols: if inner_cols < 10 {
            10
        } else {
            inner_cols
        },
    }
}

/// Computes the size of a pane's terminal.
pub fn pane_pty_size(term_cols: u16, term_rows: u16, sidebar_w: u16) -> (p: PaneSize)
    ensures
        p == pane_size_of(term_cols, term_rows, sidebar_w),
{
    let c1 = term_cols.saturating_sub(sidebar_w);
    let inner_cols = c1.saturating_sub(2);
    let r1 = term_rows.saturating_sub(STATUS_BAR_HEIGHT);
    let inner_rows = r1.saturating_sub(2);
    PaneSize {
        rows: if inner_rows < 3 {
            3
        } else {
            inner_rows
        },
        cols: if inner_cols < 10 {
            10
        } else {
            inner_cols
        },
    }
}

/// The digit shown beside pane `i`: `1`-`9` for the first nine panes, a
/// space after them.
pub open spec fn digit_text(i: nat) -> Seq<char> {
    if i < 9 {
        decimal(i + 1)
    } else {
        seq![' ']
    }
}

/// The digit shown beside pane `i`.
pub fn digit_for(i: usize) -> (r: String)
    ensures
        r@ == digit_text(i as nat),
{
    let mut r = String::new();
    if i < 9 {
        push_decimal(&mut r, (i + 1) as u64);
    } else {
        push_char(&mut r, ' ');
    }
    r
}

/// A rectangle of terminal cells.
#[derive(Clone, Copy, PartialEq, Eq, Debug)]
pub struct Area {
    pub x: u16,
    pub y: u16,
    pub width: u16,
    pub height: u16,
}

/// A `width` by `height` rectangle centred in `area`, clipped to it.
pub open spec fn centered_of(width: u16, height: u16, area: Area) -> Area {
    Area {
        x: (area.x + sat_sub(area.width, width) / 2) as u16,
        y: (area.y + sat_sub(area.height, height) / 2) as u16,
        width: if width < area.width {
            width
        } else {
            area.width
        },
        height: if height < area.height {
            height
        } else {
            area.height
        },
    }
}

/// The centred rectangle fits in the coordinate range.
pub open spec fn centering_fits(width: u16, height: u16, area: Area) -> bool {
    area.x + sat_sub(area.width, width) / 2 <= u16::MAX && area.y + sat_sub(area.height, height) / 2
        <= u16::MAX
}

/// Centres a `width` by `height` rectangle in `area`.
pub fn centered_rect(width: u16, height: u16, area: Area) -> (r: Area)
    requires
        centering_fits(width, height, area),
    ensures
        r == centered_of(width, height, area),
{
    let x = area.x + area.width.saturating_sub(width) / 2;
    let y = area.y + area.height.saturating_sub(height) / 2;
    Area {
        x,
        y,
        width: if width < area.width {
            width
        } else {
            area.width
        },
        height: if height < area.height {
            height
        } else {
            area.height
        },
    }
}

/// The state of a pane's child process.
#[derive(Clone, Copy, PartialEq, Eq, Debug)]
pub enum PaneStatus {
    Running,
    Done(RunStatus, i32),
}

/// The status of a pane whose child exited by itself with `code`.
pub open spec fn reaped_of(code: i32) -> PaneStatus {
    PaneStatus::Done(
        if code == 0 {
            RunStatus::Success
        } else {
            RunStatus::Failure
        },
        code,
    )
}

/// Records that a pane's child exited by itself with `code`.
pub fn reaped_status(code: i32) -> (p: PaneStatus)
    ensures
        p == reaped_of(code),
{
    if code == 0 {
        PaneStatus::Done(RunStatus::Success, code)
    } else {
        PaneStatus::Done(RunStatus::Failure, code)
    }
}

/// The status of a pane still running when the view closed, after the
/// grace period: a clean exit is success, any other exit counts as
/// interrupted, and a child that did not exit in time is interrupted with
/// code 1.
pub open spec fn finalized_of(exit: Option<i32>) -> PaneStatus {
    match exit {
        Some(code) => PaneStatus::Done(
            if code == 0 {
                RunStatus::Success
            } else {
                RunStatus::Interrupted
            },
            code,
        ),
        None => PaneStatus::Done(RunStatus::Interrupted, 1),
    }
}

/// Settles the status of a pane that was still running when the view closed.
pub fn finalized_status(exit: Option<i32>) -> (p: PaneStatus)
    ensures
        p == finalized_of(exit),
{
    match exit {
        Some(code) => if code == 0 {
            PaneStatus::Done(RunStatus::Success, code)
        } else {
            PaneStatus::Done(RunStatus::Interrupted, code)
        },
        None => PaneStatus::Done(RunStatus::Interrupted, 1),
    }
}

/// The marker shown beside a pane in the sidebar: a dot while running,
/// then a check, a cross, or `!` when interrupted.
pub open spec fn pane_marker_of(p: PaneStatus) -> char {
    match p {
        PaneStatus::Running => '●',
        PaneStatus::Done(RunStatus::Success, _) => '✓',
        PaneStatus::Done(RunStatus::Interrupted, _) => '!',
        PaneStatus::Done(_, _) => '✘',
    }
}

/// The sidebar marker of a pane.
pub fn pane_marker(p: PaneStatus) -> (c: char)
    ensures
        c == pane_marker_of(p),
{
    match p {
        PaneStatus::Running => '●',
        PaneStatus::Done(RunStatus::Success, _) => '✓',
        PaneStatus::Done(RunStatus::Interrupted, _) => '!',
        PaneStatus::Done(_, _) => '✘',
    }
}

/// The outcome of a pane: its status and exit code (a pane still running
/// counts as interrupted with code 1), its screen text as stdout.
pub open spec fn pane_outcome_ok(p: PaneStatus, elapsed_secs: u64, body: Seq<char>, label: Seq<char>, o: Outcome) -> bool {
    let (status, code) = match p {
        PaneStatus::Done(s, c) => (s, c),
        PaneStatus::Running => (RunStatus::Interrupted, 1i32),
    };
    &&& o.status == status
    &&& o.elapsed_secs == elapsed_secs
    &&& o.label@ == label
    &&& o.signal_num is None
    &&& o.output matches OutputCapture::Captured(out) && out.stdout@ == body && out.stderr@
        == Seq::<char>::empty() && out.exit_code == code
}

/// Builds the outcome of a pane from its status, run time, screen text and
/// label.
pub fn pane_to_outcome(status: PaneStatus, elapsed_secs: u64, body: String, label: String) -> (o:
    Outcome)
    ensures
        pane_outcome_ok(status, elapsed_secs, body@, label@, o),
{
    let (st, code) = match status {
        PaneStatus::Done(s, c) => (s, c),
        PaneStatus::Running => (RunStatus::Interrupted, 1i32),
    };
    Outcome {
        status: st,
        output: OutputCapture::Captured(
            CommandOutput { stdout: body, stderr: String::new(), exit_code: code },
        ),
        elapsed_secs,
        label,
        signal_num: None,
    }
}

/// The interaction mode of the view.
#[derive(Clone, Copy, PartialEq, Eq, Debug)]
pub enum Mode {
    /// Keys navigate between panes.
    Nav,
    /// Keys go to the selected pane.
    Input,
    /// Waiting for the answer to "kill running processes?".
    ConfirmQuit,
}

/// The question asked before quitting with `running` processes alive.
pub open spec fn kill_question(running: nat) -> Seq<char> {
    "Kill "@ + decimal(running) + " running process(es)?"@
}

/// The status bar text of a mode.
pub open spec fn status_text_of(mode: Mode, running: nat) -> Seq<char> {
    match mode {
        Mode::Nav => "[NAV] Enter: type into pane  •  j/k ↑/↓: navigate  •  1-9: jump  •  PgUp/PgDn: scroll  •  q: quit"@,
        Mode::Input => "[INPUT] Ctrl-Q: leave input mode"@,
        Mode::ConfirmQuit => kill_question(running) + " [y/N]"@,
    }
}

/// The confirmation question for `running` processes.
pub fn confirm_question(running: usize) -> (r: String)
    ensures
        r@ == kill_question(running as nat),
{
    let mut r = String::new();
    r.append("Kill ");
    push_decimal(&mut r, running as u64);
    r.append(" running process(es)?");
    r
}

/// The status bar text for `mode` with `running` processes alive.
pub fn status_text(mode: Mode, running: usize) -> (r: String)
    ensures
        r@ == status_text_of(mode, running as nat),
{
    match mode {
        Mode::Nav => "[NAV] Enter: type into pane  •  j/k ↑/↓: navigate  •  1-9: jump  •  PgUp/PgDn: scroll  •  q: quit".to_owned(),
        Mode::Input => "[INPUT] Ctrl-Q: leave input mode".to_owned(),
        Mode::ConfirmQuit => {
            let mut r = confirm_question(running);
            r.append(" [y/N]");
            r
        },
    }
}

/// An input event of the view.
pub enum UiEvent {
    Key(KeyPress),
    /// The mouse wheel turned up.
    ScrollUp,
    /// The mouse wheel turned down.
    ScrollDown,
    /// The terminal was resized to `cols` columns and `rows` rows.
    Resize(u16, u16),
    /// Any other event.
    Other,
}

/// What the view asks its driver to do after an event.
pub enum UiAction {
    Nothing,
    /// Stop: the user confirmed quitting.
    Quit,
    /// Write these bytes to pane `pane`.
    Forward(usize, Vec<u8>),
    /// Set the scrollback offset of pane `pane` to `lines`.
    SetScrollback(usize, usize),
    /// Resize every pane.
    Resize(PaneSize),
}

/// A [`UiAction`] as a value.
pub enum Act {
    Nothing,
    Quit,
    Forward(nat, Seq<u8>),
    SetScrollback(nat, nat),
    Resize(PaneSize),
}

/// The value of an action.
pub open spec fn act_of(a: UiAction) -> Act {
    match a {
        UiAction::Nothing => Act::Nothing,
        UiAction::Quit => Act::Quit,
        UiAction::Forward(p, b) => Act::Forward(p as nat, b@),
        UiAction::SetScrollback(p, l) => Act::SetScrollback(p as nat, l as nat),
        UiAction::Resize(sz) => Act::Resize(sz),
    }
}

/// The navigation state of the view.
pub struct Navigator {
    selected: usize,
    mode: Mode,
    scrollback: Vec<usize>,
}

/// The state of a [`Navigator`], as values.
pub struct NavView {
    pub selected: nat,
    pub mode: Mode,
    /// The scrollback offset of each pane.
    pub scrollback: Seq<usize>,
}

impl View for Navigator {
    type V = NavView;

    closed spec fn view(&self) -> NavView {
        NavView { selected: self.selected as nat, mode: self.mode, scrollback: self.scrollback@ }
    }
}

/// A consistent state: with at least one pane the selection is a pane, and
/// no scrollback offset exceeds the scrollback kept.
pub open spec fn nav_wf(v: NavView) -> bool {
    &&& v.scrollback.len() > 0 ==> v.selected < v.scrollback.len()
    &&& forall|i: int| 0 <= i < v.scrollback.len() ==> #[trigger] v.scrollback[i] <= SCROLLBACK_LINES
}

/// `v` selecting pane `i` with its scrollback counter reset.
pub open spec fn select(v: NavView, i: nat) -> NavView {
    NavView { selected: i, scrollback: v.scrollback.update(i as int, 0), ..v }
}

/// Scrolls the selected pane by `up` lines (or down by `down` lines),
/// keeping the offset between 0 and the scrollback kept.
pub open spec fn scroll(v: NavView, up: nat, down: nat) -> (NavView, Act) {
    if v.selected < v.scrollback.len() {
        let cur = v.scrollback[v.selected as int] as nat;
        let next: nat = if up > 0 {
            if cur + up > SCROLLBACK_LINES {
                SCROLLBACK_LINES as nat
            } else {
                cur + up
            }
        } else if cur >= down {
            (cur - down) as nat
        } else {
            0
        };
        (
            NavView { scrollback: v.scrollback.update(v.selected as int, next as usize), ..v },
            Act::SetScrollback(v.selected, next),
        )
    } else {
        (v, Act::Nothing)
    }
}

/// The effect of a navigation action.
pub open spec fn nav_step(v: NavView, a: NavAction, running: Seq<bool>) -> (NavView, Act) {
    let n = v.scrollback.len();
    match a {
        NavAction::Quit => (NavView { mode: Mode::ConfirmQuit, ..v }, Act::Nothing),
        NavAction::Enter => if v.selected < n && running[v.selected as int] {
            (NavView { mode: Mode::Input, ..v }, Act::Nothing)
        } else {
            (v, Act::Nothing)
        },
        NavAction::Next => if n > 0 {
            (
                select(
                    v,
                    if v.selected + 1 < n {
                        v.selected + 1
                    } else {
                        (n - 1) as nat
                    },
                ),
                Act::Nothing,
            )
        } else {
            (v, Act::Nothing)
        },
        NavAction::Prev => {
            let p: nat = if v.selected > 0 {
                (v.selected - 1) as nat
            } else {
                0
            };
            if p < n {
                (select(v, p), Act::Nothing)
            } else {
                (NavView { selected: p, ..v }, Act::Nothing)
            }
        },
        NavAction::Select(i) => if i < n {
            (select(v, i as nat), Act::Nothing)
        } else {
            (v, Act::Nothing)
        },
        NavAction::ScrollUp => scroll(v, 5, 0),
        NavAction::ScrollDown => scroll(v, 0, 5),
    }
}

/// The effect of a key press.
pub open spec fn key_step(v: NavView, k: KeyPress, running: Seq<bool>) -> (NavView, Act) {
    if k.release {
        (v, Act::Nothing)
    } else {
        match v.mode {
            Mode::Nav => match nav_action(k.code, v.scrollback.len() as usize) {
                Some(a) => nav_step(v, a, running),
                None => (v, Act::Nothing),
            },
            Mode::Input => if k.code == Key::Char('q') && k.ctrl {
                (NavView { mode: Mode::Nav, ..v }, Act::Nothing)
            } else if v.selected < v.scrollback.len() {
                match key_bytes(k) {
                    Some(b) => (v, Act::Forward(v.selected, b)),
                    None => (v, Act::Nothing),
                }
            } else {
                (v, Act::Nothing)
            },
            Mode::ConfirmQuit => if k.code == Key::Char('y') || k.code == Key::Char('Y') {
                (v, Act::Quit)
            } else {
                (NavView { mode: Mode::Nav, ..v }, Act::Nothing)
            },
        }
    }
}

/// The effect of an event on the view.
pub open spec fn event_step(v: NavView, e: UiEvent, running: Seq<bool>) -> (NavView, Act) {
    match e {
        UiEvent::Key(k) => key_step(v, k, running),
        UiEvent::ScrollUp => if v.mode == Mode::Nav {
            scroll(v, 3, 0)
        } else {
            (v, Act::Nothing)
        },
        UiEvent::ScrollDown => if v.mode == Mode::Nav {
            scroll(v, 0, 3)
        } else {
            (v, Act::Nothing)
        },
        UiEvent::Resize(cols, rows) => (
            v,
            Act::Resize(pane_size_of(cols, rows, sidebar_width_of(cols))),
        ),
        UiEvent::Other => (v, Act::Nothing),
    }
}

impl Navigator {
    /// A view over `n` panes: the first selected, navigation mode, no
    /// scrollback.
    pub fn new(n: usize) -> (r: Navigator)
        ensures
            r@ == (NavView { selected: 0, mode: Mode::Nav, scrollback: Seq::new(n as nat, |i: int| 0usize) }),
            nav_wf(r@),
    {
        let mut sb: Vec<usize> = Vec::new();
        let mut i: usize = 0;
        while i < n
            invariant
                i <= n,
                sb@ == Seq::new(i as nat, |k: int| 0usize),
            decreases n - i,
        {
            sb.push(0);
            assert(Seq::new((i + 1) as nat, |k: int| 0usize) == Seq::new(i as nat, |k: int| 0usize).push(0));
            i += 1;
        }
        Navigator { selected: 0, mode: Mode::Nav, scrollback: sb }
    }

    /// The selected pane.
    pub fn selected(&self) -> (r: usize)
        ensures
            r == self@.selected,
    {
        self.selected
    }

    /// The current mode.
    pub fn mode(&self) -> (r: Mode)
        ensures
            r == self@.mode,
    {
        self.mode
    }

    /// Whether the view closes now that every child has `all_done`: it
    /// does, unless a quit confirmation is pending.
    pub fn finishes(&self, all_done: bool) -> (b: bool)
        ensures
            b == (all_done && self@.mode != Mode::ConfirmQuit),
    {
        all_done && !matches!(self.mode, Mode::ConfirmQuit)
    }

    fn select_pane(&mut self, i: usize)
        requires
            i < old(self)@.scrollback.len(),
        ensures
            final(self)@ == select(old(self)@, i as nat),
    {
        self.selected = i;
        self.scrollback.set(i, 0);
    }

    fn scroll_by(&mut self, up: usize, down: usize) -> (a: UiAction)
        requires
            nav_wf(old(self)@),
            up <= 5,
            down <= 5,
            up == 0 || down == 0,
        ensures
            (final(self)@, act_of(a)) == scroll(old(self)@, up as nat, down as nat),
    {
        if self.selected < self.scrollback.len() {
            let cur = self.scrollback[self.selected];
            let next = if up > 0 {
                if cur + up > SCROLLBACK_LINES {
                    SCROLLBACK_LINES
                } else {
                    cur + up
                }
            } else if cur >= down {
                cur - down
            } else {
                0
            };
            self.scrollback.set(self.selected, next);
            UiAction::SetScrollback(self.selected, next)
        } else {
            UiAction::Nothing
        }
    }

    fn on_nav(&mut self, a: NavAction, running: &[bool]) -> (r: UiAction)
        requires
            nav_wf(old(self)@),
            running@.len() == old(self)@.scrollback.len(),
        ensures
            (final(self)@, act_of(r)) == nav_step(old(self)@, a, running@),
    {
        let n = self.scrollback.len();
        match a {
            NavAction::Quit => {
                self.mode = Mode::ConfirmQuit;
                UiAction::Nothing
            },
            NavAction::Enter => {
                if self.selected < n && running[self.selected] {
                    self.mode = Mode::Input;
                }
                UiAction::Nothing
            },
            NavAction::Next => {
                if n > 0 {
                    let t = if self.selected + 1 < n {
                        self.selected + 1
                    } else {
                        n - 1
                    };
                    self.select_pane(t);
                }
                UiAction::Nothing
            },
            NavAction::Prev => {
                let p = if self.selected > 0 {
                    self.selected - 1
                } else {
                    0
                };
                if p < n {
                    self.select_pane(p);
                } else {
                    self.selected = p;
                }
                UiAction::Nothing
            },
            NavAction::Select(i) => {
                if i < n {
                    self.select_pane(i);
                }
                UiAction::Nothing
            },
            NavAction::ScrollUp => self.scroll_by(5, 0),
            NavAction::ScrollDown => self.scroll_by(0, 5),
        }
    }

    /// Applies one event, given which panes are still running, and says
    /// what the driver must do.
    pub fn handle(&mut self, event: UiEvent, running: &[bool]) -> (r: UiAction)
        requires
            nav_wf(old(self)@),
            running@.len() == old(self)@.scrollback.len(),
        ensures
            (final(self)@, act_of(r)) == event_step(old(self)@, event, running@),
    {
        match event {
            UiEvent::Key(k) => {
                if k.release {
                    return UiAction::Nothing;
                }
                match self.mode {
                    Mode::Nav => match nav_key(&k, self.scrollback.len()) {
                        Some(a) => self.on_nav(a, running),
                        None => UiAction::Nothing,
                    },
                    Mode::Input => {
                        let quit_key = match k.code {
                            Key::Char(c) => c == 'q' && k.ctrl,
                            _ => false,
                        };
                        if quit_key {
                            self.mode = Mode::Nav;
                            UiAction::Nothing
                        } else if self.selected < self.scrollback.len() {
                            match key_to_bytes(&k) {
                                Some(b) => UiAction::Forward(self.selected, b),
                                None => UiAction::Nothing,
                            }
                        } else {
                            UiAction::Nothing
                        }
                    },
                    Mode::ConfirmQuit => {
                        let yes = match k.code {
                            Key::Char(c) => c == 'y' || c == 'Y',
                            _ => false,
                        };
                        if yes {
                            UiAction::Quit
                        } else {
                            self.mode = Mode::Nav;
                            UiAction::Nothing
                        }
                    },
                }
            },
            UiEvent::ScrollUp => if matches!(self.mode, Mode::Nav) {
                self.scroll_by(3, 0)
            } else {
                UiAction::Nothing
            },
            UiEvent::ScrollDown => if matches!(self.mode, Mode::Nav) {
                self.scroll_by(0, 3)
            } else {
                UiAction::Nothing
            },
            UiEvent::Resize(cols, rows) => {
                let w = sidebar_width(cols);
                UiAction::Resize(pane_pty_size(cols, rows, w))
            },
            UiEvent::Other => UiAction::Nothing,
        }
    }
}

} // verus!
