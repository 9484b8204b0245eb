//! The desktop shell: icon selection and launching, the launcher toggle,
//! applications started from the taskbar, icon reloading and the icon grid.

use vstd::prelude::*;
use vstd::string::StrSliceExecFns;
use vstd::string::StringExecFns;
use crate::text::str_equals;
use crate::shortcut::{icons_from, shortcut_fields};

verus! {

/// Seconds between two reloads of the desktop icons (and between repaints).
pub const RELOAD_SECS: u64 = 5;

/// What the taskbar reports for one frame.
#[derive(Clone, Debug, PartialEq, Eq)]
pub enum TaskbarAction {
    NoAction,
    OpenLauncher,
    OpenApp(String),
}

/// What the desktop does after handling the taskbar.
#[derive(Clone, Copy, Debug, PartialEq, Eq)]
pub enum ShellEffect {
    /// Go on with the frame.
    Continue,
    /// Start this program, then go on with the frame.
    Spawn(&'static str),
    /// End the frame at once, without scheduling a repaint.
    EndFrame,
}

/// The programs that the taskbar may start.
pub open spec fn known_app(app: Seq<char>) -> bool {
    ||| app == "xiac"@
    ||| app == "xiarr"@
    ||| app == "xihh-key"@
    ||| app == "winyy"@
    ||| app == "xfm"@
}

/// The program to start for a taskbar application: the application's own
/// name when it is a known one, none otherwise.
pub fn app_command(app: &str) -> (r: Option<&'static str>)
    ensures
        r is Some <==> known_app(app@),
        r matches Some(c) ==> c@ == app@,
{
    if str_equals(app, "xiac") {
        Some("xiac")
    } else if str_equals(app, "xiarr") {
        Some("xiarr")
    } else if str_equals(app, "xihh-key") {
        Some("xihh-key")
    } else if str_equals(app, "winyy") {
        Some("winyy")
    } else if str_equals(app, "xfm") {
        Some("xfm")
    } else {
        None
    }
}

/// Icons read `elapsed_nanos` nanoseconds ago are due for a reload once
/// `RELOAD_SECS` whole seconds have passed.
pub open spec fn due_for_reload(elapsed_nanos: int) -> bool {
    elapsed_nanos >= RELOAD_SECS * 1_000_000_000
}

/// Whether the desktop icons are due for a reload, `elapsed_nanos`
/// nanoseconds after the last one.
pub fn icons_due_for_reload(elapsed_nanos: u128) -> (r: bool)
    ensures
        r == due_for_reload(elapsed_nanos as int),
{
    elapsed_nanos >= (RELOAD_SECS as u128) * 1_000_000_000
}

/// When the icons were last read, after a frame at time `now` (nanoseconds)
/// that found them last read at `last`: a frame that finds them due reads
/// them again.
pub open spec fn reload_after(last: int, now: int) -> int {
    if due_for_reload(now - last) {
        now
    } else {
        last
    }
}

/// When the icons were last read after a run of frames at the given times,
/// starting from icons read at `start`.
pub open spec fn last_reload(start: int, frames: Seq<int>) -> int
    decreases frames.len(),
{
    if frames.len() == 0 {
        start
    } else {
        reload_after(last_reload(start, frames.drop_last()), frames.last())
    }
}

/// After every frame the icons shown were read less than `RELOAD_SECS`
/// seconds before that frame.
pub proof fn lemma_icons_fresh_after_each_frame(start: int, frames: Seq<int>)
    requires
        frames.len() > 0,
    ensures
        frames.last() - last_reload(start, frames) < RELOAD_SECS * 1_000_000_000,
{
}

/// Whatever the icon list holds for each shortcut text that reads as a
/// shortcut.
pub proof fn lemma_icons_from_contains(contents: Seq<Seq<char>>, i: int)
    requires
        0 <= i < contents.len(),
        shortcut_fields(contents[i]) is Some,
    ensures
        icons_from(contents).contains(shortcut_fields(contents[i])->0),
    decreases contents.len(),
{
    let f = shortcut_fields(contents[i])->0;
    let rest = icons_from(contents.drop_last());
    if i == contents.len() - 1 {
        assert(icons_from(contents) == rest.push(f));
        assert(rest.push(f)[rest.len() as int] == f);
    } else {
        assert(contents.drop_last()[i] == contents[i]);
        lemma_icons_from_contains(contents.drop_last(), i);
        let k = choose|k: int| 0 <= k < rest.len() && rest[k] == f;
        match shortcut_fields(contents.last()) {
            Some(g) => {
                assert(rest.push(g)[k] == f);
            },
            None => {},
        }
    }
}

/// A shortcut file that stays in the desktop directory from time `t0` on
/// shows among the desktop icons after every frame at or after
/// `t0 + RELOAD_SECS` seconds: the icons shown then were read after `t0`.
/// With a repaint asked for every `RELOAD_SECS` seconds, a new download's
/// shortcut appears within twice that time. `dir(t)` is the list of shortcut
/// texts the directory yields when read at time `t`.
pub proof fn lemma_new_shortcut_appears(
    dir: spec_fn(int) -> Seq<Seq<char>>,
    t0: int,
    text: Seq<char>,
    start: int,
    frames: Seq<int>,
)
    requires
        frames.len() > 0,
        frames.last() >= t0 + RELOAD_SECS * 1_000_000_000,
        forall|t: int| t >= t0 ==> #[trigger] dir(t).contains(text),
        shortcut_fields(text) is Some,
    ensures
        icons_from(dir(last_reload(start, frames))).contains(shortcut_fields(text)->0),
{
    lemma_icons_fresh_after_each_frame(start, frames);
    let read_at = last_reload(start, frames);
    let texts = dir(read_at);
    assert(texts.contains(text));
    let i = choose|i: int| 0 <= i < texts.len() && texts[i] == text;
    lemma_icons_from_contains(texts, i);
}

/// The ten digits.
pub open spec fn digit_char(d: int) -> char {
    "0123456789"@[d]
}

/// A number below 100 in two digits, zero-padded.
pub open spec fn two_digits(n: int) -> Seq<char> {
    seq![digit_char(n / 10), digit_char(n % 10)]
}

/// The digit `d` is the character with code `'0' + d`.
proof fn lemma_digit_char(d: int)
    requires
        0 <= d < 10,
    ensures
        digit_char(d) as u32 == 48 + d,
{
    reveal_strlit("0123456789");
    if d == 0 {
        assert(digit_char(0) == '0');
    } else if d == 1 {
        assert(digit_char(1) == '1');
    } else if d == 2 {
        assert(digit_char(2) == '2');
    } else if d == 3 {
        assert(digit_char(3) == '3');
    } else if d == 4 {
        assert(digit_char(4) == '4');
    } else if d == 5 {
        assert(digit_char(5) == '5');
    } else if d == 6 {
        assert(digit_char(6) == '6');
    } else if d == 7 {
        assert(digit_char(7) == '7');
    } else if d == 8 {
        assert(digit_char(8) == '8');
    } else {
        assert(digit_char(9) == '9');
    }
}

/// Two digits are the decimal notation of their number: the tens digit has
/// code `'0' + n / 10`, the ones digit `'0' + n % 10`, and reading them back
/// gives `n`.
pub proof fn lemma_two_digits_decimal(n: int)
    requires
        0 <= n < 100,
    ensures
        two_digits(n).len() == 2,
        two_digits(n)[0] as u32 == 48 + n / 10,
        two_digits(n)[1] as u32 == 48 + n % 10,
        10 * ((two_digits(n)[0] as u32) - 48) + ((two_digits(n)[1] as u32) - 48) == n,
{
    lemma_digit_char(n / 10);
    lemma_digit_char(n % 10);
}

fn append_two_digits(s: &mut String, n: u32)
    requires
        n < 100,
    ensures
        final(s)@ == old(s)@ + two_digits(n as int),
{
    let digits = "0123456789";
    proof {
        reveal_strlit("0123456789");
    }
    let tens = (n / 10) as usize;
    let ones = (n % 10) as usize;
    s.append(digits.substring_char(tens, tens + 1));
    s.append(digits.substring_char(ones, ones + 1));
    proof {
        assert(digits@.subrange(tens as int, tens + 1) =~= seq![digit_char(n as int / 10)]);
        assert(digits@.subrange(ones as int, ones + 1) =~= seq![digit_char(n as int % 10)]);
        assert(final(s)@ =~= old(s)@ + two_digits(n as int));
    }
}

/// The taskbar clock, `HH:MM`: hour and minute in two digits each, as the
/// `%H:%M` format writes them.
pub fn clock_text(hour: u32, minute: u32) -> (r: String)
    requires
        hour < 24,
        minute < 60,
    ensures
        r@ == two_digits(hour as int) + ":"@ + two_digits(minute as int),
        r@.len() == 5,
        r@[0] as u32 == 48 + hour / 10,
        r@[1] as u32 == 48 + hour % 10,
        r@[2] == ':',
        r@[3] as u32 == 48 + minute / 10,
        r@[4] as u32 == 48 + minute % 10,
{
    let mut s = String::new();
    append_two_digits(&mut s, hour);
    s.append(":");
    append_two_digits(&mut s, minute);
    proof {
        reveal_strlit(":");
        lemma_two_digits_decimal(hour as int);
        lemma_two_digits_decimal(minute as int);
    }
    s
}

/// The place of a desktop icon: icons fill two columns from the top left,
/// 100 pixels apart, each in an 80-pixel square.
#[derive(Clone, Copy, Debug, PartialEq, Eq)]
pub struct IconSlot {
    /// Left edge of the square.
    pub left: u128,
    /// Top edge of the square.
    pub top: u128,
    /// Horizontal centre of the symbol and the label.
    pub center_x: u128,
    /// Vertical centre of the symbol.
    pub symbol_y: u128,
    /// Vertical centre of the label.
    pub label_y: u128,
}

/// Side of the square an icon occupies.
pub const ICON_SIZE: u128 = 80;

/// Left edge of the `index`-th icon.
pub open spec fn slot_left(index: int) -> int {
    24 + 100 * (index % 2)
}

/// Top edge of the `index`-th icon.
pub open spec fn slot_top(index: int) -> int {
    24 + 100 * (index / 2)
}

/// The slot of the `index`-th desktop icon.
pub fn icon_slot(index: usize) -> (s: IconSlot)
    ensures
        s.left == slot_left(index as int),
        s.top == slot_top(index as int),
        s.center_x == s.left + 40,
        s.symbol_y == s.top + 30,
        s.label_y == s.top + 62,
{
    let col = (index % 2) as u128;
    let row = (index / 2) as u128;
    let left = 24 + 100 * col;
    let top = 24 + 100 * row;
    IconSlot { left, top, center_x: left + 40, symbol_y: top + 30, label_y: top + 62 }
}

/// Two different icons never overlap: their squares are apart by at least
/// the square's side, across or down.
pub proof fn lemma_slots_apart(i: int, j: int)
    requires
        0 <= i,
        0 <= j,
        i != j,
    ensures
        slot_left(i) + (ICON_SIZE as int) <= slot_left(j) || slot_left(j) + (ICON_SIZE as int)
            <= slot_left(i) || slot_top(i) + (ICON_SIZE as int) <= slot_top(j) || slot_top(j)
            + (ICON_SIZE as int) <= slot_top(i),
{
    assert(i == 2 * (i / 2) + i % 2);
    assert(j == 2 * (j / 2) + j % 2);
}

/// Whether the launcher is open after the taskbar reported `action`.
pub open spec fn launcher_after(open: bool, action: TaskbarAction) -> bool {
    if action == TaskbarAction::OpenLauncher {
        !open
    } else {
        open
    }
}

/// Pressing the launcher button twice leaves the launcher as it was; any
/// other taskbar report leaves it alone.
pub proof fn lemma_launcher_toggle(open: bool, action: TaskbarAction)
    ensures
        launcher_after(launcher_after(open, TaskbarAction::OpenLauncher), TaskbarAction::OpenLauncher)
            == open,
        action != TaskbarAction::OpenLauncher ==> launcher_after(open, action) == open,
{
}

/// The desktop's own state: whether the launcher is open and which icon is
/// selected.
pub struct DesktopShell {
    pub launcher_open: bool,
    pub selected_icon: Option<usize>,
}

impl DesktopShell {
    /// A desktop with the launcher closed and nothing selected.
    pub fn new() -> (s: DesktopShell)
        ensures
            !s.launcher_open,
            s.selected_icon is None,
    {
        DesktopShell { launcher_open: false, selected_icon: None }
    }

    /// Whether the `index`-th icon is drawn as selected.
    pub fn is_selected(&self, index: usize) -> (r: bool)
        ensures
            r == (self.selected_icon == Some(index)),
    {
        match self.selected_icon {
            Some(i) => i == index,
            None => false,
        }
    }

    /// Handles the clicks on the `index`-th icon: a click selects it; a
    /// double click launches it and clears the selection. Returns whether to
    /// launch the icon's command.
    pub fn icon_clicked(&mut self, index: usize, clicked: bool, double_clicked: bool) -> (launch:
        bool)
        ensures
            launch == double_clicked,
            final(self).selected_icon == (if double_clicked {
                None
            } else if clicked {
                Some(index)
            } else {
                old(self).selected_icon
            }),
            final(self).launcher_open == old(self).launcher_open,
    {
        if clicked {
            self.selected_icon = Some(index);
        }
        if double_clicked {
            self.selected_icon = None;
        }
        double_clicked
    }

    /// A click anywhere that is not over a window or icon clears the
    /// selection.
    pub fn pointer_clicked(&mut self, any_click: bool, over_area: bool)
        ensures
            final(self).selected_icon == (if any_click && !over_area {
                None
            } else {
                old(self).selected_icon
            }),
            final(self).launcher_open == old(self).launcher_open,
    {
        if any_click && !over_area {
            self.selected_icon = None;
        }
    }

    /// Handles the taskbar: the launcher button opens or closes the launcher;
    /// a known application is started; an unknown one ends the frame.
    pub fn taskbar(&mut self, action: &TaskbarAction) -> (e: ShellEffect)
        ensures
            final(self).selected_icon == old(self).selected_icon,
            final(self).launcher_open == launcher_after(old(self).launcher_open, *action),
            match *action {
                TaskbarAction::NoAction => e == ShellEffect::Continue,
                TaskbarAction::OpenLauncher => e == ShellEffect::Continue,
                TaskbarAction::OpenApp(app) => if known_app(app@) {
                    e matches ShellEffect::Spawn(c) && c@ == app@
                } else {
                    e == ShellEffect::EndFrame
                },
            },
    {
        match action {
            TaskbarAction::OpenLauncher => {
                self.launcher_open = !self.launcher_open;
                ShellEffect::Continue
            },
            TaskbarAction::OpenApp(app) => match app_command(app.as_str()) {
                Some(c) => ShellEffect::Spawn(c),
                None => ShellEffect::EndFrame,
            },
            TaskbarAction::NoAction => ShellEffect::Continue,
        }
    }
}

/// The taskbar starts exactly `xiac`, `xiarr`, `xihh-key`, `winyy` and
/// `xfm`; other names, such as `sh` or `XFM`, are not started.
pub proof fn lemma_known_apps()
    ensures
        known_app("xiac"@),
        known_app("xiarr"@),
        known_app("xihh-key"@),
        known_app("winyy"@),
        known_app("xfm"@),
        !known_app("sh"@),
        !known_app("XFM"@),
        !known_app(Seq::<char>::empty()),
{
    reveal_strlit("xiac");
    reveal_strlit("xiarr");
    reveal_strlit("xihh-key");
    reveal_strlit("winyy");
    reveal_strlit("xfm");
    reveal_strlit("sh");
    reveal_strlit("XFM");
    assert("XFM"@[0] != "xfm"@[0]);
    assert("sh"@.len() == 2);
    assert("sh"@ != "xiac"@ && "sh"@ != "xiarr"@ && "sh"@ != "xihh-key"@ && "sh"@ != "winyy"@
        && "sh"@ != "xfm"@);
    let e = Seq::<char>::empty();
    assert(e.len() == 0);
    assert(e != "xiac"@ && e != "xiarr"@ && e != "xihh-key"@ && e != "winyy"@ && e != "xfm"@);
}

/// Icons fill two columns, at x = 24 and x = 124, row by row 100 pixels
/// apart from y = 24.
pub proof fn lemma_grid_columns(row: int)
    requires
        row >= 0,
    ensures
        slot_left(2 * row) == 24,
        slot_left(2 * row + 1) == 124,
        slot_top(2 * row) == 24 + 100 * row,
        slot_top(2 * row + 1) == 24 + 100 * row,
{
}

/// Icons are due for a reload exactly from five seconds on.
pub proof fn lemma_reload_after_five_seconds(elapsed_nanos: int)
    ensures
        due_for_reload(elapsed_nanos) <==> elapsed_nanos >= 5_000_000_000,
{
}

} // verus!
