//! System notifications: the level named on the command line chooses the
//! symbol and accent colour; a notification closes itself after four seconds.

use vstd::prelude::*;
use crate::text::{str_equals, owned};
use crate::components::{Color, Paint, ThemeColor};

verus! {

/// How long a notification stays on screen, in seconds.
pub const NOTIFY_LIFETIME_SECS: u64 = 4;

/// A notification shown for `elapsed_nanos` nanoseconds is due to close once
/// its lifetime has passed.
pub open spec fn due_to_close(elapsed_nanos: int) -> bool {
    elapsed_nanos >= NOTIFY_LIFETIME_SECS * 1_000_000_000
}

/// The severity of a notification.
#[derive(Clone, Copy, Debug, PartialEq, Eq, Structural)]
pub enum NotifyLevel {
    Info,
    Warn,
    Error,
}

impl NotifyLevel {
    /// The level named by `kind`: `warn` and `error` are recognised, every
    /// other word means information.
    pub fn from_kind(kind: &str) -> (r: NotifyLevel)
        ensures
            r == (if kind@ == "warn"@ {
                NotifyLevel::Warn
            } else if kind@ == "error"@ {
                NotifyLevel::Error
            } else {
                NotifyLevel::Info
            }),
    {
        if str_equals(kind, "warn") {
            NotifyLevel::Warn
        } else if str_equals(kind, "error") {
            NotifyLevel::Error
        } else {
            NotifyLevel::Info
        }
    }

    /// The symbol shown beside the text.
    pub fn icon(&self) -> (s: &'static str)
        ensures
            s@ == match *self {
                NotifyLevel::Warn => "⚠"@,
                NotifyLevel::Error => "✕"@,
                NotifyLevel::Info => "ℹ"@,
            },
    {
        match self {
            NotifyLevel::Warn => "⚠",
            NotifyLevel::Error => "✕",
            NotifyLevel::Info => "ℹ",
        }
    }

    /// The accent of the border and the symbol: amber for warnings, red for
    /// errors, the taskbar colour otherwise.
    pub fn accent(&self) -> (p: Paint)
        ensures
            p == match *self {
                NotifyLevel::Warn => Paint::Fixed(Color { r: 220, g: 170, b: 40, a: 255 }),
                NotifyLevel::Error => Paint::Fixed(Color { r: 210, g: 60, b: 60, a: 255 }),
                NotifyLevel::Info => Paint::Theme(ThemeColor::TaskbarBackground),
            },
    {
        match self {
            NotifyLevel::Warn => Paint::Fixed(Color::rgb(220, 170, 40)),
            NotifyLevel::Error => Paint::Fixed(Color::rgb(210, 60, 60)),
            NotifyLevel::Info => Paint::Theme(ThemeColor::TaskbarBackground),
        }
    }
}

/// The `i`-th command-line argument, or `default` when there are fewer.
pub open spec fn arg_or(args: Seq<Seq<char>>, i: int, default: Seq<char>) -> Seq<char> {
    if 0 <= i < args.len() {
        args[i]
    } else {
        default
    }
}

/// A notification: title, message and level.
pub struct Notification {
    pub title: String,
    pub message: String,
    pub level: NotifyLevel,
}

impl Notification {
    /// A notification of the level that `kind` names.
    pub fn new(title: String, message: String, kind: String) -> (r: Notification)
        ensures
            r.title@ == title@,
            r.message@ == message@,
            r.level == NotifyLevel::from_kind_spec(kind@),
    {
        let level = NotifyLevel::from_kind(kind.as_str());
        Notification { title, message, level }
    }

    /// The notification that the command line `xnotify TITLE MESSAGE KIND`
    /// asks for; missing words default to `Xiee OS`, `Powiadomienie` and
    /// `info`.
    pub fn from_args(args: &Vec<String>) -> (r: Notification)
        ensures
            r.title@ == arg_or(args@.map_values(|s: String| s@), 1, "Xiee OS"@),
            r.message@ == arg_or(args@.map_values(|s: String| s@), 2, "Powiadomienie"@),
            r.level == NotifyLevel::from_kind_spec(
                arg_or(args@.map_values(|s: String| s@), 3, "info"@),
            ),
            args.len() > 1 ==> r.title@ == args@[1]@,
            args.len() <= 1 ==> r.title@ == "Xiee OS"@,
            args.len() > 2 ==> r.message@ == args@[2]@,
            args.len() <= 2 ==> r.message@ == "Powiadomienie"@,
            args.len() > 3 && args@[3]@ == "warn"@ ==> r.level == NotifyLevel::Warn,
            args.len() > 3 && args@[3]@ == "error"@ ==> r.level == NotifyLevel::Error,
            (args.len() <= 3 || (args@[3]@ != "warn"@ && args@[3]@ != "error"@)) ==> r.level
                == NotifyLevel::Info,
    {
        let title = if args.len() > 1 {
            owned(args[1].as_str())
        } else {
            owned("Xiee OS")
        };
        let message = if args.len() > 2 {
            owned(args[2].as_str())
        } else {
            owned("Powiadomienie")
        };
        let kind = if args.len() > 3 {
            owned(args[3].as_str())
        } else {
            owned("info")
        };
        proof {
            reveal_strlit("info");
            reveal_strlit("warn");
            reveal_strlit("error");
            assert("info"@[0] != "warn"@[0]);
            assert("info"@.len() != "error"@.len());
            assert("error"@.len() != "warn"@.len());
        }
        Notification::new(title, message, kind)
    }

    /// Whether a notification shown for `elapsed_nanos` nanoseconds is due to
    /// close: once its lifetime has passed.
    pub fn should_close(elapsed_nanos: u128) -> (r: bool)
        ensures
            r == due_to_close(elapsed_nanos as int),
    {
        elapsed_nanos >= (NOTIFY_LIFETIME_SECS as u128) * 1_000_000_000
    }
}

impl NotifyLevel {
    /// The level that `kind` names.
    pub open spec fn from_kind_spec(kind: Seq<char>) -> NotifyLevel {
        if kind == "warn"@ {
            NotifyLevel::Warn
        } else if kind == "error"@ {
            NotifyLevel::Error
        } else {
            NotifyLevel::Info
        }
    }
}

/// The words of the command line are taken in order, each on its own: the
/// first after the program name is the title whenever it is given, the
/// second the message whenever it is given, the third the kind; a missing
/// word gives its default, however many words follow.
pub proof fn lemma_args_in_order(args: Seq<Seq<char>>)
    ensures
        args.len() >= 2 ==> arg_or(args, 1, "Xiee OS"@) == args[1],
        args.len() >= 3 ==> arg_or(args, 2, "Powiadomienie"@) == args[2],
        args.len() >= 4 ==> arg_or(args, 3, "info"@) == args[3],
        args.len() < 2 ==> arg_or(args, 1, "Xiee OS"@) == "Xiee OS"@,
        args.len() < 3 ==> arg_or(args, 2, "Powiadomienie"@) == "Powiadomienie"@,
        args.len() < 4 ==> NotifyLevel::from_kind_spec(arg_or(args, 3, "info"@))
            == NotifyLevel::Info,
{
    reveal_strlit("info");
    reveal_strlit("warn");
    reveal_strlit("error");
    assert("info"@[0] != "warn"@[0]);
    assert("info"@.len() != "error"@.len());
}

/// A notification is due to close exactly from four seconds on.
pub proof fn lemma_close_after_four_seconds(elapsed_nanos: int)
    ensures
        due_to_close(elapsed_nanos) <==> elapsed_nanos >= 4_000_000_000,
{
}

/// Once a notification is due to close it stays due: closing is monotone in
/// the time shown.
pub proof fn lemma_close_is_monotone(earlier: u128, later: u128)
    requires
        earlier <= later,
        due_to_close(earlier as int),
    ensures
        due_to_close(later as int),
{
}

} // verus!
