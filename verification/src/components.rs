//! Shared UI components: the window title bar with its minimize and close
//! buttons, the colours they are drawn with, and taskbar icon highlighting.

use vstd::prelude::*;
use crate::text::str_equals;

verus! {

/// A colour with premultiplied alpha, as the UI toolkit stores it.
#[derive(Clone, Copy, Debug, PartialEq, Eq, Structural)]
pub struct Color {
    pub r: u8,
    pub g: u8,
    pub b: u8,
    pub a: u8,
}

impl Color {
    /// An opaque colour.
    pub fn rgb(r: u8, g: u8, b: u8) -> (c: Color)
        ensures
            c == (Color { r, g, b, a: 255 }),
    {
        Color { r, g, b, a: 255 }
    }

    /// A colour given with premultiplied alpha.
    pub fn rgba_premultiplied(r: u8, g: u8, b: u8, a: u8) -> (c: Color)
        ensures
            c == (Color { r, g, b, a }),
    {
        Color { r, g, b, a }
    }
}

/// A colour of the shared Xiee theme.
#[derive(Clone, Copy, Debug, PartialEq, Eq, Structural)]
pub enum ThemeColor {
    TaskbarBackground,
    TaskbarText,
    IconHover,
    IconBorder,
}

/// What an element is painted with: a fixed colour or a theme colour.
#[derive(Clone, Copy, Debug, PartialEq, Eq, Structural)]
pub enum Paint {
    Fixed(Color),
    Theme(ThemeColor),
}

/// The background of a taskbar icon: the theme's hover colour under the
/// pointer, a translucent cream otherwise.
pub fn taskbar_icon_fill(hovered: bool) -> (p: Paint)
    ensures
        p == (if hovered {
            Paint::Theme(ThemeColor::IconHover)
        } else {
            Paint::Fixed(Color { r: 255, g: 245, b: 200, a: 180 })
        }),
{
    if hovered {
        Paint::Theme(ThemeColor::IconHover)
    } else {
        Paint::Fixed(Color::rgba_premultiplied(255, 245, 200, 180))
    }
}

/// Result of the clicks on a window's buttons.
#[derive(Clone, Copy, Debug, PartialEq, Eq, Structural)]
pub enum WindowAction {
    NoAction,
    /// The window hides; its process keeps running.
    Minimize,
    Close,
}

/// A request to the windowing system.
#[derive(Clone, Copy, Debug, PartialEq, Eq, Structural)]
pub enum ViewportCommand {
    /// Minimize (`true`) or restore the window.
    Minimized(bool),
    Close,
}

impl WindowAction {
    /// The action of one frame: the close button is looked at first and the
    /// minimize button after it, so a minimize click wins over a close click.
    pub fn from_clicks(close_clicked: bool, minimize_clicked: bool) -> (r: WindowAction)
        ensures
            r == (if minimize_clicked {
                WindowAction::Minimize
            } else if close_clicked {
                WindowAction::Close
            } else {
                WindowAction::NoAction
            }),
    {
        let mut action = WindowAction::NoAction;
        if close_clicked {
            action = WindowAction::Close;
        }
        if minimize_clicked {
            action = WindowAction::Minimize;
        }
        action
    }

    /// What the window asks of the windowing system for this action:
    /// minimizing keeps the process alive, closing ends the window.
    pub fn viewport_command(&self) -> (r: Option<ViewportCommand>)
        ensures
            r == match *self {
                WindowAction::NoAction => None,
                WindowAction::Minimize => Some(ViewportCommand::Minimized(true)),
                WindowAction::Close => Some(ViewportCommand::Close),
            },
    {
        match self {
            WindowAction::NoAction => None,
            WindowAction::Minimize => Some(ViewportCommand::Minimized(true)),
            WindowAction::Close => Some(ViewportCommand::Close),
        }
    }
}

/// A button of the window title bar.
#[derive(Clone, Copy, Debug, PartialEq, Eq, Structural)]
pub enum WindowButton {
    Close,
    Minimize,
}

impl WindowButton {
    /// The symbol on the button: a cross, or a square with a dash.
    pub fn symbol(&self) -> (s: &'static str)
        ensures
            s@ == match *self {
                WindowButton::Close => "✕"@,
                WindowButton::Minimize => "—"@,
            },
    {
        match self {
            WindowButton::Close => "✕",
            WindowButton::Minimize => "—",
        }
    }

    /// The button's colour under the pointer.
    pub fn hover_color(&self) -> (c: Color)
        ensures
            c == match *self {
                WindowButton::Close => Color { r: 200, g: 60, b: 60, a: 255 },
                WindowButton::Minimize => Color { r: 80, g: 80, b: 100, a: 255 },
            },
    {
        match self {
            WindowButton::Close => Color::rgb(200, 60, 60),
            WindowButton::Minimize => Color::rgb(80, 80, 100),
        }
    }
}

/// The fill of a title-bar button: its hover colour under the pointer, a dark
/// slate otherwise.
pub fn window_button_fill(hovered: bool, hover_color: Color) -> (c: Color)
    ensures
        c == (if hovered {
            hover_color
        } else {
            Color { r: 50, g: 50, b: 65, a: 255 }
        }),
{
    if hovered {
        hover_color
    } else {
        Color::rgb(50, 50, 65)
    }
}

/// Whether a title-bar button with this symbol gets a square outline: only
/// the minimize dash does.
pub fn window_button_framed(symbol: &str) -> (r: bool)
    ensures
        r == (symbol@ == "—"@),
{
    str_equals(symbol, "—")
}

/// The title bar of a Xiee OS window.
pub struct XieeWindowBar<'a> {
    pub title: &'a str,
}

impl<'a> XieeWindowBar<'a> {
    /// A title bar showing `title`.
    pub fn new(title: &'a str) -> (r: Self)
        ensures
            r.title == title,
    {
        Self { title }
    }
}

} // verus!
