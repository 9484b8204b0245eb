use xiee::components::{
    taskbar_icon_fill, window_button_fill, window_button_framed, Color, Paint, ThemeColor,
    ViewportCommand, WindowAction, WindowButton, XieeWindowBar,
};
use xiee::desktop::{
    app_command, clock_text, icon_slot, icons_due_for_reload, DesktopShell, ShellEffect, TaskbarAction,
};
use xiee::notify::{Notification, NotifyLevel};
use xiee::splash::{SplashState, SplashStep, LOGIN_PROGRAM};

#[test]
fn window_bar_new_keeps_title() {
    let bar = XieeWindowBar::new("Terminal");
    assert_eq!(bar.title, "Terminal");
}

#[test]
fn window_actions_from_clicks() {
    assert_eq!(WindowAction::from_clicks(false, false), WindowAction::NoAction);
    assert_eq!(WindowAction::from_clicks(true, false), WindowAction::Close);
    assert_eq!(WindowAction::from_clicks(false, true), WindowAction::Minimize);
    assert_eq!(WindowAction::from_clicks(true, true), WindowAction::Minimize);
}

#[test]
fn window_actions_to_viewport() {
    assert_eq!(WindowAction::NoAction.viewport_command(), None);
    assert_eq!(WindowAction::Minimize.viewport_command(), Some(ViewportCommand::Minimized(true)));
    assert_eq!(WindowAction::Close.viewport_command(), Some(ViewportCommand::Close));
}

#[test]
fn window_buttons() {
    assert_eq!(WindowButton::Close.symbol(), "✕");
    assert_eq!(WindowButton::Minimize.symbol(), "—");
    assert_eq!(WindowButton::Close.hover_color(), Color { r: 200, g: 60, b: 60, a: 255 });
    assert_eq!(WindowButton::Minimize.hover_color(), Color { r: 80, g: 80, b: 100, a: 255 });
    let hover = WindowButton::Close.hover_color();
    assert_eq!(window_button_fill(true, hover), hover);
    assert_eq!(window_button_fill(false, hover), Color { r: 50, g: 50, b: 65, a: 255 });
    assert!(window_button_framed("—"));
    assert!(!window_button_framed("✕"));
    assert!(!window_button_framed("-"));
}

#[test]
fn colors_and_taskbar_fill() {
    assert_eq!(Color::rgb(1, 2, 3), Color { r: 1, g: 2, b: 3, a: 255 });
    assert_eq!(Color::rgba_premultiplied(1, 2, 3, 4), Color { r: 1, g: 2, b: 3, a: 4 });
    assert_eq!(taskbar_icon_fill(true), Paint::Theme(ThemeColor::IconHover));
    assert_eq!(
        taskbar_icon_fill(false),
        Paint::Fixed(Color { r: 255, g: 245, b: 200, a: 180 })
    );
}

#[test]
fn notify_levels() {
    assert_eq!(NotifyLevel::from_kind("warn"), NotifyLevel::Warn);
    assert_eq!(NotifyLevel::from_kind("error"), NotifyLevel::Error);
    assert_eq!(NotifyLevel::from_kind("info"), NotifyLevel::Info);
    assert_eq!(NotifyLevel::from_kind("WARN"), NotifyLevel::Info);
    assert_eq!(NotifyLevel::from_kind(""), NotifyLevel::Info);
    assert_eq!(NotifyLevel::Warn.icon(), "⚠");
    assert_eq!(NotifyLevel::Error.icon(), "✕");
    assert_eq!(NotifyLevel::Info.icon(), "ℹ");
    assert_eq!(NotifyLevel::Warn.accent(), Paint::Fixed(Color { r: 220, g: 170, b: 40, a: 255 }));
    assert_eq!(NotifyLevel::Error.accent(), Paint::Fixed(Color { r: 210, g: 60, b: 60, a: 255 }));
    assert_eq!(NotifyLevel::Info.accent(), Paint::Theme(ThemeColor::TaskbarBackground));
}

#[test]
fn notification_from_args() {
    let n = Notification::from_args(&vec!["xnotify".to_string()]);
    assert_eq!(n.title, "Xiee OS");
    assert_eq!(n.message, "Powiadomienie");
    assert_eq!(n.level, NotifyLevel::Info);
    let args: Vec<String> =
        vec!["xnotify", "XIARR", "Pobrano: a.zip", "error"].into_iter().map(String::from).collect();
    let n = Notification::from_args(&args);
    assert_eq!(n.title, "XIARR");
    assert_eq!(n.message, "Pobrano: a.zip");
    assert_eq!(n.level, NotifyLevel::Error);
    let n = Notification::new("t".to_string(), "m".to_string(), "warn".to_string());
    assert_eq!(n.level, NotifyLevel::Warn);
}

#[test]
fn notification_closes_after_four_seconds() {
    assert!(!Notification::should_close(0));
    assert!(!Notification::should_close(3_999_999_999));
    assert!(Notification::should_close(4_000_000_000));
    assert!(Notification::should_close(u128::MAX));
}

#[test]
fn splash_launches_login_once() {
    let mut s = SplashState::new();
    assert!(!s.launched);
    assert_eq!(s.step(false), SplashStep::Draw);
    assert_eq!(s.step(true), SplashStep::LaunchLogin);
    assert!(s.launched);
    assert_eq!(s.step(true), SplashStep::Draw);
    assert_eq!(s.step(false), SplashStep::Draw);
    assert_eq!(LOGIN_PROGRAM, "xiee-login");
}

#[test]
fn desktop_selection() {
    let mut d = DesktopShell::new();
    assert!(!d.launcher_open);
    assert_eq!(d.selected_icon, None);
    assert!(!d.icon_clicked(2, true, false));
    assert_eq!(d.selected_icon, Some(2));
    assert!(d.is_selected(2));
    assert!(!d.is_selected(1));
    assert!(!d.icon_clicked(1, false, false));
    assert_eq!(d.selected_icon, Some(2));
    assert!(d.icon_clicked(1, true, true));
    assert_eq!(d.selected_icon, None);
    d.icon_clicked(0, true, false);
    d.pointer_clicked(true, true);
    assert_eq!(d.selected_icon, Some(0));
    d.pointer_clicked(false, false);
    assert_eq!(d.selected_icon, Some(0));
    d.pointer_clicked(true, false);
    assert_eq!(d.selected_icon, None);
}

#[test]
fn desktop_taskbar() {
    let mut d = DesktopShell::new();
    assert_eq!(d.taskbar(&TaskbarAction::OpenLauncher), ShellEffect::Continue);
    assert!(d.launcher_open);
    assert_eq!(d.taskbar(&TaskbarAction::OpenLauncher), ShellEffect::Continue);
    assert!(!d.launcher_open);
    assert_eq!(d.taskbar(&TaskbarAction::NoAction), ShellEffect::Continue);
    assert_eq!(
        d.taskbar(&TaskbarAction::OpenApp("xiac".to_string())),
        ShellEffect::Spawn("xiac")
    );
    assert_eq!(
        d.taskbar(&TaskbarAction::OpenApp("firefox".to_string())),
        ShellEffect::EndFrame
    );
    assert!(!d.launcher_open);
}

#[test]
fn taskbar_app_commands() {
    for app in ["xiac", "xiarr", "xihh-key", "winyy", "xfm"] {
        assert_eq!(app_command(app), Some(app));
    }
    assert_eq!(app_command("sh"), None);
    assert_eq!(app_command("XFM"), None);
    assert_eq!(app_command(""), None);
}

#[test]
fn icon_reload_interval() {
    assert!(!icons_due_for_reload(0));
    assert!(!icons_due_for_reload(4_999_999_999));
    assert!(icons_due_for_reload(5_000_000_000));
    assert!(icons_due_for_reload(60_000_000_000));
}

#[test]
fn icon_grid() {
    let s = icon_slot(0);
    assert_eq!((s.left, s.top, s.center_x, s.symbol_y, s.label_y), (24, 24, 64, 54, 86));
    let s = icon_slot(1);
    assert_eq!((s.left, s.top), (124, 24));
    let s = icon_slot(3);
    assert_eq!((s.left, s.top, s.label_y), (124, 124, 186));
    let s = icon_slot(usize::MAX);
    assert_eq!(s.left, 124);
    assert_eq!(s.top, 24 + 100 * (usize::MAX as u128 / 2));
    for i in 0..12usize {
        for j in 0..12usize {
            if i != j {
                let (a, b) = (icon_slot(i), icon_slot(j));
                assert!(
                    a.left + 80 <= b.left
                        || b.left + 80 <= a.left
                        || a.top + 80 <= b.top
                        || b.top + 80 <= a.top
                );
            }
        }
    }
}

#[test]
fn clock_texts() {
    assert_eq!(clock_text(0, 0), "00:00");
    assert_eq!(clock_text(9, 5), "09:05");
    assert_eq!(clock_text(13, 37), "13:37");
    assert_eq!(clock_text(23, 59), "23:59");
}

#[test]
fn new_shortcut_seen_after_reload_interval() {
    // Frames at the given times (seconds); a shortcut appears at t0 = 7 s.
    let frames = [1u128, 3, 6, 7, 9, 11, 12, 16];
    let mut last = 0u128;
    let t0 = 7u128;
    for t in frames {
        if icons_due_for_reload((t - last) * 1_000_000_000) {
            last = t;
        }
        assert!(t - last < 5);
        if t >= t0 + 5 {
            assert!(last >= t0);
        }
    }
}
