use xiee::download::{download_failure_message, join_path, plan_download, DOWNLOADS_DIR};
use xiee::icons::{extension_of, guess_icon, icon_for_extension};
use xiee::shortcut::{
    is_shortcut_file_name, shortcut_content, shortcut_file_name, shortcut_stem_of, DesktopIcon,
    DESKTOP_DIR,
};
use xiee::text::{contains_char, find_char_from, is_whitespace, str_equals, trimmed};

fn icon(name: &str, command: &str, symbol: &str) -> DesktopIcon {
    DesktopIcon { name: name.to_string(), command: command.to_string(), icon: symbol.to_string() }
}

#[test]
fn guess_icon_by_lowercased_extension() {
    assert_eq!(guess_icon("report.PDF"), "📕");
    assert_eq!(guess_icon("backup.tar.gz"), "📦");
    assert_eq!(guess_icon("a.ZIP"), "📦");
    assert_eq!(guess_icon("song.Mp3"), "🎵");
    assert_eq!(guess_icon("clip.ogg"), "🎵");
    assert_eq!(guess_icon("movie.mkv"), "🎬");
    assert_eq!(guess_icon("photo.JPEG"), "🖼");
    assert_eq!(guess_icon("anim.gif"), "🖼");
    assert_eq!(guess_icon("pkg.deb"), "⚙");
    assert_eq!(guess_icon("pkg.RPM"), "⚙");
}

#[test]
fn guess_icon_edge_cases() {
    // No dot: the whole name is taken as the extension.
    assert_eq!(guess_icon("pdf"), "📕");
    assert_eq!(guess_icon("README"), "📄");
    assert_eq!(guess_icon("trailing."), "📄");
    assert_eq!(guess_icon(""), "📄");
    // The extension is lowercased first, so the mixed-case arm never matches.
    assert_eq!(guess_icon("tool.AppImage"), "📄");
    assert_eq!(guess_icon("tool.appimage"), "📄");
}

#[test]
fn icon_for_extension_table() {
    assert_eq!(icon_for_extension("pdf"), "📕");
    assert_eq!(icon_for_extension("xz"), "📦");
    assert_eq!(icon_for_extension("wav"), "🎵");
    assert_eq!(icon_for_extension("avi"), "🎬");
    assert_eq!(icon_for_extension("png"), "🖼");
    assert_eq!(icon_for_extension("AppImage"), "⚙");
    assert_eq!(icon_for_extension("PDF"), "📄");
    assert_eq!(icon_for_extension(""), "📄");
}

#[test]
fn extension_is_after_last_dot() {
    assert_eq!(extension_of("a.b.c"), "c");
    assert_eq!(extension_of("abc"), "abc");
    assert_eq!(extension_of("x."), "");
    assert_eq!(extension_of(".hidden"), "hidden");
    assert_eq!(extension_of("zażółć.gęś"), "gęś");
}

#[test]
fn trimming_unicode_whitespace() {
    assert_eq!(trimmed("  a b \n"), "a b");
    assert_eq!(trimmed("\u{a0}\u{3000}x\u{2028}"), "x");
    assert_eq!(trimmed(" \t\r\n "), "");
    assert_eq!(trimmed("x"), "x");
    assert_eq!(trimmed("\u{200b}x"), "\u{200b}x");
}

#[test]
fn text_helpers() {
    assert!(str_equals("abc", "abc"));
    assert!(!str_equals("abc", "abd"));
    assert!(!str_equals("ab", "abc"));
    assert!(contains_char("a|b", '|'));
    assert!(!contains_char("ab", '|'));
    assert_eq!(find_char_from("a|b|c", '|', 0), Some(1));
    assert_eq!(find_char_from("a|b|c", '|', 2), Some(3));
    assert_eq!(find_char_from("a|b|c", '|', 4), None);
}

#[test]
fn shortcut_parses_three_fields() {
    assert_eq!(
        DesktopIcon::from_shortcut("Doc|xdg-open /root/Downloads/Doc|📄\n"),
        Some(icon("Doc", "xdg-open /root/Downloads/Doc", "📄"))
    );
    // The third field keeps any further separators.
    assert_eq!(DesktopIcon::from_shortcut("a|b|c|d"), Some(icon("a", "b", "c|d")));
    // Only the ends of the whole text are trimmed.
    assert_eq!(DesktopIcon::from_shortcut("  x | y | z  "), Some(icon("x ", " y ", " z")));
    assert_eq!(DesktopIcon::from_shortcut("||"), Some(icon("", "", "")));
}

#[test]
fn shortcut_needs_two_separators() {
    assert_eq!(DesktopIcon::from_shortcut("a|b"), None);
    assert_eq!(DesktopIcon::from_shortcut("abc"), None);
    assert_eq!(DesktopIcon::from_shortcut(""), None);
    assert_eq!(DesktopIcon::from_shortcut("  |  "), None);
}

#[test]
fn builtin_icon_is_file_manager() {
    assert_eq!(DesktopIcon::builtin(), icon("XFM", "xfm", "📁"));
}

#[test]
fn collect_keeps_builtin_first_and_skips_bad_files() {
    let texts = vec![
        "A|run-a|🅰".to_string(),
        "broken".to_string(),
        "B|run-b|🅱\n".to_string(),
    ];
    let icons = DesktopIcon::collect(&texts);
    assert_eq!(
        icons,
        vec![icon("XFM", "xfm", "📁"), icon("A", "run-a", "🅰"), icon("B", "run-b", "🅱")]
    );
    assert_eq!(DesktopIcon::collect(&Vec::new()), vec![icon("XFM", "xfm", "📁")]);
}

#[test]
fn shortcut_file_names() {
    assert!(is_shortcut_file_name("a.shortcut"));
    assert!(is_shortcut_file_name("a.b.shortcut"));
    assert!(is_shortcut_file_name("..shortcut"));
    assert!(!is_shortcut_file_name(".shortcut"));
    assert!(!is_shortcut_file_name("shortcut"));
    assert!(!is_shortcut_file_name("a.shortcut.bak"));
    assert!(!is_shortcut_file_name("a.Shortcut"));
    assert!(!is_shortcut_file_name(""));
    assert!(!is_shortcut_file_name(".."));
    assert!(!is_shortcut_file_name("."));
}

#[test]
fn shortcut_names_for_downloads() {
    assert_eq!(shortcut_stem_of("My File/x.pdf"), "My_File_x.pdf");
    assert_eq!(shortcut_stem_of("plain"), "plain");
    assert_eq!(shortcut_file_name("My File/x.pdf"), "My_File_x.pdf.shortcut");
    assert_eq!(shortcut_file_name(""), ".shortcut");
    assert!(is_shortcut_file_name(&shortcut_file_name("a b.zip")));
    assert_eq!(shortcut_content("f", "/d/f", "📄"), "f|xdg-open /d/f|📄");
}

#[test]
fn join_paths() {
    assert_eq!(join_path(DOWNLOADS_DIR, "f.zip"), "/root/Downloads/f.zip");
    assert_eq!(join_path(DOWNLOADS_DIR, "/tmp/x"), "/tmp/x");
    assert_eq!(join_path(DOWNLOADS_DIR, ""), "/root/Downloads/");
    assert_eq!(join_path(DESKTOP_DIR, "a.shortcut"), "/root/.xiee/desktop/a.shortcut");
    assert_eq!(join_path("/root/", "a"), "/root/a");
    assert_eq!(join_path("", "a"), "a");
    assert_eq!(join_path("dir", "a/b"), "dir/a/b");
}

#[test]
fn plan_download_with_shortcut() {
    let plan = plan_download("http://host/f.zip", "f.zip", true);
    assert_eq!(plan.destination, "/root/Downloads/f.zip");
    assert_eq!(plan.fetch_args, vec!["-L", "-o", "/root/Downloads/f.zip", "http://host/f.zip"]);
    let shortcut = plan.shortcut.expect("a shortcut was asked for");
    assert_eq!(shortcut.path, "/root/.xiee/desktop/f.zip.shortcut");
    assert_eq!(shortcut.content, "f.zip|xdg-open /root/Downloads/f.zip|📦");
    assert_eq!(plan.notify_args, vec!["XIARR", "Pobrano: f.zip", "info"]);
    assert_eq!(plan.success_message, "Pobrano: /root/Downloads/f.zip");
}

#[test]
fn plan_download_without_shortcut() {
    let plan = plan_download("u", "my song.MP3", false);
    assert!(plan.shortcut.is_none());
    assert_eq!(plan.destination, "/root/Downloads/my song.MP3");
    assert_eq!(plan.success_message, "Pobrano: /root/Downloads/my song.MP3");
}

#[test]
fn plan_download_absolute_name() {
    let plan = plan_download("u", "/tmp/x.pdf", true);
    assert_eq!(plan.destination, "/tmp/x.pdf");
    let shortcut = plan.shortcut.unwrap();
    assert_eq!(shortcut.path, "/root/.xiee/desktop/_tmp_x.pdf.shortcut");
    assert_eq!(shortcut.content, "/tmp/x.pdf|xdg-open /tmp/x.pdf|📕");
}

#[test]
fn download_failure_text() {
    assert_eq!(download_failure_message("curl: (6) no host"), "Blad pobierania: curl: (6) no host");
    assert_eq!(download_failure_message(""), "Blad pobierania: ");
}

#[test]
fn downloaded_shortcut_reads_back() {
    for name in ["report.pdf", "My Song.mp3", "/abs/file.deb", "weird.name.tar", ""] {
        let plan = plan_download("u", name, true);
        let shortcut = plan.shortcut.unwrap();
        let back = DesktopIcon::from_shortcut(&shortcut.content).expect("reads back");
        assert_eq!(back.name, name);
        assert_eq!(back.command, format!("xdg-open {}", plan.destination));
        assert_eq!(back.icon, guess_icon(name));
        if !name.is_empty() {
            let file = shortcut.path.rsplit('/').next().unwrap();
            assert!(is_shortcut_file_name(file));
            assert_eq!(shortcut.path, format!("{}/{}", DESKTOP_DIR, file));
        }
    }
}

#[test]
fn whitespace_set() {
    for c in [' ', '\t', '\n', '\u{b}', '\u{c}', '\r', '\u{85}', '\u{a0}', '\u{1680}', '\u{2000}',
        '\u{200a}', '\u{2028}', '\u{2029}', '\u{202f}', '\u{205f}', '\u{3000}'] {
        assert!(is_whitespace(c));
        assert!(c.is_whitespace());
    }
    for c in ['a', '|', '\u{200b}', '\u{180e}', '\u{feff}', '\u{1f4c4}', '\u{0}'] {
        assert!(!is_whitespace(c));
        assert_eq!(is_whitespace(c), c.is_whitespace());
    }
    for u in 0u32..0x3100 {
        if let Some(c) = char::from_u32(u) {
            assert_eq!(is_whitespace(c), c.is_whitespace());
        }
    }
}

#[test]
fn icon_ignores_ascii_case() {
    for name in ["Report.Pdf", "a.tar.GZ", "x.Mp4", "y.JpEg", "z.DeB", "plain", "ÉTÉ.PNG", "w.AppImage"] {
        assert_eq!(guess_icon(&name.to_ascii_uppercase()), guess_icon(name));
        assert_eq!(guess_icon(&name.to_ascii_lowercase()), guess_icon(name));
    }
}
