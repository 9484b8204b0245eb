//! What a download accepted from the browser does: where the file goes, how
//! it is fetched, the desktop shortcut it may leave and the messages it
//! reports.

use vstd::prelude::*;
use vstd::string::StringExecFns;
use vstd::string::StrSliceExecFns;
use crate::text::{owned, trim, trim_start, unicode_white_space};
use crate::icons::{guess_icon, icon_for_file, lemma_icon_is_symbol, unicode_lowercase, after_last_dot};
use crate::shortcut::{DESKTOP_DIR, shortcut_file_name, shortcut_file_name_of, shortcut_content, shortcut_line, shortcut_fields, lemma_fields_of_joined,
    lemma_shortcut_file_name, path_extension, shortcut_stem};

verus! {

/// Directory that downloads are saved to.
pub const DOWNLOADS_DIR: &'static str = "/root/Downloads";

/// `base` joined with `name` as `PathBuf::join` does on Unix: an absolute
/// `name` replaces the base; otherwise `name` is appended, after a `/` when
/// the base is not empty and does not already end in one.
pub open spec fn joined_path(base: Seq<char>, name: Seq<char>) -> Seq<char> {
    if name.len() > 0 && name[0] == '/' {
        name
    } else if base.len() > 0 && base.last() != '/' {
        base + "/"@ + name
    } else {
        base + name
    }
}

/// Joins a file name onto a directory path.
pub fn join_path(base: &str, name: &str) -> (r: String)
    ensures
        r@ == joined_path(base@, name@),
{
    let n = base.unicode_len();
    if name.unicode_len() > 0 && name.get_char(0) == '/' {
        owned(name)
    } else if n > 0 && base.get_char(n - 1) != '/' {
        let mut s = owned(base);
        s.append("/");
        s.append(name);
        s
    } else {
        let mut s = owned(base);
        s.append(name);
        s
    }
}

/// Where a downloaded file is saved.
pub open spec fn destination_of(filename: Seq<char>) -> Seq<char> {
    joined_path(DOWNLOADS_DIR@, filename)
}

/// Where the desktop shortcut of a download is written.
pub open spec fn shortcut_path_of(filename: Seq<char>) -> Seq<char> {
    joined_path(DESKTOP_DIR@, shortcut_file_name_of(filename))
}

/// The shortcut a download leaves on the desktop reads back as the
/// downloaded file's name, a command that opens the saved file, and the
/// file's icon, whenever the name holds no `|` and does not begin with
/// whitespace.
pub proof fn lemma_download_shortcut_reads_back(filename: Seq<char>)
    requires
        !filename.contains('|'),
        filename.len() > 0 ==> !unicode_white_space(filename[0]),
    ensures
        shortcut_fields(
            shortcut_line(filename, destination_of(filename), icon_for_file(filename)),
        ) == Some((filename, "xdg-open "@ + destination_of(filename), icon_for_file(filename))),
{
    reveal_strlit("|xdg-open ");
    reveal_strlit("xdg-open ");
    reveal_strlit("|");
    reveal_strlit("/");
    reveal_strlit("/root/Downloads");
    let icon = icon_for_file(filename);
    let dest = destination_of(filename);
    let command = "xdg-open "@ + dest;
    let line = shortcut_line(filename, dest, icon);
    lemma_icon_is_symbol(unicode_lowercase(after_last_dot(filename)));
    assert(line =~= filename + seq!['|'] + command + seq!['|'] + icon);
    assert(!unicode_white_space(line[0])) by {
        if filename.len() > 0 {
            assert(line[0] == filename[0]);
        } else {
            assert(line[0] == '|');
        }
    }
    assert(line.last() == icon[0]);
    assert(trim_start(line) == line);
    assert(trim(line) == line);
    assert forall|i: int| 0 <= i < command.len() implies command[i] != '|' by {
        if i >= 9 {
            assert(command[i] == dest[i - 9]);
            if filename.len() > 0 && filename[0] == '/' {
                assert(dest[i - 9] == filename[i - 9]);
            } else {
                assert(dest == "/root/Downloads"@ + "/"@ + filename);
                if i - 9 >= 16 {
                    assert(dest[i - 9] == filename[i - 25]);
                }
            }
        }
    }
    lemma_fields_of_joined(line, (filename, command, icon));
}

/// A download's shortcut is written straight into the desktop directory,
/// under a single file name that the desktop recognises as a shortcut
/// whenever the download's name is not empty.
pub proof fn lemma_shortcut_path_in_desktop_dir(filename: Seq<char>)
    ensures
        shortcut_path_of(filename) == DESKTOP_DIR@ + "/"@ + shortcut_file_name_of(filename),
        !shortcut_file_name_of(filename).contains('/'),
        filename.len() > 0 ==> path_extension(shortcut_file_name_of(filename)) == Some("shortcut"@),
{
    reveal_strlit("/root/.xiee/desktop");
    lemma_shortcut_file_name(filename);
    let name = shortcut_file_name_of(filename);
    assert(name.len() > 0);
    assert(name[0] != '/');
}

/// A desktop shortcut file to be written: its path and its text.
pub struct ShortcutFile {
    pub path: String,
    pub content: String,
}

/// The plan for one accepted download.
pub struct DownloadPlan {
    /// The path the file is saved to.
    pub destination: String,
    /// The arguments of the `curl` call that fetches the file.
    pub fetch_args: Vec<String>,
    /// The desktop shortcut to write, when one was asked for.
    pub shortcut: Option<ShortcutFile>,
    /// The arguments of the `xnotify` call that announces the download.
    pub notify_args: Vec<String>,
    /// The message returned when everything went well.
    pub success_message: String,
}

/// The views of a list of strings.
pub open spec fn views(v: Seq<String>) -> Seq<Seq<char>> {
    v.map_values(|s: String| s@)
}

/// Plans a download of `url` saved as `filename`: `curl -L -o <dest> <url>`
/// fetches it into the downloads directory; with `show_on_desktop` a
/// shortcut `<name>|xdg-open <dest>|<icon>` is written into the desktop
/// directory; a notification names the file and the result names the
/// destination.
pub fn plan_download(url: &str, filename: &str, show_on_desktop: bool) -> (r: DownloadPlan)
    ensures
        r.destination@ == destination_of(filename@),
        views(r.fetch_args@) == seq!["-L"@, "-o"@, destination_of(filename@), url@],
        show_on_desktop <==> r.shortcut is Some,
        r.shortcut matches Some(f) ==> {
            &&& f.path@ == shortcut_path_of(filename@)
            &&& f.content@ == shortcut_line(
                filename@,
                destination_of(filename@),
                icon_for_file(filename@),
            )
        },
        views(r.notify_args@) == seq!["XIARR"@, "Pobrano: "@ + filename@, "info"@],
        r.success_message@ == "Pobrano: "@ + destination_of(filename@),
{
    let destination = join_path(DOWNLOADS_DIR, filename);
    let mut fetch_args: Vec<String> = Vec::new();
    fetch_args.push(owned("-L"));
    fetch_args.push(owned("-o"));
    fetch_args.push(owned(destination.as_str()));
    fetch_args.push(owned(url));
    let shortcut = if show_on_desktop {
        let icon = guess_icon(filename);
        let name = shortcut_file_name(filename);
        Some(
            ShortcutFile {
                path: join_path(DESKTOP_DIR, name.as_str()),
                content: shortcut_content(filename, destination.as_str(), icon),
            },
        )
    } else {
        None
    };
    let mut announced = owned("Pobrano: ");
    announced.append(filename);
    let mut notify_args: Vec<String> = Vec::new();
    notify_args.push(owned("XIARR"));
    notify_args.push(announced);
    notify_args.push(owned("info"));
    let mut success_message = owned("Pobrano: ");
    success_message.append(destination.as_str());
    proof {
        assert(views(fetch_args@) =~= seq!["-L"@, "-o"@, destination_of(filename@), url@]);
        assert(views(notify_args@) =~= seq!["XIARR"@, "Pobrano: "@ + filename@, "info"@]);
    }
    DownloadPlan { destination, fetch_args, shortcut, notify_args, success_message }
}

/// The error reported when the fetch fails, followed by what `curl` printed.
pub fn download_failure_message(stderr: &str) -> (r: String)
    ensures
        r@ == "Blad pobierania: "@ + stderr@,
{
    let mut s = owned("Blad pobierania: ");
    s.append(stderr);
    s
}

/// A download is saved in `/root/Downloads` under its own name, unless the
/// name is an absolute path, which is used as it is; its shortcut goes to
/// `/root/.xiee/desktop` as the name's stem followed by `.shortcut`.
pub proof fn lemma_download_paths(filename: Seq<char>)
    ensures
        (filename.len() == 0 || filename[0] != '/') ==> destination_of(filename)
            == "/root/Downloads/"@ + filename,
        (filename.len() > 0 && filename[0] == '/') ==> destination_of(filename) == filename,
        shortcut_path_of(filename) == "/root/.xiee/desktop/"@ + shortcut_stem(filename)
            + ".shortcut"@,
{
    reveal_strlit("/root/Downloads");
    reveal_strlit("/root/Downloads/");
    reveal_strlit("/root/.xiee/desktop");
    reveal_strlit("/root/.xiee/desktop/");
    reveal_strlit("/");
    assert("/root/Downloads/"@ =~= "/root/Downloads"@ + "/"@);
    assert("/root/.xiee/desktop/"@ =~= "/root/.xiee/desktop"@ + "/"@);
    lemma_shortcut_path_in_desktop_dir(filename);
    assert("/root/.xiee/desktop"@ + "/"@ + shortcut_file_name_of(filename) =~= "/root/.xiee/desktop/"@
        + shortcut_stem(filename) + ".shortcut"@);
    if filename.len() == 0 || filename[0] != '/' {
        assert("/root/Downloads"@ + "/"@ + filename =~= "/root/Downloads/"@ + filename);
    }
}

} // verus!
