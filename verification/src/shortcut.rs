//! Desktop shortcut files: the text format `name|command|icon`, the file names
//! under which shortcuts are stored, and the list of icons on the desktop.

use vstd::prelude::*;
use vstd::string::StrSliceExecFns;
use vstd::string::StringExecFns;
use crate::text::{all_white_space, lemma_trim_ignores_surrounding_whitespace, unicode_white_space, trim_start, lemma_trim_shape, trim, trimmed, find_char_from, owned, contains_char, str_equals};
use crate::icons::{after_last_dot, extension_of};

verus! {

/// Directory that holds the desktop shortcut files.
pub const DESKTOP_DIR: &'static str = "/root/.xiee/desktop";

/// A shortcut on the desktop: its label, the shell command it runs and the
/// symbol drawn for it.
#[derive(Clone, Debug, PartialEq, Eq)]
pub struct DesktopIcon {
    pub name: String,
    pub command: String,
    pub icon: String,
}

impl View for DesktopIcon {
    type V = (Seq<char>, Seq<char>, Seq<char>);

    open spec fn view(&self) -> Self::V {
        (self.name@, self.command@, self.icon@)
    }
}

/// `t` holds at least two `|` separators.
pub open spec fn has_two_bars(t: Seq<char>) -> bool {
    exists|p: int, q: int| 0 <= p < q < t.len() && t[p] == '|' && t[q] == '|'
}

/// `t` is `name|command|icon`, split at its first two `|`.
pub open spec fn fields_joined(t: Seq<char>, f: (Seq<char>, Seq<char>, Seq<char>)) -> bool {
    &&& !f.0.contains('|')
    &&& !f.1.contains('|')
    &&& t == f.0 + seq!['|'] + f.1 + seq!['|'] + f.2
}

/// The fields of a shortcut file: the trimmed text split at its first two `|`
/// (the third field keeps any further `|`); none when there are fewer than
/// two separators.
pub open spec fn shortcut_fields(content: Seq<char>) -> Option<(Seq<char>, Seq<char>, Seq<char>)> {
    let t = trim(content);
    if has_two_bars(t) {
        Some(choose|f: (Seq<char>, Seq<char>, Seq<char>)| fields_joined(t, f))
    } else {
        None
    }
}

/// Splitting at the first separator is unique.
proof fn lemma_split_unique(t: Seq<char>, a: Seq<char>, r1: Seq<char>, b: Seq<char>, r2: Seq<char>)
    requires
        !a.contains('|'),
        !b.contains('|'),
        t == a + seq!['|'] + r1,
        t == b + seq!['|'] + r2,
    ensures
        a == b,
        r1 == r2,
{
    if a.len() < b.len() {
        assert(t[a.len() as int] == '|');
        assert(b[a.len() as int] == '|');
    } else if b.len() < a.len() {
        assert(t[b.len() as int] == '|');
        assert(a[b.len() as int] == '|');
    } else {
        assert forall|i: int| 0 <= i < a.len() implies a[i] == b[i] by {
            assert(t[i] == a[i]);
            assert(t[i] == b[i]);
        }
        assert(a =~= b);
        assert(r1 =~= t.subrange(a.len() + 1int, t.len() as int));
        assert(r2 =~= t.subrange(a.len() + 1int, t.len() as int));
    }
}

/// A text has at most one split into `name|command|icon`.
pub proof fn lemma_fields_unique(
    t: Seq<char>,
    f: (Seq<char>, Seq<char>, Seq<char>),
    g: (Seq<char>, Seq<char>, Seq<char>),
)
    requires
        fields_joined(t, f),
        fields_joined(t, g),
    ensures
        f == g,
{
    let rf = f.1 + seq!['|'] + f.2;
    let rg = g.1 + seq!['|'] + g.2;
    assert(t =~= f.0 + seq!['|'] + rf);
    assert(t =~= g.0 + seq!['|'] + rg);
    lemma_split_unique(t, f.0, rf, g.0, rg);
    lemma_split_unique(rf, f.1, f.2, g.1, g.2);
}

/// The split of a text into fields, whenever it exists, is `shortcut_fields`.
pub proof fn lemma_fields_of_joined(content: Seq<char>, f: (Seq<char>, Seq<char>, Seq<char>))
    requires
        fields_joined(trim(content), f),
    ensures
        shortcut_fields(content) == Some(f),
{
    let t = trim(content);
    let p = f.0.len() as int;
    let q = f.0.len() + 1 + f.1.len() as int;
    assert(t[p] == '|');
    assert(t[q] == '|');
    assert(has_two_bars(t));
    let g = choose|g: (Seq<char>, Seq<char>, Seq<char>)| fields_joined(t, g);
    lemma_fields_unique(t, f, g);
}

impl DesktopIcon {
    /// The shortcut that is always on the desktop: the file manager.
    pub open spec fn builtin_view() -> (Seq<char>, Seq<char>, Seq<char>) {
        ("XFM"@, "xfm"@, "📁"@)
    }

    /// The built-in file-manager shortcut.
    pub fn builtin() -> (r: DesktopIcon)
        ensures
            r@ == Self::builtin_view(),
    {
        DesktopIcon { name: owned("XFM"), command: owned("xfm"), icon: owned("📁") }
    }

    /// Reads a shortcut from the text of a `.shortcut` file: the text is
    /// trimmed and split at its first two `|` into name, command and icon.
    /// Text with fewer than two `|` is no shortcut.
    pub fn from_shortcut(content: &str) -> (r: Option<DesktopIcon>)
        ensures
            match r {
                Some(icon) => shortcut_fields(content@) == Some(icon@),
                None => shortcut_fields(content@) is None,
            },
    {
        let t = trimmed(content);
        let n = t.unicode_len();
        let p = match find_char_from(t, '|', 0) {
            Some(p) => p,
            None => {
                return None;
            },
        };
        let q = match find_char_from(t, '|', p + 1) {
            Some(q) => q,
            None => {
                return None;
            },
        };
        let name = owned(t.substring_char(0, p));
        let command = owned(t.substring_char(p + 1, q));
        let icon = owned(t.substring_char(q + 1, n));
        let r = DesktopIcon { name, command, icon };
        proof {
            let f = r@;
            assert(t@ =~= f.0 + seq!['|'] + f.1 + seq!['|'] + f.2);
            assert forall|j: int| 0 <= j < f.0.len() implies f.0[j] != '|' by {
                assert(f.0[j] == t@[j]);
            }
            assert forall|j: int| 0 <= j < f.1.len() implies f.1[j] != '|' by {
                assert(f.1[j] == t@[p + 1 + j]);
            }
            lemma_fields_of_joined(content@, f);
        }
        Some(r)
    }
}

/// The icons on the desktop, given the texts of the shortcut files in order:
/// the built-in file manager first, then every text that reads as a
/// shortcut; texts that do not are left out.
pub open spec fn icons_from(contents: Seq<Seq<char>>) -> Seq<(Seq<char>, Seq<char>, Seq<char>)>
    decreases contents.len(),
{
    if contents.len() == 0 {
        seq![DesktopIcon::builtin_view()]
    } else {
        let rest = icons_from(contents.drop_last());
        match shortcut_fields(contents.last()) {
            Some(f) => rest.push(f),
            None => rest,
        }
    }
}

impl DesktopIcon {
    /// Builds the desktop's icons from the texts of its shortcut files.
    pub fn collect(contents: &Vec<String>) -> (r: Vec<DesktopIcon>)
        ensures
            r@.map_values(|i: DesktopIcon| i@) == icons_from(contents@.map_values(|s: String| s@)),
    {
        let ghost texts = contents@.map_values(|s: String| s@);
        let mut icons: Vec<DesktopIcon> = Vec::new();
        icons.push(DesktopIcon::builtin());
        let mut i: usize = 0;
        proof {
            assert(texts.take(0).len() == 0);
            assert(icons@.map_values(|d: DesktopIcon| d@) =~= icons_from(texts.take(0)));
        }
        while i < contents.len()
            invariant
                i <= contents.len(),
                texts == contents@.map_values(|s: String| s@),
                icons@.map_values(|d: DesktopIcon| d@) == icons_from(texts.take(i as int)),
            decreases contents.len() - i,
        {
            let ghost before = icons@;
            proof {
                assert(texts.take(i + 1).drop_last() =~= texts.take(i as int));
                assert(texts.take(i + 1).last() == contents@[i as int]@);
            }
            match DesktopIcon::from_shortcut(contents[i].as_str()) {
                Some(icon) => {
                    icons.push(icon);
                    proof {
                        assert(icons@.map_values(|d: DesktopIcon| d@) =~= before.map_values(
                            |d: DesktopIcon| d@,
                        ).push(icon@));
                    }
                },
                None => {},
            }
            i = i + 1;
        }
        proof {
            assert(texts.take(contents.len() as int) =~= texts);
        }
        icons
    }
}

/// The text of the shortcut that a download leaves on the desktop: the file
/// name, a command that opens the downloaded file, and its icon.
pub open spec fn shortcut_line(filename: Seq<char>, dest: Seq<char>, icon: Seq<char>) -> Seq<char> {
    filename + "|xdg-open "@ + dest + "|"@ + icon
}

/// Writes `filename|xdg-open dest|icon`.
pub fn shortcut_content(filename: &str, dest: &str, icon: &str) -> (r: String)
    ensures
        r@ == shortcut_line(filename@, dest@, icon@),
{
    let mut s = owned(filename);
    s.append("|xdg-open ");
    s.append(dest);
    s.append("|");
    s.append(icon);
    s
}

/// A character of a shortcut file name: spaces and slashes become `_`.
pub open spec fn stem_char(c: char) -> char {
    if c == ' ' || c == '/' {
        '_'
    } else {
        c
    }
}

/// The stem of the shortcut file for a download: its name with every space
/// and every `/` replaced by `_`.
pub open spec fn shortcut_stem(filename: Seq<char>) -> Seq<char> {
    filename.map_values(|c: char| stem_char(c))
}

/// The file name of a download's shortcut: its stem followed by `.shortcut`.
pub open spec fn shortcut_file_name_of(filename: Seq<char>) -> Seq<char> {
    shortcut_stem(filename) + ".shortcut"@
}

/// Replaces each space and each `/` of `filename` by `_`.
pub fn shortcut_stem_of(filename: &str) -> (r: String)
    ensures
        r@ == shortcut_stem(filename@),
        r@.len() == filename@.len(),
        forall|i: int|
            0 <= i < filename@.len() ==> (#[trigger] r@[i] == (if filename@[i] == ' '
                || filename@[i] == '/' {
                '_'
            } else {
                filename@[i]
            })),
{
    let n = filename.unicode_len();
    let mut s = String::new();
    let mut i: usize = 0;
    proof {
        reveal_strlit("_");
    }
    while i < n
        invariant
            n == filename@.len(),
            i <= n,
            s@ =~= filename@.subrange(0, i as int).map_values(|c: char| stem_char(c)),
        decreases n - i,
    {
        let c = filename.get_char(i);
        let ghost before = s@;
        if c == ' ' || c == '/' {
            s.append("_");
        } else {
            s.append(filename.substring_char(i, i + 1));
        }
        proof {
            reveal_strlit("_");
            assert(filename@.subrange(i as int, i + 1) =~= seq![c]);
            assert(filename@.subrange(0, i + 1) =~= filename@.subrange(0, i as int).push(c));
            assert(s@ =~= before.push(stem_char(c)));
        }
        i = i + 1;
    }
    proof {
        assert(filename@.subrange(0, n as int) =~= filename@);
        lemma_stem_keeps_other_chars(filename@);
    }
    s
}

/// The stem of a download's shortcut keeps every character of the name but
/// spaces and slashes, in place, and puts `_` for each of those.
pub proof fn lemma_stem_keeps_other_chars(filename: Seq<char>)
    ensures
        shortcut_stem(filename).len() == filename.len(),
        forall|i: int|
            0 <= i < filename.len() && filename[i] != ' ' && filename[i] != '/' ==> #[trigger]
                shortcut_stem(filename)[i] == filename[i],
        forall|i: int|
            0 <= i < filename.len() && (filename[i] == ' ' || filename[i] == '/') ==> #[trigger]
                shortcut_stem(filename)[i] == '_',
{
}

/// The name of the shortcut file for a download.
pub fn shortcut_file_name(filename: &str) -> (r: String)
    ensures
        r@ == shortcut_file_name_of(filename@),
{
    let mut s = shortcut_stem_of(filename);
    s.append(".shortcut");
    s
}

/// The extension of a single path component `name`, as `Path::extension`
/// defines it: none when the component is no file name (`..`), none when the
/// name holds no `.`, none when it begins with `.` and holds no other `.`,
/// and otherwise the part after the final `.`.
pub open spec fn path_extension(name: Seq<char>) -> Option<Seq<char>> {
    if name == ".."@ {
        None
    } else if !name.contains('.') {
        None
    } else if name[0] == '.' && !name.drop_first().contains('.') {
        None
    } else {
        Some(after_last_dot(name))
    }
}

/// The text after the last `.` of `a.b` is `b` when `b` holds no `.`.
pub proof fn lemma_after_last_dot_suffix(a: Seq<char>, b: Seq<char>)
    requires
        !b.contains('.'),
    ensures
        after_last_dot(a + seq!['.'] + b) == b,
    decreases b.len(),
{
    let s = a + seq!['.'] + b;
    if b.len() == 0 {
        assert(s.last() == '.');
        assert(after_last_dot(s) =~= b);
    } else {
        let c = b.last();
        assert(b[b.len() - 1] == c);
        assert(!b.drop_last().contains('.')) by {
            if b.drop_last().contains('.') {
                let k = choose|k: int| 0 <= k < b.drop_last().len() && b.drop_last()[k] == '.';
                assert(b[k] == '.');
            }
        }
        lemma_after_last_dot_suffix(a, b.drop_last());
        assert(s.drop_last() =~= a + seq!['.'] + b.drop_last());
        assert(s.last() == c);
        assert(after_last_dot(s) == after_last_dot(s.drop_last()).push(c));
        assert(b.drop_last().push(c) =~= b);
    }
}

/// A download's shortcut file name holds neither spaces nor `/`, so it is a
/// single file name inside the desktop directory; and, unless the download's
/// name is empty, its extension is `shortcut`, so the desktop picks it up.
pub proof fn lemma_shortcut_file_name(filename: Seq<char>)
    ensures
        !shortcut_file_name_of(filename).contains('/'),
        !shortcut_file_name_of(filename).contains(' '),
        shortcut_file_name_of(filename).len() == filename.len() + 9,
        filename.len() > 0 ==> path_extension(shortcut_file_name_of(filename)) == Some(
            "shortcut"@,
        ),
{
    reveal_strlit(".shortcut");
    reveal_strlit("shortcut");
    reveal_strlit("..");
    let stem = shortcut_stem(filename);
    let name = shortcut_file_name_of(filename);
    assert forall|i: int| 0 <= i < name.len() implies name[i] != '/' && name[i] != ' ' by {
        if i < stem.len() {
            assert(name[i] == stem_char(filename[i]));
        } else {
            assert(name[i] == ".shortcut"@[i - stem.len()]);
        }
    }
    if filename.len() > 0 {
        assert(name[stem.len() as int] == '.');
        assert(name.contains('.'));
        assert(name.drop_first()[stem.len() - 1] == '.');
        assert(name.drop_first().contains('.'));
        assert(".shortcut"@ =~= seq!['.'] + "shortcut"@);
        assert(name =~= stem + seq!['.'] + "shortcut"@);
        assert(!"shortcut"@.contains('.'));
        lemma_after_last_dot_suffix(stem, "shortcut"@);
    }
}

/// The text after the last `.` holds no `.`.
proof fn lemma_after_last_dot_has_no_dot(s: Seq<char>)
    ensures
        !after_last_dot(s).contains('.'),
    decreases s.len(),
{
    if s.len() > 0 && s.last() != '.' {
        lemma_after_last_dot_has_no_dot(s.drop_last());
        let a = after_last_dot(s.drop_last());
        assert forall|i: int| 0 <= i < a.push(s.last()).len() implies a.push(s.last())[i] != '.' by {
            if i < a.len() {
                assert(a.push(s.last())[i] == a[i]);
            }
        }
    } else if s.len() > 0 {
        assert(after_last_dot(s) =~= Seq::<char>::empty());
    }
}

/// A text holding a `.` is what comes before its last `.`, that `.`, and
/// what comes after it.
proof fn lemma_after_last_dot_split(s: Seq<char>)
    requires
        s.contains('.'),
    ensures
        after_last_dot(s).len() < s.len(),
        s == s.subrange(0, s.len() - after_last_dot(s).len() - 1) + seq!['.'] + after_last_dot(s),
    decreases s.len(),
{
    if s.last() == '.' {
        assert(s =~= s.drop_last() + seq!['.'] + Seq::<char>::empty());
        assert(s.subrange(0, s.len() - 1) =~= s.drop_last());
    } else {
        let k = choose|k: int| 0 <= k < s.len() && s[k] == '.';
        assert(k < s.len() - 1);
        assert(s.drop_last()[k] == '.');
        lemma_after_last_dot_split(s.drop_last());
        let a = after_last_dot(s.drop_last());
        let t = s.drop_last();
        assert(t.subrange(0, t.len() - a.len() - 1) =~= s.subrange(0, s.len() - a.len() - 2));
        assert(s =~= t.push(s.last()));
        assert(s =~= s.subrange(0, s.len() - a.len() - 2) + seq!['.'] + a.push(s.last()));
    }
}

/// Every name made of some text followed by `.shortcut` has the extension
/// `shortcut`, whatever characters the text holds.
pub proof fn lemma_shortcut_suffix_recognised(a: Seq<char>)
    requires
        a.len() > 0,
    ensures
        path_extension(a + ".shortcut"@) == Some("shortcut"@),
{
    reveal_strlit(".shortcut");
    reveal_strlit("shortcut");
    reveal_strlit("..");
    let name = a + ".shortcut"@;
    assert(name[a.len() as int] == '.');
    assert(name.contains('.'));
    assert(name.drop_first()[a.len() - 1] == '.');
    assert(name.drop_first().contains('.'));
    assert(name.len() != 2);
    assert(".shortcut"@ =~= seq!['.'] + "shortcut"@);
    assert(name =~= a + seq!['.'] + "shortcut"@);
    assert(!"shortcut"@.contains('.'));
    lemma_after_last_dot_suffix(a, "shortcut"@);
}

/// A name has the extension `shortcut` exactly when it is some nonempty text
/// followed by `.shortcut`.
pub proof fn lemma_shortcut_extension(name: Seq<char>)
    ensures
        path_extension(name) == Some("shortcut"@) <==> (name.len() > 9 && name.subrange(
            name.len() - 9,
            name.len() as int,
        ) == ".shortcut"@),
{
    reveal_strlit(".shortcut");
    reveal_strlit("shortcut");
    reveal_strlit("..");
    if name.len() > 9 && name.subrange(name.len() - 9, name.len() as int) == ".shortcut"@ {
        let a = name.subrange(0, name.len() - 9);
        assert(name =~= a + ".shortcut"@);
        lemma_shortcut_suffix_recognised(a);
    }
    if path_extension(name) == Some("shortcut"@) {
        lemma_after_last_dot_split(name);
        let pre = name.subrange(0, name.len() - 9);
        assert(name =~= pre + seq!['.'] + "shortcut"@);
        if pre.len() == 0 {
            assert(name[0] == '.');
            assert(name.drop_first() =~= "shortcut"@);
            assert(!"shortcut"@.contains('.'));
        }
        assert(name.subrange(name.len() - 9, name.len() as int) =~= ".shortcut"@);
    }
}

/// Whether a file in the shortcut directory is a shortcut: its extension is
/// `shortcut`, that is, it is a nonempty name followed by `.shortcut`.
pub fn is_shortcut_file_name(name: &str) -> (r: bool)
    ensures
        r == (path_extension(name@) == Some("shortcut"@)),
        r == (name@.len() > 9 && name@.subrange(name@.len() - 9, name@.len() as int)
            == ".shortcut"@),
{
    proof {
        lemma_shortcut_extension(name@);
    }
    if str_equals(name, "..") || !contains_char(name, '.') {
        return false;
    }
    let n = name.unicode_len();
    if name.get_char(0) == '.' {
        let rest = name.substring_char(1, n);
        proof {
            assert(rest@ =~= name@.drop_first());
        }
        if !contains_char(rest, '.') {
            return false;
        }
    }
    str_equals(extension_of(name), "shortcut")
}

/// Any three fields, the first two without `|`, written as
/// `name|command|icon` read back as those fields, provided the text does not
/// begin or end with whitespace that trimming would drop.
pub proof fn lemma_shortcut_reads_fields(name: Seq<char>, command: Seq<char>, icon: Seq<char>)
    requires
        !name.contains('|'),
        !command.contains('|'),
        name.len() > 0 ==> !unicode_white_space(name[0]),
        icon.len() > 0 ==> !unicode_white_space(icon.last()),
    ensures
        shortcut_fields(name + "|"@ + command + "|"@ + icon) == Some((name, command, icon)),
{
    reveal_strlit("|");
    let t = name + "|"@ + command + "|"@ + icon;
    assert(t =~= name + seq!['|'] + command + seq!['|'] + icon);
    assert(!unicode_white_space(t[0])) by {
        if name.len() > 0 {
            assert(t[0] == name[0]);
        } else {
            assert(t[0] == '|');
        }
    }
    assert(!unicode_white_space(t.last())) by {
        if icon.len() > 0 {
            assert(t.last() == icon.last());
        } else {
            assert(t.last() == '|');
        }
    }
    assert(trim_start(t) == t);
    assert(trim(t) == t);
    lemma_fields_of_joined(t, (name, command, icon));
}

/// A text with fewer than two `|` is no shortcut.
pub proof fn lemma_one_bar_is_no_shortcut(a: Seq<char>, b: Seq<char>)
    requires
        !a.contains('|'),
        !b.contains('|'),
    ensures
        shortcut_fields(a) is None,
        shortcut_fields(a + "|"@ + b) is None,
{
    reveal_strlit("|");
    lemma_trim_shape(a);
    let ta = trim(a);
    let (lo, hi) = choose|lo: int, hi: int|
        0 <= lo <= hi <= a.len() && trim(a) == a.subrange(lo, hi) && (forall|i: int|
            0 <= i < lo ==> unicode_white_space(#[trigger] a[i])) && (forall|i: int|
            hi <= i < a.len() ==> unicode_white_space(#[trigger] a[i])) && (lo < hi ==> (
        !unicode_white_space(a[lo]) && !unicode_white_space(a[hi - 1])));
    assert forall|p: int| 0 <= p < ta.len() implies ta[p] != '|' by {
        assert(ta[p] == a[lo + p]);
    }
    let c = a + "|"@ + b;
    lemma_trim_shape(c);
    let tc = trim(c);
    let (lo2, hi2) = choose|lo: int, hi: int|
        0 <= lo <= hi <= c.len() && trim(c) == c.subrange(lo, hi) && (forall|i: int|
            0 <= i < lo ==> unicode_white_space(#[trigger] c[i])) && (forall|i: int|
            hi <= i < c.len() ==> unicode_white_space(#[trigger] c[i])) && (lo < hi ==> (
        !unicode_white_space(c[lo]) && !unicode_white_space(c[hi - 1])));
    assert forall|p: int, q: int| 0 <= p < q < tc.len() && tc[p] == '|' implies tc[q] != '|' by {
        assert(tc[p] == c[lo2 + p]);
        assert(tc[q] == c[lo2 + q]);
        if lo2 + p < a.len() {
            assert(c[lo2 + p] == a[lo2 + p]);
        } else if lo2 + p > a.len() {
            assert(c[lo2 + p] == b[lo2 + p - a.len() - 1]);
        }
        if lo2 + q > a.len() {
            assert(c[lo2 + q] == b[lo2 + q - a.len() - 1]);
        }
    }
}

/// The desktop's icons begin with the built-in file manager, and there is at
/// most one more icon for each shortcut text.
pub proof fn lemma_icons_from_shape(contents: Seq<Seq<char>>)
    ensures
        icons_from(contents).len() >= 1,
        icons_from(contents).len() <= contents.len() + 1,
        icons_from(contents)[0] == ("XFM"@, "xfm"@, "📁"@),
    decreases contents.len(),
{
    if contents.len() > 0 {
        lemma_icons_from_shape(contents.drop_last());
    }
}

/// Whitespace around the text of a shortcut file, such as a final line
/// break, does not change what it reads as.
pub proof fn lemma_shortcut_ignores_surrounding_whitespace(
    w1: Seq<char>,
    content: Seq<char>,
    w2: Seq<char>,
)
    requires
        all_white_space(w1),
        all_white_space(w2),
    ensures
        shortcut_fields(w1 + content + w2) == shortcut_fields(content),
{
    lemma_trim_ignores_surrounding_whitespace(w1, content, w2);
}

} // verus!
