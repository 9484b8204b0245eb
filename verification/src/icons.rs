//! Icons for downloaded files, chosen by file extension.

use vstd::prelude::*;
use vstd::string::StrSliceExecFns;
use crate::text::{str_equals, unicode_white_space};
use crate::shortcut::lemma_after_last_dot_suffix;

verus! {

/// What follows the last `.` of `s`; all of `s` when it holds no `.`
/// (the first item that `str::rsplit('.')` yields).
pub open spec fn after_last_dot(s: Seq<char>) -> Seq<char>
    decreases s.len(),
{
    if s.len() == 0 {
        s
    } else if s.last() == '.' {
        Seq::empty()
    } else {
        after_last_dot(s.drop_last()).push(s.last())
    }
}

/// `c` with an ASCII capital letter made small.
pub open spec fn ascii_lower_char(c: char) -> char {
    if 65 <= (c as u32) && (c as u32) <= 90 {
        ((c as u32) + 32) as char
    } else {
        c
    }
}

/// `c` with an ASCII small letter made capital.
pub open spec fn ascii_upper_char(c: char) -> char {
    if 97 <= (c as u32) && (c as u32) <= 122 {
        ((c as u32) - 32) as char
    } else {
        c
    }
}

/// `s` with its ASCII letters made small, every other character kept.
pub open spec fn ascii_lowercase(s: Seq<char>) -> Seq<char> {
    s.map_values(|c: char| ascii_lower_char(c))
}

/// `s` with its ASCII letters made capital, every other character kept.
pub open spec fn ascii_uppercase(s: Seq<char>) -> Seq<char> {
    s.map_values(|c: char| ascii_upper_char(c))
}

/// Every character of `s` is ASCII.
pub open spec fn all_ascii(s: Seq<char>) -> bool {
    forall|i: int| 0 <= i < s.len() ==> (s[i] as u32) < 128
}

/// What `str::to_lowercase` makes of a string whose ASCII letters are already
/// small (the Unicode `Lowercase` mapping, with its rule for a final sigma).
pub uninterp spec fn unicode_lowercase_folded(s: Seq<char>) -> Seq<char>;

/// The lowercase form of a string as `str::to_lowercase` computes it: an ASCII
/// string has its capital letters made small and keeps every other
/// character; in any string, the ASCII case of a letter does not change the
/// result, since `A`-`Z` map to `a`-`z` and both are cased letters for the
/// final-sigma rule.
pub open spec fn unicode_lowercase(s: Seq<char>) -> Seq<char> {
    if all_ascii(s) {
        ascii_lowercase(s)
    } else {
        unicode_lowercase_folded(ascii_lowercase(s))
    }
}

/// `str::to_lowercase` from std. The contract states the ASCII part of the
/// mapping (small letters for capitals, other ASCII kept, ASCII case never
/// mattering); the Unicode case tables beyond ASCII are only named.
#[verifier::external_body]
fn to_lowercase(s: &str) -> (r: String)
    ensures
        r@ == (if all_ascii(s@) {
            ascii_lowercase(s@)
        } else {
            unicode_lowercase_folded(ascii_lowercase(s@))
        }),
{
    s.to_lowercase()
}

/// The icon shown for an (already lowercased) file extension.
pub open spec fn icon_for(ext: Seq<char>) -> Seq<char> {
    if ext == "pdf"@ {
        "📕"@
    } else if ext == "zip"@ || ext == "tar"@ || ext == "gz"@ || ext == "xz"@ {
        "📦"@
    } else if ext == "mp3"@ || ext == "ogg"@ || ext == "wav"@ {
        "🎵"@
    } else if ext == "mp4"@ || ext == "mkv"@ || ext == "avi"@ {
        "🎬"@
    } else if ext == "jpg"@ || ext == "jpeg"@ || ext == "png"@ || ext == "gif"@ {
        "🖼"@
    } else if ext == "deb"@ || ext == "rpm"@ || ext == "AppImage"@ {
        "⚙"@
    } else {
        "📄"@
    }
}

/// Every icon is a single symbol that is neither whitespace nor `|`.
pub proof fn lemma_icon_is_symbol(ext: Seq<char>)
    ensures
        icon_for(ext).len() == 1,
        !unicode_white_space(icon_for(ext)[0]),
        icon_for(ext)[0] != '|',
{
    reveal_strlit("📕");
    reveal_strlit("📦");
    reveal_strlit("🎵");
    reveal_strlit("🎬");
    reveal_strlit("🖼");
    reveal_strlit("⚙");
    reveal_strlit("📄");
}

/// Mapping the characters of a name one by one, with `.` kept and nothing
/// else made a `.`, maps its extension the same way.
proof fn lemma_after_last_dot_map(s: Seq<char>, upper: bool)
    ensures
        upper ==> after_last_dot(ascii_uppercase(s)) == ascii_uppercase(after_last_dot(s)),
        !upper ==> after_last_dot(ascii_lowercase(s)) == ascii_lowercase(after_last_dot(s)),
    decreases s.len(),
{
    if s.len() > 0 {
        lemma_after_last_dot_map(s.drop_last(), upper);
        let c = s.last();
        if upper {
            let t = ascii_uppercase(s);
            assert(t.drop_last() =~= ascii_uppercase(s.drop_last()));
            assert(t.last() == ascii_upper_char(c));
            lemma_case_chars(c);
            if c != '.' {
                assert(ascii_uppercase(after_last_dot(s.drop_last()).push(c)) =~= ascii_uppercase(
                    after_last_dot(s.drop_last()),
                ).push(ascii_upper_char(c)));
            } else {
                assert(ascii_uppercase(Seq::<char>::empty()) =~= Seq::<char>::empty());
            }
        } else {
            let t = ascii_lowercase(s);
            assert(t.drop_last() =~= ascii_lowercase(s.drop_last()));
            assert(t.last() == ascii_lower_char(c));
            lemma_case_chars(c);
            if c != '.' {
                assert(ascii_lowercase(after_last_dot(s.drop_last()).push(c)) =~= ascii_lowercase(
                    after_last_dot(s.drop_last()),
                ).push(ascii_lower_char(c)));
            } else {
                assert(ascii_lowercase(Seq::<char>::empty()) =~= Seq::<char>::empty());
            }
        }
    } else {
        assert(ascii_uppercase(s) =~= s);
        assert(ascii_lowercase(s) =~= s);
    }
}

/// Facts on the ASCII case of one character.
proof fn lemma_case_chars(c: char)
    ensures
        ascii_lower_char(ascii_upper_char(c)) == ascii_lower_char(c),
        ascii_lower_char(ascii_lower_char(c)) == ascii_lower_char(c),
        (ascii_upper_char(c) as u32) < 128 <==> (c as u32) < 128,
        (ascii_lower_char(c) as u32) < 128 <==> (c as u32) < 128,
        ascii_upper_char(c) == '.' <==> c == '.',
        ascii_lower_char(c) == '.' <==> c == '.',
{
    let u = c as u32;
    if 97 <= u && u <= 122 {
        assert(((u - 32) as char) as u32 == u - 32);
        assert(((u - 32 + 32) as char) == c);
    }
    if 65 <= u && u <= 90 {
        assert(((u + 32) as char) as u32 == u + 32);
    }
}

/// Whether a file name is written in capitals or small ASCII letters never
/// changes its icon.
pub proof fn lemma_icon_ignores_ascii_case(filename: Seq<char>)
    ensures
        icon_for_file(ascii_uppercase(filename)) == icon_for_file(filename),
        icon_for_file(ascii_lowercase(filename)) == icon_for_file(filename),
{
    lemma_after_last_dot_map(filename, true);
    lemma_after_last_dot_map(filename, false);
    let e = after_last_dot(filename);
    let eu = ascii_uppercase(e);
    let el = ascii_lowercase(e);
    assert forall|i: int| 0 <= i < e.len() implies ascii_lower_char(eu[i]) == ascii_lower_char(e[i])
        && ascii_lower_char(el[i]) == ascii_lower_char(e[i]) && ((eu[i] as u32) < 128 <==> (
        e[i] as u32) < 128) && ((el[i] as u32) < 128 <==> (e[i] as u32) < 128) by {
        lemma_case_chars(e[i]);
    }
    assert(ascii_lowercase(eu) =~= ascii_lowercase(e));
    assert(ascii_lowercase(el) =~= ascii_lowercase(e));
    assert(all_ascii(eu) == all_ascii(e));
    assert(all_ascii(el) == all_ascii(e));
}

/// The icon for a file name: its extension is what follows the last `.`,
/// lowercased.
pub open spec fn icon_for_file(filename: Seq<char>) -> Seq<char> {
    icon_for(unicode_lowercase(after_last_dot(filename)))
}

/// The part of `s` after its last `.` (all of `s` without a `.`).
pub fn extension_of(s: &str) -> (r: &str)
    ensures
        r@ == after_last_dot(s@),
{
    let n = s.unicode_len();
    let mut j: usize = n;
    proof {
        assert(s@.subrange(0, n as int) =~= s@);
        assert(s@.subrange(n as int, n as int) =~= Seq::<char>::empty());
    }
    while j > 0 && s.get_char(j - 1) != '.'
        invariant
            n == s@.len(),
            j <= n,
            after_last_dot(s@) == after_last_dot(s@.subrange(0, j as int)) + s@.subrange(
                j as int,
                n as int,
            ),
        decreases j,
    {
        proof {
            let t = s@.subrange(0, j as int);
            assert(t.drop_last() =~= s@.subrange(0, j - 1));
            assert(s@.subrange(j - 1, n as int) =~= seq![t.last()] + s@.subrange(j as int, n as int));
            assert(after_last_dot(t) == after_last_dot(t.drop_last()).push(t.last()));
            assert(after_last_dot(t.drop_last()).push(t.last()) + s@.subrange(j as int, n as int)
                =~= after_last_dot(t.drop_last()) + s@.subrange(j - 1, n as int));
        }
        j = j - 1;
    }
    proof {
        if j == 0 {
            assert(s@.subrange(0, 0) =~= Seq::<char>::empty());
            assert(after_last_dot(s@) =~= s@.subrange(0, n as int));
        } else {
            assert(after_last_dot(s@.subrange(0, j as int)) =~= Seq::<char>::empty());
            assert(after_last_dot(s@) =~= s@.subrange(j as int, n as int));
        }
    }
    s.substring_char(j, n)
}

/// The icon for a lowercased extension: documents, archives, audio, video,
/// images and packages each have their own; anything else gets a page.
pub fn icon_for_extension(ext: &str) -> (r: &'static str)
    ensures
        r@ == icon_for(ext@),
{
    if str_equals(ext, "pdf") {
        "📕"
    } else if str_equals(ext, "zip") || str_equals(ext, "tar") || str_equals(ext, "gz")
        || str_equals(ext, "xz") {
        "📦"
    } else if str_equals(ext, "mp3") || str_equals(ext, "ogg") || str_equals(ext, "wav") {
        "🎵"
    } else if str_equals(ext, "mp4") || str_equals(ext, "mkv") || str_equals(ext, "avi") {
        "🎬"
    } else if str_equals(ext, "jpg") || str_equals(ext, "jpeg") || str_equals(ext, "png")
        || str_equals(ext, "gif") {
        "🖼"
    } else if str_equals(ext, "deb") || str_equals(ext, "rpm") || str_equals(ext, "AppImage") {
        "⚙"
    } else {
        "📄"
    }
}

/// Guesses an icon for a downloaded file from its name: the text after the
/// last `.`, lowercased, chooses the icon.
pub fn guess_icon(filename: &str) -> (r: &'static str)
    ensures
        r@ == icon_for_file(filename@),
{
    let ext = to_lowercase(extension_of(filename));
    icon_for_extension(ext.as_str())
}

/// A word of small ASCII letters and digits is its own lowercase form and
/// holds no `.`.
proof fn lemma_plain_word(w: Seq<char>)
    requires
        forall|i: int|
            0 <= i < w.len() ==> (97 <= (#[trigger] w[i] as u32) <= 122 || 48 <= (w[i] as u32) <= 57),
    ensures
        all_ascii(w),
        ascii_lowercase(w) == w,
        !w.contains('.'),
{
    assert(ascii_lowercase(w) =~= w);
}

/// A file name ending in `.` and a plain lowercase word gets that word's icon.
proof fn lemma_icon_of_suffix(f: Seq<char>, dotted: Seq<char>, ext: Seq<char>)
    requires
        dotted == seq!['.'] + ext,
        forall|i: int|
            0 <= i < ext.len() ==> (97 <= (#[trigger] ext[i] as u32) <= 122 || 48 <= (ext[i] as u32)
                <= 57),
    ensures
        icon_for_file(f + dotted) == icon_for(ext),
{
    lemma_plain_word(ext);
    assert(f + dotted =~= f + seq!['.'] + ext);
    lemma_after_last_dot_suffix(f, ext);
}

/// The icon of a file is fixed by the extension after its last `.`: `pdf`
/// gets a book; `zip`, `tar`, `gz`, `xz` a package; `mp3`, `ogg`, `wav` a
/// note; `mp4`, `mkv`, `avi` a clapper; `jpg`, `jpeg`, `png`, `gif` a
/// picture; `deb`, `rpm` a gear; any other, such as `txt`, a page — whatever
/// comes before the extension.
pub proof fn lemma_icon_table(f: Seq<char>)
    ensures
        icon_for_file(f + ".pdf"@) == "📕"@,
        icon_for_file(f + ".zip"@) == "📦"@,
        icon_for_file(f + ".tar"@) == "📦"@,
        icon_for_file(f + ".gz"@) == "📦"@,
        icon_for_file(f + ".xz"@) == "📦"@,
        icon_for_file(f + ".mp3"@) == "🎵"@,
        icon_for_file(f + ".ogg"@) == "🎵"@,
        icon_for_file(f + ".wav"@) == "🎵"@,
        icon_for_file(f + ".mp4"@) == "🎬"@,
        icon_for_file(f + ".mkv"@) == "🎬"@,
        icon_for_file(f + ".avi"@) == "🎬"@,
        icon_for_file(f + ".jpg"@) == "🖼"@,
        icon_for_file(f + ".jpeg"@) == "🖼"@,
        icon_for_file(f + ".png"@) == "🖼"@,
        icon_for_file(f + ".gif"@) == "🖼"@,
        icon_for_file(f + ".deb"@) == "⚙"@,
        icon_for_file(f + ".rpm"@) == "⚙"@,
        icon_for_file(f + ".txt"@) == "📄"@,
        icon_for("AppImage"@) == "⚙"@,
        icon_for("PDF"@) == "📄"@,
{
    reveal_strlit("PDF");
    reveal_strlit("pdf");
    reveal_strlit("zip");
    reveal_strlit("tar");
    reveal_strlit("gz");
    reveal_strlit("xz");
    reveal_strlit("mp3");
    reveal_strlit("ogg");
    reveal_strlit("wav");
    reveal_strlit("mp4");
    reveal_strlit("mkv");
    reveal_strlit("avi");
    reveal_strlit("jpg");
    reveal_strlit("jpeg");
    reveal_strlit("png");
    reveal_strlit("gif");
    reveal_strlit("deb");
    reveal_strlit("rpm");
    reveal_strlit("AppImage");
    reveal_strlit("txt");
    reveal_strlit(".pdf");
    reveal_strlit(".zip");
    reveal_strlit(".tar");
    reveal_strlit(".gz");
    reveal_strlit(".xz");
    reveal_strlit(".mp3");
    reveal_strlit(".ogg");
    reveal_strlit(".wav");
    reveal_strlit(".mp4");
    reveal_strlit(".mkv");
    reveal_strlit(".avi");
    reveal_strlit(".jpg");
    reveal_strlit(".jpeg");
    reveal_strlit(".png");
    reveal_strlit(".gif");
    reveal_strlit(".deb");
    reveal_strlit(".rpm");
    reveal_strlit(".txt");
    assert(".pdf"@ =~= seq!['.'] + "pdf"@);
    lemma_icon_of_suffix(f, ".pdf"@, "pdf"@);
    assert(".zip"@ =~= seq!['.'] + "zip"@);
    lemma_icon_of_suffix(f, ".zip"@, "zip"@);
    assert(".tar"@ =~= seq!['.'] + "tar"@);
    lemma_icon_of_suffix(f, ".tar"@, "tar"@);
    assert(".gz"@ =~= seq!['.'] + "gz"@);
    lemma_icon_of_suffix(f, ".gz"@, "gz"@);
    assert(".xz"@ =~= seq!['.'] + "xz"@);
    lemma_icon_of_suffix(f, ".xz"@, "xz"@);
    assert(".mp3"@ =~= seq!['.'] + "mp3"@);
    lemma_icon_of_suffix(f, ".mp3"@, "mp3"@);
    assert(".ogg"@ =~= seq!['.'] + "ogg"@);
    lemma_icon_of_suffix(f, ".ogg"@, "ogg"@);
    assert(".wav"@ =~= seq!['.'] + "wav"@);
    lemma_icon_of_suffix(f, ".wav"@, "wav"@);
    assert(".mp4"@ =~= seq!['.'] + "mp4"@);
    lemma_icon_of_suffix(f, ".mp4"@, "mp4"@);
    assert("mp4"@[2] != "mp3"@[2]);
    assert(icon_for("mp4"@) == "🎬"@);
    assert(".mkv"@ =~= seq!['.'] + "mkv"@);
    lemma_icon_of_suffix(f, ".mkv"@, "mkv"@);
    assert("mkv"@[1] != "mp3"@[1]);
    assert("mkv"@[1] != "mp4"@[1]);
    assert(icon_for("mkv"@) == "🎬"@);
    assert(".avi"@ =~= seq!['.'] + "avi"@);
    lemma_icon_of_suffix(f, ".avi"@, "avi"@);
    assert("avi"@[0] != "AppImage"@[0]);
    assert("avi"@[1] != "mp4"@[1]);
    assert(icon_for("avi"@) == "🎬"@);
    assert(".jpg"@ =~= seq!['.'] + "jpg"@);
    lemma_icon_of_suffix(f, ".jpg"@, "jpg"@);
    assert("jpg"@[0] != "pdf"@[0]);
    assert("jpg"@[0] != "mkv"@[0]);
    assert(icon_for("jpg"@) == "🖼"@);
    assert(".jpeg"@ =~= seq!['.'] + "jpeg"@);
    lemma_icon_of_suffix(f, ".jpeg"@, "jpeg"@);
    assert(".png"@ =~= seq!['.'] + "png"@);
    lemma_icon_of_suffix(f, ".png"@, "png"@);
    assert("png"@[1] != "pdf"@[1]);
    assert(icon_for("png"@) == "🖼"@);
    assert(".gif"@ =~= seq!['.'] + "gif"@);
    lemma_icon_of_suffix(f, ".gif"@, "gif"@);
    assert(".deb"@ =~= seq!['.'] + "deb"@);
    lemma_icon_of_suffix(f, ".deb"@, "deb"@);
    assert(".rpm"@ =~= seq!['.'] + "rpm"@);
    lemma_icon_of_suffix(f, ".rpm"@, "rpm"@);
    assert(".txt"@ =~= seq!['.'] + "txt"@);
    lemma_icon_of_suffix(f, ".txt"@, "txt"@);
}

} // verus!
