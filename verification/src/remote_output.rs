//! Reading what a remote server process printed before the protocol began.

use vstd::prelude::*;
use crate::remote::RemoteShell;
use crate::text::{chars_of, lossy_string, utf8_lossy};

verus! {

/// What `str::to_lowercase` makes of a text.
pub uninterp spec fn lowercase(s: Seq<char>) -> Seq<char>;

/// A text in lower case (`str::to_lowercase`).
#[verifier::external_body]
fn to_lowercase(s: &str) -> (r: String)
    ensures
        r@ == lowercase(s@),
{
    s.to_lowercase()
}

/// Whether `str::trim` removes a character: Unicode White_Space, as
/// `char::is_whitespace` reads it.
pub open spec fn white_space(c: char) -> bool {
    ||| '\u{9}' <= c <= '\u{d}'
    ||| c == ' '
    ||| c == '\u{85}'
    ||| c == '\u{a0}'
    ||| c == '\u{1680}'
    ||| '\u{2000}' <= c <= '\u{200a}'
    ||| c == '\u{2028}'
    ||| c == '\u{2029}'
    ||| c == '\u{202f}'
    ||| c == '\u{205f}'
    ||| c == '\u{3000}'
}

/// A text without its leading white space.
pub open spec fn trim_start(s: Seq<char>) -> Seq<char>
    decreases s.len(),
{
    if s.len() > 0 && white_space(s[0]) {
        trim_start(s.drop_first())
    } else {
        s
    }
}

/// A text without its trailing white space.
pub open spec fn trim_end(s: Seq<char>) -> Seq<char>
    decreases s.len(),
{
    if s.len() > 0 && white_space(s.last()) {
        trim_end(s.drop_last())
    } else {
        s
    }
}

/// What `str::trim` makes of a text: the text without leading and trailing
/// white space.
pub open spec fn trimmed(s: Seq<char>) -> Seq<char> {
    trim_end(trim_start(s))
}

fn is_white_space(c: char) -> (r: bool)
    ensures
        r == white_space(c),
{
    ('\u{9}' <= c && c <= '\u{d}') || c == ' ' || c == '\u{85}' || c == '\u{a0}' || c == '\u{1680}'
        || ('\u{2000}' <= c && c <= '\u{200a}') || c == '\u{2028}' || c == '\u{2029}' || c == '\u{202f}'
        || c == '\u{205f}' || c == '\u{3000}'
}

/// Where the trimmed text lies: `trimmed(v) == v[start..end]`.
fn trim_bounds(v: &Vec<char>) -> (r: (usize, usize))
    ensures
        r.0 <= r.1 <= v@.len(),
        v@.subrange(r.0 as int, r.1 as int) == trimmed(v@),
{
    let n = v.len();
    let mut start: usize = 0;
    assert(v@.skip(0) =~= v@);
    while start < n && is_white_space(v[start])
        invariant
            n == v@.len(),
            start <= n,
            trim_start(v@) == trim_start(v@.skip(start as int)),
        decreases n - start,
    {
        assert(v@.skip(start as int).drop_first() =~= v@.skip(start as int + 1));
        start = start + 1;
    }
    let ghost rest = v@.skip(start as int);
    assert(trim_start(v@) == rest);
    let mut end: usize = n;
    while end > start && is_white_space(v[end - 1])
        invariant
            n == v@.len(),
            start <= end <= n,
            rest == v@.skip(start as int),
            trim_end(rest) == trim_end(v@.subrange(start as int, end as int)),
        decreases end,
    {
        assert(v@.subrange(start as int, end as int).drop_last() =~= v@.subrange(start as int, end as int - 1));
        end = end - 1;
    }
    assert(rest =~= v@.subrange(start as int, n as int));
    (start, end)
}

/// Whether `needle` occurs in `hay`.
pub open spec fn contains_text(hay: Seq<char>, needle: Seq<char>) -> bool {
    exists|i: int| 0 <= i && i + needle.len() <= hay.len() && #[trigger] hay.subrange(i, i + needle.len()) == needle
}

fn find_text(hay: &Vec<char>, needle: &Vec<char>) -> (r: bool)
    ensures
        r == contains_text(hay@, needle@),
{
    if needle.len() > hay.len() {
        return false;
    }
    if needle.len() == 0 {
        assert(hay@.subrange(0int, 0int + needle@.len()) =~= needle@);
        return true;
    }
    let last = hay.len() - needle.len();
    let mut i: usize = 0;
    while i <= last
        invariant
            last == hay@.len() - needle@.len(),
            0 < needle@.len() <= hay@.len(),
            i <= last + 1,
            forall|k: int| 0 <= k < i ==> #[trigger] hay@.subrange(k, k + needle@.len()) != needle@,
        decreases last + 1 - i,
    {
        let mut j: usize = 0;
        let mut same = true;
        while j < needle.len()
            invariant
                needle@.len() <= hay@.len(),
                hay@.len() == hay.len(),
                i <= hay@.len() - needle@.len(),
                j <= needle@.len(),
                same <==> forall|m: int| 0 <= m < j ==> hay@[i + m] == needle@[m],
            decreases needle.len() - j,
        {
            if hay[i + j] != needle[j] {
                same = false;
            }
            j = j + 1;
        }
        if same {
            assert(hay@.subrange(i as int, i + needle@.len()) =~= needle@);
            return true;
        }
        proof {
            if hay@.subrange(i as int, i + needle@.len()) == needle@ {
                assert forall|m: int| 0 <= m < needle@.len() implies hay@[i + m] == needle@[m] by {
                    assert(hay@.subrange(i as int, i + needle@.len())[m] == hay@[i + m]);
                }
            }
        }
        i = i + 1;
    }
    proof {
        assert forall|k: int| 0 <= k && k + needle@.len() <= hay@.len() implies #[trigger] hay@.subrange(k, k + needle@.len()) != needle@ by {
            assert(k < i);
        }
    }
    false
}

/// Whether a stderr line is a structured record: after trimming, it starts
/// with `{` and ends with `}`.
pub fn is_json_object(line: &str) -> (r: bool)
    ensures
        r <==> trimmed(line@).len() > 0 && trimmed(line@)[0] == '{' && trimmed(line@).last() == '}',
{
    let chars = chars_of(line);
    let (start, end) = trim_bounds(&chars);
    end > start && chars[start] == '{' && chars[end - 1] == '}'
}

/// Whether a failed server launch means the remote has no `xs`: cmd.exe's
/// "not recognized" code (matched on the code alone, since cmd localises the
/// message), a shell's "command not found", or exit 127 with `xs` named.
pub fn is_missing_xsync_stderr(stderr: &str, exit_code: Option<i32>) -> (r: bool)
    ensures
        r <==> exit_code == Some(9009i32)
            || contains_text(lowercase(stderr@), "xs: command not found"@)
            || contains_text(lowercase(stderr@), "xs: not found"@)
            || (exit_code == Some(127i32) && contains_text(lowercase(stderr@), "xs"@)),
{
    let lower = to_lowercase(stderr);
    let hay = chars_of(lower.as_str());
    if exit_code == Some(9009i32) {
        return true;
    }
    let a = chars_of("xs: command not found");
    let b = chars_of("xs: not found");
    let c = chars_of("xs");
    find_text(&hay, &a) || find_text(&hay, &b) || (exit_code == Some(127i32) && find_text(&hay, &c))
}

/// The text a shell probe makes the remote print.
pub open spec fn shell_marker() -> Seq<char> {
    "XSYNCSHELLOK"@
}

/// The commands that tell a remote shell's family, in the order they are
/// tried: the POSIX form first, because it cannot run under cmd.exe, while
/// cmd's form would also succeed under a POSIX shell and so cannot tell the
/// two apart on its own. The first whose output holds the marker names the
/// family.
pub fn shell_probes() -> (r: Vec<(RemoteShell, &'static str)>)
    ensures
        r@.len() == 2,
        r@[0].0 == RemoteShell::Posix && r@[0].1@ == "printf '"@ + shell_marker() + "\n'"@,
        r@[1].0 == RemoteShell::Windows && r@[1].1@ == "echo "@ + shell_marker(),
{
    let mut probes = Vec::new();
    probes.push((RemoteShell::Posix, "printf 'XSYNCSHELLOK\n'"));
    probes.push((RemoteShell::Windows, "echo XSYNCSHELLOK"));
    proof {
        reveal_strlit("printf 'XSYNCSHELLOK\n'");
        reveal_strlit("printf '");
        reveal_strlit("\n'");
        reveal_strlit("XSYNCSHELLOK");
        reveal_strlit("echo XSYNCSHELLOK");
        reveal_strlit("echo ");
    }
    probes
}

/// Whether a shell probe got through: what the remote printed, invalid
/// UTF-8 replaced, holds the marker.
pub fn shell_probe_answered(stdout: &[u8]) -> (r: bool)
    ensures
        r == contains_text(utf8_lossy(stdout@), shell_marker()),
{
    let text = lossy_string(stdout);
    let hay = chars_of(text.as_str());
    let marker = chars_of("XSYNCSHELLOK");
    find_text(&hay, &marker)
}

} // verus!
