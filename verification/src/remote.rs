//! How the remote `xs --server` is reached: the remote shell's command
//! string, quoted for the shell family that will parse it, and what this
//! process has learned about each remote.

use vstd::prelude::*;
use crate::error::ServerError;
use crate::text::{chars_of, push_char, push_str, string_from_chars, utf8_lossy};
use crate::remote_output::{contains_text, shell_marker, shell_probe_answered, shell_probes};

verus! {

/// Which shell the remote `sshd` hands the command string to.
#[derive(Debug, Clone, Copy, PartialEq, Eq, Structural)]
pub enum RemoteShell {
    /// A POSIX shell: `sh`, `bash`, `zsh`. The default everywhere but Windows.
    Posix,
    /// Windows `cmd.exe`, the stock OpenSSH-for-Windows default shell.
    Windows,
}

impl RemoteShell {
    /// The family to assume for a remote nothing has been learned about.
    pub fn default_shell() -> (r: RemoteShell)
        ensures
            r == RemoteShell::Posix,
    {
        RemoteShell::Posix
    }
}

/// How one character is written inside a POSIX single-quoted word: a quote
/// closes the word, is escaped, and reopens it.
pub open spec fn posix_piece(c: char) -> Seq<char> {
    if c == '\'' {
        seq!['\'', '\\', '\'', '\'']
    } else {
        seq![c]
    }
}

/// The characters of `s` as they appear between POSIX single quotes.
pub open spec fn posix_escaped(s: Seq<char>) -> Seq<char>
    decreases s.len(),
{
    if s.len() == 0 {
        seq![]
    } else {
        posix_escaped(s.drop_last()) + posix_piece(s.last())
    }
}

/// One POSIX shell word that stands for exactly `s`.
pub open spec fn posix_quoted(s: Seq<char>) -> Seq<char> {
    seq!['\''] + posix_escaped(s) + seq!['\'']
}

fn push_posix_escaped(out: &mut String, chars: &Vec<char>, from: usize)
    requires
        from <= chars@.len(),
    ensures
        final(out)@ == old(out)@ + posix_escaped(chars@.skip(from as int)),
{
    let ghost start = out@;
    let ghost s = chars@.skip(from as int);
    let mut i = from;
    while i < chars.len()
        invariant
            from <= i <= chars@.len(),
            s == chars@.skip(from as int),
            out@ == start + posix_escaped(s.take(i - from)),
        decreases chars@.len() - i,
    {
        let c = chars[i];
        assert(s.take(i + 1 - from).drop_last() =~= s.take(i - from));
        assert(s.take(i + 1 - from).last() == c);
        if c == '\'' {
            push_char(out, '\'');
            push_char(out, '\\');
            push_char(out, '\'');
            push_char(out, '\'');
            assert(out@ =~= start + posix_escaped(s.take(i + 1 - from)));
        } else {
            push_char(out, c);
            assert(out@ =~= start + posix_escaped(s.take(i + 1 - from)));
        }
        i = i + 1;
    }
    assert(s.take(chars@.len() - from) =~= s);
}

/// Quote one argument as a single POSIX shell word.
pub fn quote_remote_arg(argument: &str) -> (r: String)
    ensures
        r@ == posix_quoted(argument@),
{
    let chars = chars_of(argument);
    let mut out = String::new();
    push_char(&mut out, '\'');
    push_posix_escaped(&mut out, &chars, 0);
    assert(chars@.skip(0) =~= chars@);
    push_char(&mut out, '\'');
    assert(out@ =~= posix_quoted(argument@));
    out
}

/// The characters of `"$HOME"`, which a remote POSIX shell expands.
pub open spec fn home_word() -> Seq<char> {
    seq!['"', '$', 'H', 'O', 'M', 'E', '"']
}

/// `s` starts with `$HOME/`.
pub open spec fn has_home_prefix(s: Seq<char>) -> bool {
    s.len() >= 6 && s.take(6) == seq!['$', 'H', 'O', 'M', 'E', '/']
}

/// `s` starts with `~/`.
pub open spec fn has_tilde_prefix(s: Seq<char>) -> bool {
    s.len() >= 2 && s[0] == '~' && s[1] == '/'
}

/// A program name as one POSIX word, keeping a leading `$HOME/` expandable.
pub open spec fn posix_program(s: Seq<char>) -> Seq<char> {
    if has_home_prefix(s) {
        home_word() + seq!['/'] + posix_quoted(s.skip(6))
    } else {
        posix_quoted(s)
    }
}

/// A remote path as one POSIX word, keeping a leading `~` expandable.
pub open spec fn posix_path(s: Seq<char>) -> Seq<char> {
    if s == seq!['~'] {
        home_word()
    } else if has_tilde_prefix(s) {
        home_word() + seq!['/'] + posix_quoted(s.skip(2))
    } else {
        posix_quoted(s)
    }
}

fn push_home_then_quoted(out: &mut String, chars: &Vec<char>, from: usize)
    requires
        from <= chars@.len(),
    ensures
        final(out)@ == old(out)@ + home_word() + seq!['/'] + posix_quoted(chars@.skip(from as int)),
{
    let ghost start = out@;
    push_char(out, '"');
    push_char(out, '$');
    push_char(out, 'H');
    push_char(out, 'O');
    push_char(out, 'M');
    push_char(out, 'E');
    push_char(out, '"');
    push_char(out, '/');
    push_char(out, '\'');
    push_posix_escaped(out, chars, from);
    push_char(out, '\'');
    assert(out@ =~= start + home_word() + seq!['/'] + posix_quoted(chars@.skip(from as int)));
}

fn home_prefixed(chars: &Vec<char>) -> (r: bool)
    ensures
        r == has_home_prefix(chars@),
{
    let r = chars.len() >= 6 && chars[0] == '$' && chars[1] == 'H' && chars[2] == 'O' && chars[3] == 'M'
        && chars[4] == 'E' && chars[5] == '/';
    proof {
        if chars@.len() >= 6 {
            if r {
                assert(chars@.take(6) =~= seq!['$', 'H', 'O', 'M', 'E', '/']);
            } else {
                let t = chars@.take(6);
                if t == seq!['$', 'H', 'O', 'M', 'E', '/'] {
                    assert(t[0] == chars@[0] && t[1] == chars@[1] && t[2] == chars@[2]);
                    assert(t[3] == chars@[3] && t[4] == chars@[4] && t[5] == chars@[5]);
                }
            }
        }
    }
    r
}

/// How a POSIX shell is reading a word: outside quotes, inside single
/// quotes, or inside double quotes.
#[derive(Debug, Clone, Copy, PartialEq, Eq, Structural)]
pub enum QuoteState {
    Bare,
    Single,
    Double,
}

/// Whether `c` may continue a shell variable's name.
pub open spec fn name_char(c: char) -> bool {
    ('a' <= c && c <= 'z') || ('A' <= c && c <= 'Z') || ('0' <= c && c <= '9') || c == '_'
}

/// Whether `w` starts with the expansion `$HOME`, not followed by more of a
/// variable's name.
pub open spec fn starts_with_home(w: Seq<char>) -> bool {
    w.len() >= 5 && w.take(5) == seq!['$', 'H', 'O', 'M', 'E'] && (w.len() == 5 || !name_char(w[5]))
}

/// The text a POSIX shell makes of the word `w`, read from `state` on, when
/// `HOME` is `home`: single quotes keep everything up to the next single
/// quote; double quotes keep everything up to the next double quote but
/// expand `$HOME`; outside quotes a backslash keeps the next character and
/// `$HOME` expands.
pub open spec fn shell_text(w: Seq<char>, home: Seq<char>, state: QuoteState) -> Seq<char>
    decreases w.len(),
{
    if w.len() == 0 {
        seq![]
    } else {
        match state {
            QuoteState::Single => if w[0] == '\'' {
                shell_text(w.drop_first(), home, QuoteState::Bare)
            } else {
                seq![w[0]] + shell_text(w.drop_first(), home, QuoteState::Single)
            },
            QuoteState::Double => if w[0] == '"' {
                shell_text(w.drop_first(), home, QuoteState::Bare)
            } else if starts_with_home(w) {
                home + shell_text(w.skip(5), home, QuoteState::Double)
            } else {
                seq![w[0]] + shell_text(w.drop_first(), home, QuoteState::Double)
            },
            QuoteState::Bare => if w[0] == '\'' {
                shell_text(w.drop_first(), home, QuoteState::Single)
            } else if w[0] == '"' {
                shell_text(w.drop_first(), home, QuoteState::Double)
            } else if w[0] == '\\' && w.len() >= 2 {
                seq![w[1]] + shell_text(w.skip(2), home, QuoteState::Bare)
            } else if starts_with_home(w) {
                home + shell_text(w.skip(5), home, QuoteState::Bare)
            } else {
                seq![w[0]] + shell_text(w.drop_first(), home, QuoteState::Bare)
            },
        }
    }
}

proof fn lemma_escaped_front(c: char, s: Seq<char>)
    ensures
        posix_escaped(seq![c] + s) == posix_piece(c) + posix_escaped(s),
    decreases s.len(),
{
    let x = seq![c] + s;
    if s.len() == 0 {
        assert(x.drop_last() =~= Seq::<char>::empty());
        assert(posix_escaped(x.drop_last()) =~= Seq::<char>::empty());
        assert(posix_escaped(x) =~= posix_piece(c));
    } else {
        lemma_escaped_front(c, s.drop_last());
        assert(x.drop_last() =~= seq![c] + s.drop_last());
        assert(x.last() == s.last());
        assert(posix_escaped(x) =~= posix_piece(c) + posix_escaped(s.drop_last()) + posix_piece(s.last()));
        assert(posix_escaped(s) == posix_escaped(s.drop_last()) + posix_piece(s.last()));
        assert(posix_escaped(x) =~= posix_piece(c) + posix_escaped(s));
    }
}

proof fn lemma_single_quoted(s: Seq<char>, tail: Seq<char>, home: Seq<char>)
    ensures
        shell_text(posix_escaped(s) + seq!['\''] + tail, home, QuoteState::Single) == s + shell_text(
            tail,
            home,
            QuoteState::Bare,
        ),
    decreases s.len(),
{
    if s.len() == 0 {
        assert(posix_escaped(s) =~= Seq::<char>::empty());
        let w = posix_escaped(s) + seq!['\''] + tail;
        assert(w =~= seq!['\''] + tail);
        assert(w.drop_first() =~= tail);
        assert(s + shell_text(tail, home, QuoteState::Bare) =~= shell_text(tail, home, QuoteState::Bare));
    } else {
        let c = s[0];
        let rest = s.drop_first();
        assert(s =~= seq![c] + rest);
        lemma_escaped_front(c, rest);
        lemma_single_quoted(rest, tail, home);
        let r = posix_escaped(rest) + seq!['\''] + tail;
        let w = posix_escaped(s) + seq!['\''] + tail;
        assert(w =~= posix_piece(c) + r);
        if c == '\'' {
            let w1 = w.drop_first();
            assert(w1 =~= seq!['\\', '\'', '\''] + r);
            let w2 = w1.skip(2);
            assert(w2 =~= seq!['\''] + r);
            assert(w2.drop_first() =~= r);
            assert(shell_text(w2, home, QuoteState::Bare) == shell_text(r, home, QuoteState::Single));
            assert(shell_text(w1, home, QuoteState::Bare) == seq!['\''] + shell_text(w2, home, QuoteState::Bare));
            assert(shell_text(w, home, QuoteState::Single) == shell_text(w1, home, QuoteState::Bare));
            assert(shell_text(w, home, QuoteState::Single) =~= s + shell_text(tail, home, QuoteState::Bare));
        } else {
            assert(w =~= seq![c] + r);
            assert(w.drop_first() =~= r);
            assert(shell_text(w, home, QuoteState::Single) == seq![c] + shell_text(r, home, QuoteState::Single));
            assert(shell_text(w, home, QuoteState::Single) =~= s + shell_text(tail, home, QuoteState::Bare));
        }
    }
}

/// A POSIX-quoted word is read back by the shell as exactly the text it
/// quotes, whatever that text holds and whatever `HOME` is.
pub proof fn lemma_quoted_word_is_literal(s: Seq<char>, home: Seq<char>)
    ensures
        shell_text(posix_quoted(s), home, QuoteState::Bare) == s,
{
    let w = posix_quoted(s);
    lemma_single_quoted(s, seq![], home);
    assert(w.drop_first() =~= posix_escaped(s) + seq!['\''] + Seq::<char>::empty());
    assert(shell_text(Seq::<char>::empty(), home, QuoteState::Bare) =~= Seq::<char>::empty());
    assert(s + Seq::<char>::empty() =~= s);
}

/// The program word of the remote command names the program the user gave:
/// a POSIX shell with `HOME` set to `home` reads it as `home/rest` when the
/// program is `$HOME/rest` (so a program uploaded under the remote home is
/// found there), and as the program's own text otherwise.
pub proof fn lemma_program_word_finds_the_program(program: Seq<char>, home: Seq<char>)
    ensures
        shell_text(posix_program(program), home, QuoteState::Bare) == if has_home_prefix(program) {
            home + seq!['/'] + program.skip(6)
        } else {
            program
        },
{
    if has_home_prefix(program) {
        let rest = program.skip(6);
        let q = posix_quoted(rest);
        lemma_quoted_word_is_literal(rest, home);
        let w = posix_program(program);
        assert(w =~= seq!['"', '$', 'H', 'O', 'M', 'E', '"', '/'] + q);
        let w1 = w.drop_first();
        assert(w1 =~= seq!['$', 'H', 'O', 'M', 'E', '"', '/'] + q);
        assert(w1.take(5) =~= seq!['$', 'H', 'O', 'M', 'E']);
        assert(w1[5] == '"');
        assert(starts_with_home(w1));
        let w2 = w1.skip(5);
        assert(w2 =~= seq!['"', '/'] + q);
        let w3 = w2.drop_first();
        assert(w3 =~= seq!['/'] + q);
        if w3.len() >= 5 {
            assert(w3.take(5)[0] == w3[0]);
            assert(w3.take(5)[0] != seq!['$', 'H', 'O', 'M', 'E'][0]);
        }
        assert(!starts_with_home(w3));
        assert(w3.drop_first() =~= q);
        assert(shell_text(w3, home, QuoteState::Bare) == seq!['/'] + rest);
        assert(shell_text(w2, home, QuoteState::Double) == shell_text(w3, home, QuoteState::Bare));
        assert(shell_text(w1, home, QuoteState::Double) == home + shell_text(w2, home, QuoteState::Double));
        assert(shell_text(w, home, QuoteState::Bare) == shell_text(w1, home, QuoteState::Double));
        assert(shell_text(w, home, QuoteState::Bare) =~= home + seq!['/'] + rest);
    } else {
        lemma_quoted_word_is_literal(program, home);
    }
}

/// The path word of the remote command names the path the user gave: a
/// POSIX shell with `HOME` set to `home` reads `~` as `home`, `~/rest` as
/// `home/rest`, and any other path as its own text.
pub proof fn lemma_path_word_finds_the_path(path: Seq<char>, home: Seq<char>)
    ensures
        shell_text(posix_path(path), home, QuoteState::Bare) == if path == seq!['~'] {
            home
        } else if has_tilde_prefix(path) {
            home + seq!['/'] + path.skip(2)
        } else {
            path
        },
{
    let w0 = home_word();
    let w1 = w0.drop_first();
    assert(w1 =~= seq!['$', 'H', 'O', 'M', 'E', '"']);
    assert(w1.take(5) =~= seq!['$', 'H', 'O', 'M', 'E']);
    assert(w1[5] == '"');
    assert(starts_with_home(w1));
    let w2 = w1.skip(5);
    assert(w2 =~= seq!['"']);
    assert(w2.drop_first() =~= Seq::<char>::empty());
    if path == seq!['~'] {
        assert(shell_text(Seq::<char>::empty(), home, QuoteState::Bare) =~= Seq::<char>::empty());
        assert(shell_text(w2, home, QuoteState::Double) == shell_text(w2.drop_first(), home, QuoteState::Bare));
        assert(shell_text(w2, home, QuoteState::Double) =~= Seq::<char>::empty());
        assert(shell_text(w1, home, QuoteState::Double) == home + shell_text(w2, home, QuoteState::Double));
        assert(shell_text(w0, home, QuoteState::Bare) == shell_text(w1, home, QuoteState::Double));
        assert(home + Seq::<char>::empty() =~= home);
    } else if has_tilde_prefix(path) {
        let rest = path.skip(2);
        let q = posix_quoted(rest);
        lemma_quoted_word_is_literal(rest, home);
        let w = posix_path(path);
        assert(w =~= seq!['"', '$', 'H', 'O', 'M', 'E', '"', '/'] + q);
        let v1 = w.drop_first();
        assert(v1 =~= seq!['$', 'H', 'O', 'M', 'E', '"', '/'] + q);
        assert(v1.take(5) =~= seq!['$', 'H', 'O', 'M', 'E']);
        assert(v1[5] == '"');
        let v2 = v1.skip(5);
        assert(v2 =~= seq!['"', '/'] + q);
        let v3 = v2.drop_first();
        assert(v3 =~= seq!['/'] + q);
        if v3.len() >= 5 {
            assert(v3.take(5)[0] == v3[0]);
            assert(v3.take(5)[0] != seq!['$', 'H', 'O', 'M', 'E'][0]);
        }
        assert(v3.drop_first() =~= q);
        assert(shell_text(v3, home, QuoteState::Bare) == seq!['/'] + rest);
        assert(shell_text(v2, home, QuoteState::Double) == shell_text(v3, home, QuoteState::Bare));
        assert(shell_text(v1, home, QuoteState::Double) == home + shell_text(v2, home, QuoteState::Double));
        assert(shell_text(w, home, QuoteState::Bare) =~= home + seq!['/'] + rest);
    } else {
        lemma_quoted_word_is_literal(path, home);
    }
}

/// Quote a program name, keeping a leading `$HOME` expandable.
pub fn quote_remote_arg_or_path(program: &str) -> (r: String)
    ensures
        r@ == posix_program(program@),
{
    let chars = chars_of(program);
    let mut out = String::new();
    if home_prefixed(&chars) {
        push_home_then_quoted(&mut out, &chars, 6);
    } else {
        push_char(&mut out, '\'');
        push_posix_escaped(&mut out, &chars, 0);
        assert(chars@.skip(0) =~= chars@);
        push_char(&mut out, '\'');
    }
    assert(out@ =~= posix_program(program@));
    out
}

/// Quote a remote path, keeping a leading `~` expandable by the remote shell.
pub fn quote_remote_path(path: &str) -> (r: String)
    ensures
        r@ == posix_path(path@),
{
    let chars = chars_of(path);
    let mut out = String::new();
    if chars.len() == 1 && chars[0] == '~' {
        push_str(&mut out, "\"$HOME\"");
        proof {
            reveal_strlit("\"$HOME\"");
            assert(chars@ =~= seq!['~']);
        }
    } else if chars.len() >= 2 && chars[0] == '~' && chars[1] == '/' {
        assert(chars@ != seq!['~']);
        push_home_then_quoted(&mut out, &chars, 2);
    } else {
        proof {
            if chars@ == seq!['~'] {
                assert(chars@.len() == 1 && chars@[0] == '~');
            }
        }
        push_char(&mut out, '\'');
        push_posix_escaped(&mut out, &chars, 0);
        assert(chars@.skip(0) =~= chars@);
        push_char(&mut out, '\'');
    }
    assert(out@ =~= posix_path(path@));
    out
}

/// `cmd.exe` can express an argument only when it holds no double quote
/// (which ends the quoted run) and no `%` (which still expands inside it).
pub open spec fn windows_expressible(s: Seq<char>) -> bool {
    !s.contains('"') && !s.contains('%')
}

/// The refusal of an argument `cmd.exe` quoting cannot express.
pub open spec fn windows_refusal_text(s: Seq<char>) -> Seq<char> {
    "remote Windows path may not contain '\"' or '%': "@ + s
}

fn windows_refusal(argument: &str) -> (r: ServerError)
    ensures
        r matches ServerError::InvalidPath(m) && m@ == windows_refusal_text(argument@),
{
    let mut m = String::new();
    push_str(&mut m, "remote Windows path may not contain '\"' or '%': ");
    push_str(&mut m, argument);
    ServerError::InvalidPath(m)
}

fn expressible_chars(chars: &Vec<char>, from: usize) -> (r: bool)
    requires
        from <= chars@.len(),
    ensures
        r == windows_expressible(chars@.skip(from as int)),
{
    let ghost s = chars@.skip(from as int);
    let mut i = from;
    while i < chars.len()
        invariant
            from <= i <= chars@.len(),
            s == chars@.skip(from as int),
            forall|j: int| 0 <= j < i - from ==> s[j] != '"' && s[j] != '%',
        decreases chars@.len() - i,
    {
        if chars[i] == '"' || chars[i] == '%' {
            assert(s[i - from] == chars@[i as int]);
            return false;
        }
        i = i + 1;
    }
    true
}

/// One argument in `cmd.exe` double quotes.
pub open spec fn windows_quoted(s: Seq<char>) -> Seq<char> {
    seq!['"'] + s + seq!['"']
}

/// Quote one argument for `cmd.exe`, refusing what it cannot express.
pub fn quote_windows_arg(argument: &str) -> (r: Result<String, ServerError>)
    ensures
        windows_expressible(argument@) <==> r is Ok,
        r matches Ok(q) ==> q@ == windows_quoted(argument@),
        r matches Err(e) ==> e matches ServerError::InvalidPath(m) && m@ == windows_refusal_text(argument@),
{
    let chars = chars_of(argument);
    assert(chars@.skip(0) =~= chars@);
    if !expressible_chars(&chars, 0) {
        return Err(windows_refusal(argument));
    }
    let mut out = String::new();
    push_char(&mut out, '"');
    push_str(&mut out, argument);
    push_char(&mut out, '"');
    assert(out@ =~= windows_quoted(argument@));
    Ok(out)
}

/// The characters of `%USERPROFILE%`.
pub open spec fn userprofile() -> Seq<char> {
    seq!['%', 'U', 'S', 'E', 'R', 'P', 'R', 'O', 'F', 'I', 'L', 'E', '%']
}

fn push_userprofile(out: &mut String)
    ensures
        final(out)@ == old(out)@ + userprofile(),
{
    let ghost start = out@;
    push_char(out, '%');
    push_char(out, 'U');
    push_char(out, 'S');
    push_char(out, 'E');
    push_char(out, 'R');
    push_char(out, 'P');
    push_char(out, 'R');
    push_char(out, 'O');
    push_char(out, 'F');
    push_char(out, 'I');
    push_char(out, 'L');
    push_char(out, 'E');
    push_char(out, '%');
    assert(out@ =~= start + userprofile());
}

/// A remote path for `cmd.exe`: `Ok` with the quoted form, or `Err` with the
/// argument that cannot be expressed. A leading `~` becomes `%USERPROFILE%`.
pub open spec fn windows_path(s: Seq<char>) -> Result<Seq<char>, Seq<char>> {
    if s == seq!['~'] {
        Ok(windows_quoted(userprofile()))
    } else if has_tilde_prefix(s) {
        if windows_expressible(s.skip(2)) {
            Ok(seq!['"'] + userprofile() + seq!['\\'] + s.skip(2) + seq!['"'])
        } else {
            Err(s.skip(2))
        }
    } else if windows_expressible(s) {
        Ok(windows_quoted(s))
    } else {
        Err(s)
    }
}

/// Quote a remote path for `cmd.exe`.
pub fn quote_windows_path(path: &str) -> (r: Result<String, ServerError>)
    ensures
        windows_path(path@) is Ok <==> r is Ok,
        r matches Ok(q) ==> Ok::<Seq<char>, Seq<char>>(q@) == windows_path(path@),
        r matches Err(e) ==> e matches ServerError::InvalidPath(m) && windows_path(path@) matches Err(a)
            && m@ == windows_refusal_text(a),
{
    let chars = chars_of(path);
    let mut out = String::new();
    if chars.len() == 1 && chars[0] == '~' {
        assert(chars@ =~= seq!['~']);
        push_char(&mut out, '"');
        push_userprofile(&mut out);
        push_char(&mut out, '"');
        assert(out@ =~= windows_quoted(userprofile()));
        return Ok(out);
    }
    proof {
        if chars@ == seq!['~'] {
            assert(chars@.len() == 1 && chars@[0] == '~');
        }
    }
    if chars.len() >= 2 && chars[0] == '~' && chars[1] == '/' {
        if !expressible_chars(&chars, 2) {
            let rest = crate::text::string_from_chars(&slice_from(&chars, 2));
            let e = windows_refusal(rest.as_str());
            return Err(e);
        }
        push_char(&mut out, '"');
        push_userprofile(&mut out);
        push_char(&mut out, '\\');
        let mut i: usize = 2;
        let ghost start = out@;
        while i < chars.len()
            invariant
                2 <= i <= chars@.len(),
                out@ == start + chars@.subrange(2, i as int),
            decreases chars@.len() - i,
        {
            push_char(&mut out, chars[i]);
            assert(chars@.subrange(2, i + 1) =~= chars@.subrange(2, i as int).push(chars@[i as int]));
            i = i + 1;
        }
        push_char(&mut out, '"');
        assert(chars@.subrange(2, chars@.len() as int) =~= chars@.skip(2));
        assert(out@ =~= seq!['"'] + userprofile() + seq!['\\'] + chars@.skip(2) + seq!['"']);
        return Ok(out);
    }
    quote_windows_arg(path)
}

fn slice_from(chars: &Vec<char>, from: usize) -> (r: Vec<char>)
    requires
        from <= chars@.len(),
    ensures
        r@ == chars@.skip(from as int),
{
    let mut out: Vec<char> = Vec::new();
    let mut i = from;
    while i < chars.len()
        invariant
            from <= i <= chars@.len(),
            out@ == chars@.subrange(from as int, i as int),
        decreases chars@.len() - i,
    {
        out.push(chars[i]);
        assert(chars@.subrange(from as int, i + 1) =~= chars@.subrange(from as int, i as int).push(chars@[i as int]));
        i = i + 1;
    }
    assert(chars@.subrange(from as int, chars@.len() as int) =~= chars@.skip(from as int));
    out
}

/// The remote command string that starts `xs --server` on `remote_path`:
/// `Ok` with the command, or `Err` with the argument the shell family cannot
/// express. `program` replaces the bare `xs` when bootstrap uploaded one;
/// `log_json` asks the remote for structured records on its stderr.
pub open spec fn spec_remote_command(remote_path: Seq<char>, shell: RemoteShell, program: Seq<char>, log_json: bool) -> Result<Seq<char>, Seq<char>> {
    match shell {
        RemoteShell::Posix => Ok("PATH=\"$HOME/.local/bin:$PATH\" "@ + posix_program(program)
            + (if log_json { " '--log-json' '-'"@ } else { Seq::<char>::empty() }) + " "@ + "'--server'"@ + " "@
            + posix_path(remote_path)),
        RemoteShell::Windows => if !windows_expressible(program) {
            Err(program)
        } else {
            match windows_path(remote_path) {
                Ok(path) => Ok("set \"PATH=%USERPROFILE%\\.local\\bin;%PATH%\" & "@ + windows_quoted(program)
                    + (if log_json { " --log-json -"@ } else { Seq::<char>::empty() }) + " --server "@ + path),
                Err(a) => Err(a),
            }
        },
    }
}

/// The program the remote command invokes: the uploaded one, or `xs`.
pub open spec fn program_or_default(program: Option<Seq<char>>) -> Seq<char> {
    match program {
        Some(p) => p,
        None => "xs"@,
    }
}

/// Build the remote command string for one shell family.
pub fn xsync_remote_command(remote_path: &str, shell: RemoteShell, program: Option<&str>, log_json: bool) -> (r: Result<String, ServerError>)
    ensures
        ({
            let p = program_or_default(match program { Some(p) => Some(p@), None => None });
            &&& spec_remote_command(remote_path@, shell, p, log_json) is Ok <==> r is Ok
            &&& r matches Ok(c) ==> Ok::<Seq<char>, Seq<char>>(c@) == spec_remote_command(remote_path@, shell, p, log_json)
            &&& r matches Err(e) ==> e matches ServerError::InvalidPath(m)
                && spec_remote_command(remote_path@, shell, p, log_json) matches Err(a)
                && m@ == windows_refusal_text(a)
        }),
{
    let program = match program {
        Some(p) => p,
        None => "xs",
    };
    let mut out = String::new();
    match shell {
        RemoteShell::Posix => {
            push_str(&mut out, "PATH=\"$HOME/.local/bin:$PATH\" ");
            let quoted = quote_remote_arg_or_path(program);
            push_str(&mut out, quoted.as_str());
            if log_json {
                push_str(&mut out, " '--log-json' '-'");
            }
            push_str(&mut out, " ");
            push_str(&mut out, "'--server'");
            push_str(&mut out, " ");
            let path = quote_remote_path(remote_path);
            push_str(&mut out, path.as_str());
            Ok(out)
        },
        RemoteShell::Windows => {
            push_str(&mut out, "set \"PATH=%USERPROFILE%\\.local\\bin;%PATH%\" & ");
            let quoted = quote_windows_arg(program)?;
            push_str(&mut out, quoted.as_str());
            if log_json {
                push_str(&mut out, " --log-json -");
            }
            push_str(&mut out, " --server ");
            let path = quote_windows_path(remote_path)?;
            push_str(&mut out, path.as_str());
            Ok(out)
        },
    }
}

/// The characters of each string, in order.
pub open spec fn texts(v: Seq<String>) -> Seq<Seq<char>> {
    v.map_values(|s: String| s@)
}

/// How `shlex::split` splits a line into words the way a POSIX shell does, or
/// `None` when the line is malformed (an unterminated quote, or a trailing
/// backslash).
pub uninterp spec fn shlex_split(line: Seq<char>) -> Option<Seq<Seq<char>>>;

/// Split an `-e/--rsh` command into words (`shlex::split`).
#[verifier::external_body]
fn shell_words(line: &str) -> (r: Option<Vec<String>>)
    ensures
        match r {
            Some(words) => shlex_split(line@) == Some(texts(words@)),
            None => shlex_split(line@) is None,
        },
{
    shlex::split(line)
}

/// The words of an `-e/--rsh` command; a line the shell grammar cannot split
/// is taken as one word.
pub open spec fn rsh_words(rsh: Seq<char>) -> Seq<Seq<char>> {
    match shlex_split(rsh) {
        Some(words) => words,
        None => seq![rsh],
    }
}

/// Split an `-e/--rsh` command into its program and arguments.
pub fn parse_rsh_command(rsh: &str) -> (r: Vec<String>)
    ensures
        texts(r@) == rsh_words(rsh@),
{
    match shell_words(rsh) {
        Some(words) => words,
        None => {
            let mut v: Vec<String> = Vec::new();
            v.push(copy_string(rsh));
            assert(texts(v@) =~= seq![rsh@]);
            v
        },
    }
}

fn copy_string(s: &str) -> (r: String)
    ensures
        r@ == s@,
{
    let mut out = String::new();
    push_str(&mut out, s);
    out
}

/// The `(program, args)` that runs `command` on `host` through the remote
/// shell: the `-e` words followed by the host and the command, or `ssh` when
/// no `-e` was given.
pub open spec fn spec_invocation(rsh: Option<Seq<char>>, host: Seq<char>, command: Seq<char>) -> (Seq<char>, Seq<Seq<char>>) {
    match rsh {
        Some(line) => {
            let words = rsh_words(line);
            let program = if words.len() > 0 { words[0] } else { line };
            let args = if words.len() > 0 { words.skip(1) } else { Seq::<Seq<char>>::empty() };
            (program, args.push(host).push(command))
        },
        None => ("ssh"@, seq![host, command]),
    }
}

/// An optional string slice by its characters.
pub open spec fn opt_text(s: Option<&str>) -> Option<Seq<char>> {
    match s {
        Some(t) => Some(t@),
        None => None,
    }
}

fn clone_strings_from(v: &Vec<String>, from: usize) -> (r: Vec<String>)
    requires
        from <= v@.len(),
    ensures
        texts(r@) == texts(v@).skip(from as int),
{
    let mut out: Vec<String> = Vec::new();
    let mut i = from;
    while i < v.len()
        invariant
            from <= i <= v@.len(),
            texts(out@) == texts(v@).subrange(from as int, i as int),
        decreases v@.len() - i,
    {
        let c = v[i].clone();
        let ghost before = out@;
        out.push(c);
        assert(texts(out@) =~= texts(before).push(v@[i as int]@));
        assert(texts(v@).subrange(from as int, i + 1) =~= texts(v@).subrange(from as int, i as int).push(v@[i as int]@));
        assert(texts(out@) =~= texts(v@).subrange(from as int, i + 1));
        i = i + 1;
    }
    assert(texts(v@).subrange(from as int, v@.len() as int) =~= texts(v@).skip(from as int));
    out
}

/// `(program, args)` that runs one command string on `host`, without deciding
/// what that string should be. Shared by the shell probe and the server launch
/// so they can never disagree about how the remote shell is reached.
pub fn base_remote_invocation(rsh: Option<&str>, host: &str, command: &str) -> (r: (String, Vec<String>))
    ensures
        (r.0@, texts(r.1@)) == spec_invocation(opt_text(rsh), host@, command@),
{
    match rsh {
        Some(line) => {
            let parts = parse_rsh_command(line);
            let program = if parts.len() > 0 { parts[0].clone() } else { copy_string(line) };
            let mut args = if parts.len() > 0 { clone_strings_from(&parts, 1) } else { Vec::new() };
            let ghost before = texts(args@);
            args.push(copy_string(host));
            args.push(copy_string(command));
            assert(texts(args@) =~= before.push(host@).push(command@));
            proof {
                if parts@.len() == 0 {
                    assert(before =~= Seq::<Seq<char>>::empty());
                }
            }
            (program, args)
        },
        None => {
            let mut args: Vec<String> = Vec::new();
            args.push(copy_string(host));
            args.push(copy_string(command));
            let program = copy_string("ssh");
            assert(texts(args@) =~= seq![host@, command@]);
            (program, args)
        },
    }
}

/// The key under which facts about one `(rsh, host)` route are remembered.
pub open spec fn route_key(rsh: Option<Seq<char>>, host: Seq<char>) -> Seq<char> {
    let prefix = match rsh {
        Some(r) => r,
        None => Seq::<char>::empty(),
    };
    prefix + seq!['\u{1f}'] + host
}

/// The key under which facts about one `(rsh, host)` route are remembered.
pub fn remote_shell_key(rsh: Option<&str>, host: &str) -> (r: String)
    ensures
        r@ == route_key(opt_text(rsh), host@),
{
    let mut out = String::new();
    match rsh {
        Some(r) => push_str(&mut out, r),
        None => {},
    }
    push_char(&mut out, '\u{1f}');
    push_str(&mut out, host);
    out
}

/// Index `i` holds the first entry for `key`.
pub open spec fn first_match<T>(entries: Seq<(String, T)>, key: Seq<char>, i: int) -> bool {
    &&& 0 <= i < entries.len()
    &&& entries[i].0@ == key
    &&& forall|j: int| 0 <= j < i ==> (#[trigger] entries[j]).0@ != key
}

/// The value remembered for `key`: that of its first entry.
pub open spec fn lookup<T>(entries: Seq<(String, T)>, key: Seq<char>) -> Option<T> {
    if exists|i: int| first_match(entries, key, i) {
        Some(entries[choose|i: int| first_match(entries, key, i)].1)
    } else {
        None
    }
}

proof fn lemma_first_match_unique<T>(entries: Seq<(String, T)>, key: Seq<char>, i: int, j: int)
    requires
        first_match(entries, key, i),
        first_match(entries, key, j),
    ensures
        i == j,
{
    if i < j {
        assert(entries[i].0@ != key);
    } else if j < i {
        assert(entries[j].0@ != key);
    }
}

proof fn lemma_lookup_at<T>(entries: Seq<(String, T)>, key: Seq<char>, i: int)
    requires
        first_match(entries, key, i),
    ensures
        lookup(entries, key) == Some(entries[i].1),
{
    let c = choose|k: int| first_match(entries, key, k);
    lemma_first_match_unique(entries, key, i, c);
}

fn find_key<T>(entries: &Vec<(String, T)>, key: &String) -> (r: Option<usize>)
    ensures
        match r {
            Some(i) => first_match(entries@, key@, i as int),
            None => forall|j: int| 0 <= j < entries@.len() ==> (#[trigger] entries@[j]).0@ != key@,
        },
{
    let mut i: usize = 0;
    while i < entries.len()
        invariant
            0 <= i <= entries@.len(),
            forall|j: int| 0 <= j < i ==> (#[trigger] entries@[j]).0@ != key@,
        decreases entries@.len() - i,
    {
        if entries[i].0 == *key {
            return Some(i);
        }
        i = i + 1;
    }
    None
}

proof fn lemma_lookup_none<T>(entries: Seq<(String, T)>, key: Seq<char>)
    requires
        forall|j: int| 0 <= j < entries.len() ==> (#[trigger] entries[j]).0@ != key,
    ensures
        lookup(entries, key) is None,
{
    if exists|i: int| first_match(entries, key, i) {
        let i = choose|i: int| first_match(entries, key, i);
        assert(entries[i].0@ != key);
    }
}

/// Replacing or adding the entry for `key` changes the lookup of `key` only.
proof fn lemma_lookup_after_set<T>(old_e: Seq<(String, T)>, new_e: Seq<(String, T)>, key: Seq<char>, value: T)
    requires
        (exists|i: int| first_match(old_e, key, i) && new_e == old_e.update(i, (new_e[i].0, value)) && new_e[i].0@ == key)
        || ((forall|j: int| 0 <= j < old_e.len() ==> (#[trigger] old_e[j]).0@ != key) && new_e.len() == old_e.len() + 1
            && new_e.drop_last() == old_e && new_e.last().0@ == key && new_e.last().1 == value),
    ensures
        lookup(new_e, key) == Some(value),
        forall|other: Seq<char>| other != key ==> lookup(new_e, other) == #[trigger] lookup(old_e, other),
{
    if exists|i: int| first_match(old_e, key, i) && new_e == old_e.update(i, (new_e[i].0, value)) && new_e[i].0@ == key {
        let i = choose|i: int| first_match(old_e, key, i) && new_e == old_e.update(i, (new_e[i].0, value)) && new_e[i].0@ == key;
        assert(first_match(new_e, key, i));
        lemma_lookup_at(new_e, key, i);
        assert forall|other: Seq<char>| other != key implies lookup(new_e, other) == #[trigger] lookup(old_e, other) by {
            if exists|k: int| first_match(old_e, other, k) {
                let k = choose|k: int| first_match(old_e, other, k);
                assert(k != i);
                assert(first_match(new_e, other, k));
                lemma_lookup_at(old_e, other, k);
                lemma_lookup_at(new_e, other, k);
            } else {
                if exists|k: int| first_match(new_e, other, k) {
                    let k = choose|k: int| first_match(new_e, other, k);
                    assert(k != i);
                    assert forall|j: int| 0 <= j < k implies (#[trigger] old_e[j]).0@ != other by {
                        if j != i {
                            assert(old_e[j] == new_e[j]);
                        }
                    }
                    assert(first_match(old_e, other, k));
                }
            }
        }
    } else {
        let n = old_e.len() as int;
        assert forall|j: int| 0 <= j < n implies (#[trigger] new_e[j]).0@ != key by {
            assert(new_e[j] == new_e.drop_last()[j]);
        }
        assert(first_match(new_e, key, n));
        lemma_lookup_at(new_e, key, n);
        assert forall|other: Seq<char>| other != key implies lookup(new_e, other) == #[trigger] lookup(old_e, other) by {
            if exists|k: int| first_match(old_e, other, k) {
                let k = choose|k: int| first_match(old_e, other, k);
                assert(new_e[k] == new_e.drop_last()[k]);
                assert forall|j: int| 0 <= j < k implies (#[trigger] new_e[j]).0@ != other by {
                    assert(new_e[j] == new_e.drop_last()[j]);
                }
                assert(first_match(new_e, other, k));
                lemma_lookup_at(old_e, other, k);
                lemma_lookup_at(new_e, other, k);
            } else {
                if exists|k: int| first_match(new_e, other, k) {
                    let k = choose|k: int| first_match(new_e, other, k);
                    if k < n {
                        assert(new_e[k] == new_e.drop_last()[k]);
                        assert forall|j: int| 0 <= j < k implies (#[trigger] old_e[j]).0@ != other by {
                            assert(new_e[j] == new_e.drop_last()[j]);
                        }
                        assert(first_match(old_e, other, k));
                    }
                }
            }
        }
    }
}

/// What launching the server on a route needs next.
pub enum ServerCommandStep {
    /// The route's shell family is unknown: run these marker commands, in
    /// order, each as `(family, program, args)`, handing each one's output
    /// to [`RemoteRegistry::record_shell_probe`] until one is answered.
    ProbeShell(Vec<(RemoteShell, String, Vec<String>)>),
    /// Launch the server with this program and these arguments.
    Launch(String, Vec<String>),
}

/// The marker commands that probe a route's shell family, in order: the
/// POSIX form, then cmd's.
pub open spec fn probes_for(rsh: Option<Seq<char>>, host: Seq<char>, probes: Seq<(RemoteShell, String, Vec<String>)>) -> bool {
    &&& probes.len() == 2
    &&& probes[0].0 == RemoteShell::Posix
    &&& (probes[0].1@, texts(probes[0].2@)) == spec_invocation(rsh, host, "printf '"@ + shell_marker() + "\n'"@)
    &&& probes[1].0 == RemoteShell::Windows
    &&& (probes[1].1@, texts(probes[1].2@)) == spec_invocation(rsh, host, "echo "@ + shell_marker())
}

/// What this process has learned about each remote route, and its logging
/// preference for remote servers.
///
/// A route's shell family is probed once per process, before the first
/// server command for it is built; the other facts are learned from failed
/// attempts and reused by later ones.
pub struct RemoteRegistry {
    shells: Vec<(String, RemoteShell)>,
    probed: Vec<(String, bool)>,
    programs: Vec<(String, String)>,
    json_rejected: Vec<(String, bool)>,
    json_requested: bool,
    json_echo_stdout: bool,
}

impl RemoteRegistry {
    /// The shell family learned for a route key, if any.
    pub closed spec fn learned_shell(&self, key: Seq<char>) -> Option<RemoteShell> {
        lookup(self.shells@, key)
    }

    /// The uploaded program remembered for a route key, if any.
    pub closed spec fn learned_program(&self, key: Seq<char>) -> Option<Seq<char>> {
        match lookup(self.programs@, key) {
            Some(p) => Some(p@),
            None => None,
        }
    }

    /// Whether the route's remote refused `--log-json`.
    pub closed spec fn log_json_rejected(&self, key: Seq<char>) -> bool {
        lookup(self.json_rejected@, key) is Some
    }

    /// Whether the route's shell family was probed in this process.
    pub closed spec fn shell_probed(&self, key: Seq<char>) -> bool {
        lookup(self.probed@, key) is Some
    }

    /// Whether remote servers should be asked for structured records.
    pub closed spec fn json_requested(&self) -> bool {
        self.json_requested
    }

    /// Whether relayed records are echoed to this process's stdout.
    pub closed spec fn json_echo_stdout(&self) -> bool {
        self.json_echo_stdout
    }

    /// A registry that has learned nothing, with remote logging off.
    pub fn new() -> (r: Self)
        ensures
            forall|k: Seq<char>| #[trigger] r.learned_shell(k) is None,
            forall|k: Seq<char>| #[trigger] r.learned_program(k) is None,
            forall|k: Seq<char>| !#[trigger] r.log_json_rejected(k),
            forall|k: Seq<char>| !#[trigger] r.shell_probed(k),
            !r.json_requested(),
            !r.json_echo_stdout(),
    {
        let r = RemoteRegistry {
            shells: Vec::new(),
            probed: Vec::new(),
            programs: Vec::new(),
            json_rejected: Vec::new(),
            json_requested: false,
            json_echo_stdout: false,
        };
        proof {
            assert forall|k: Seq<char>| #[trigger] r.learned_shell(k) is None && r.learned_program(k) is None && !r.log_json_rejected(k) by {
                lemma_lookup_none(r.shells@, k);
                lemma_lookup_none(r.programs@, k);
                lemma_lookup_none(r.json_rejected@, k);
            }
            assert forall|k: Seq<char>| !#[trigger] r.shell_probed(k) by {
                lemma_lookup_none(r.probed@, k);
            }
        }
        r
    }

    /// Ask remote servers for structured records, and say whether relayed
    /// records should also go to this process's stdout.
    pub fn configure_remote_logging(&mut self, requested: bool, echo_stdout: bool)
        ensures
            final(self).json_requested() == requested,
            final(self).json_echo_stdout() == echo_stdout,
            forall|k: Seq<char>| #[trigger] final(self).learned_shell(k) == old(self).learned_shell(k),
            forall|k: Seq<char>| #[trigger] final(self).learned_program(k) == old(self).learned_program(k),
            forall|k: Seq<char>| #[trigger] final(self).log_json_rejected(k) == old(self).log_json_rejected(k),
            forall|k: Seq<char>| #[trigger] final(self).shell_probed(k) == old(self).shell_probed(k),
    {
        self.json_requested = requested;
        self.json_echo_stdout = echo_stdout;
    }

    /// Whether remote servers are asked for structured records.
    pub fn remote_json_requested(&self) -> (r: bool)
        ensures
            r == self.json_requested(),
    {
        self.json_requested
    }

    /// Whether relayed records are echoed to this process's stdout.
    pub fn remote_json_echo_stdout(&self) -> (r: bool)
        ensures
            r == self.json_echo_stdout(),
    {
        self.json_echo_stdout
    }

    /// The shell family to try first: whatever a previous session established
    /// for this route, otherwise POSIX.
    pub fn remote_shell_for(&self, rsh: Option<&str>, host: &str) -> (r: RemoteShell)
        ensures
            r == match self.learned_shell(route_key(opt_text(rsh), host@)) {
                Some(s) => s,
                None => RemoteShell::Posix,
            },
    {
        let key = remote_shell_key(rsh, host);
        match find_key(&self.shells, &key) {
            Some(i) => {
                proof {
                    lemma_lookup_at(self.shells@, key@, i as int);
                }
                self.shells[i].1
            },
            None => {
                proof {
                    lemma_lookup_none(self.shells@, key@);
                }
                RemoteShell::Posix
            },
        }
    }

    /// The remote shell family learned for `host`, for callers that build
    /// their own remote commands.
    pub fn learned_remote_shell(&self, rsh: Option<&str>, host: &str) -> (r: RemoteShell)
        ensures
            r == match self.learned_shell(route_key(opt_text(rsh), host@)) {
                Some(s) => s,
                None => RemoteShell::Posix,
            },
    {
        self.remote_shell_for(rsh, host)
    }

    /// Whether a shell family has been learned for this route.
    pub fn knows_remote_shell(&self, rsh: Option<&str>, host: &str) -> (r: bool)
        ensures
            r == self.learned_shell(route_key(opt_text(rsh), host@)) is Some,
    {
        let key = remote_shell_key(rsh, host);
        match find_key(&self.shells, &key) {
            Some(i) => {
                proof {
                    lemma_lookup_at(self.shells@, key@, i as int);
                }
                true
            },
            None => {
                proof {
                    lemma_lookup_none(self.shells@, key@);
                }
                false
            },
        }
    }

    /// Remember the shell family a session established for this route.
    pub fn remember_remote_shell(&mut self, rsh: Option<&str>, host: &str, shell: RemoteShell)
        ensures
            final(self).learned_shell(route_key(opt_text(rsh), host@)) == Some(shell),
            forall|k: Seq<char>| k != route_key(opt_text(rsh), host@) ==> #[trigger] final(self).learned_shell(k)
                == old(self).learned_shell(k),
            forall|k: Seq<char>| #[trigger] final(self).learned_program(k) == old(self).learned_program(k),
            forall|k: Seq<char>| #[trigger] final(self).log_json_rejected(k) == old(self).log_json_rejected(k),
            forall|k: Seq<char>| #[trigger] final(self).shell_probed(k) == old(self).shell_probed(k),
            final(self).json_requested() == old(self).json_requested(),
            final(self).json_echo_stdout() == old(self).json_echo_stdout(),
    {
        let key = remote_shell_key(rsh, host);
        let ghost old_e = self.shells@;
        match find_key(&self.shells, &key) {
            Some(i) => {
                let k2 = key.clone();
                self.shells.set(i, (k2, shell));
                proof {
                    lemma_lookup_after_set(old_e, self.shells@, key@, shell);
                }
            },
            None => {
                self.shells.push((key, shell));
                proof {
                    assert(self.shells@.drop_last() =~= old_e);
                    lemma_lookup_after_set(old_e, self.shells@, self.shells@.last().0@, shell);
                }
            },
        }
    }

    /// The program the remote command should invoke for this route: the one
    /// bootstrap uploaded, if any.
    pub fn remote_program_for(&self, rsh: Option<&str>, host: &str) -> (r: Option<String>)
        ensures
            match r {
                Some(p) => self.learned_program(route_key(opt_text(rsh), host@)) == Some(p@),
                None => self.learned_program(route_key(opt_text(rsh), host@)) is None,
            },
    {
        let key = remote_shell_key(rsh, host);
        match find_key(&self.programs, &key) {
            Some(i) => {
                proof {
                    lemma_lookup_at(self.programs@, key@, i as int);
                }
                Some(self.programs[i].1.clone())
            },
            None => {
                proof {
                    lemma_lookup_none(self.programs@, key@);
                }
                None
            },
        }
    }

    /// The path bootstrap uploaded for `host`, if any.
    pub fn bootstrapped_program(&self, rsh: Option<&str>, host: &str) -> (r: Option<String>)
        ensures
            match r {
                Some(p) => self.learned_program(route_key(opt_text(rsh), host@)) == Some(p@),
                None => self.learned_program(route_key(opt_text(rsh), host@)) is None,
            },
    {
        self.remote_program_for(rsh, host)
    }

    /// Record the path bootstrap uploaded, so this and later sessions use it.
    pub fn remember_remote_program(&mut self, rsh: Option<&str>, host: &str, program: String)
        ensures
            programs_step(*old(self), *final(self), Some((route_key(opt_text(rsh), host@), program@))),
            final(self).learned_program(route_key(opt_text(rsh), host@)) == Some(program@),
            forall|k: Seq<char>| k != route_key(opt_text(rsh), host@) ==> #[trigger] final(self).learned_program(k)
                == old(self).learned_program(k),
            forall|k: Seq<char>| #[trigger] final(self).learned_shell(k) == old(self).learned_shell(k),
            forall|k: Seq<char>| #[trigger] final(self).log_json_rejected(k) == old(self).log_json_rejected(k),
            final(self).json_requested() == old(self).json_requested(),
            final(self).json_echo_stdout() == old(self).json_echo_stdout(),
    {
        let key = remote_shell_key(rsh, host);
        let ghost old_e = self.programs@;
        let ghost pv = program;
        match find_key(&self.programs, &key) {
            Some(i) => {
                let k2 = key.clone();
                self.programs.set(i, (k2, program));
                proof {
                    lemma_lookup_after_set(old_e, self.programs@, key@, pv);
                }
            },
            None => {
                self.programs.push((key, program));
                proof {
                    assert(self.programs@.drop_last() =~= old_e);
                    lemma_lookup_after_set(old_e, self.programs@, self.programs@.last().0@, pv);
                }
            },
        }
        proof {
            assert forall|k: Seq<char>| k != route_key(opt_text(rsh), host@) implies #[trigger] final(self).learned_program(k)
                == old(self).learned_program(k) by {
                assert(lookup(self.programs@, k) == lookup(old_e, k));
            }
        }
    }

    /// Whether the remote on this route should be asked for `--log-json`:
    /// requested, and not refused by that remote before.
    pub fn remote_accepts_log_json(&self, rsh: Option<&str>, host: &str) -> (r: bool)
        ensures
            r == (self.json_requested() && !self.log_json_rejected(route_key(opt_text(rsh), host@))),
    {
        if !self.json_requested {
            return false;
        }
        let key = remote_shell_key(rsh, host);
        match find_key(&self.json_rejected, &key) {
            Some(i) => {
                proof {
                    lemma_lookup_at(self.json_rejected@, key@, i as int);
                }
                false
            },
            None => {
                proof {
                    lemma_lookup_none(self.json_rejected@, key@);
                }
                true
            },
        }
    }

    /// Drop the `--log-json` request for a route whose remote refused it.
    pub fn remember_log_json_rejected(&mut self, rsh: Option<&str>, host: &str)
        ensures
            final(self).log_json_rejected(route_key(opt_text(rsh), host@)),
            forall|k: Seq<char>| k != route_key(opt_text(rsh), host@) ==> #[trigger] final(self).log_json_rejected(k)
                == old(self).log_json_rejected(k),
            forall|k: Seq<char>| #[trigger] final(self).learned_shell(k) == old(self).learned_shell(k),
            forall|k: Seq<char>| #[trigger] final(self).learned_program(k) == old(self).learned_program(k),
            final(self).json_requested() == old(self).json_requested(),
            final(self).json_echo_stdout() == old(self).json_echo_stdout(),
    {
        let key = remote_shell_key(rsh, host);
        let ghost old_e = self.json_rejected@;
        match find_key(&self.json_rejected, &key) {
            Some(i) => {
                let k2 = key.clone();
                self.json_rejected.set(i, (k2, true));
                proof {
                    lemma_lookup_after_set(old_e, self.json_rejected@, key@, true);
                }
            },
            None => {
                self.json_rejected.push((key, true));
                proof {
                    assert(self.json_rejected@.drop_last() =~= old_e);
                    lemma_lookup_after_set(old_e, self.json_rejected@, self.json_rejected@.last().0@, true);
                }
            },
        }
        proof {
            assert forall|k: Seq<char>| k != route_key(opt_text(rsh), host@) implies #[trigger] final(self).log_json_rejected(k)
                == old(self).log_json_rejected(k) by {
                assert(lookup(self.json_rejected@, k) == lookup(old_e, k));
            }
        }
    }

    /// The `(program, args)` that launch the server for `remote_path`, or the
    /// argument the remote shell cannot express. With a host, the command
    /// string goes through the remote shell; without one, the server runs as a
    /// local child (`local_program`, or the `-e` command) with its arguments
    /// passed verbatim.
    pub open spec fn spec_server_command(&self, remote_path: Seq<char>, rsh: Option<Seq<char>>, host: Option<Seq<char>>, shell: RemoteShell, local_program: Seq<char>) -> Result<(Seq<char>, Seq<Seq<char>>), Seq<char>> {
        match host {
            Some(h) => {
                let key = route_key(rsh, h);
                let log_json = self.json_requested() && !self.log_json_rejected(key);
                match spec_remote_command(remote_path, shell, program_or_default(self.learned_program(key)), log_json) {
                    Ok(command) => Ok(spec_invocation(rsh, h, command)),
                    Err(a) => Err(a),
                }
            },
            None => match rsh {
                Some(line) => {
                    let words = rsh_words(line);
                    let program = if words.len() > 0 { words[0] } else { line };
                    let args = if words.len() > 0 { words.skip(1) } else { Seq::<Seq<char>>::empty() };
                    Ok((program, args + seq!["xs"@, "--server"@, remote_path]))
                },
                None => Ok((local_program, seq!["--server"@, remote_path])),
            },
        }
    }

    /// Compute `(program, args)` used to launch the remote `xs --server`,
    /// with the remote command written for `shell`.
    pub fn remote_server_command_with_shell(&self, remote_path: &str, rsh: Option<&str>, host: Option<&str>, shell: RemoteShell, local_program: &str) -> (r: Result<(String, Vec<String>), ServerError>)
        ensures
            ({
                let spec = self.spec_server_command(remote_path@, opt_text(rsh), opt_text(host), shell, local_program@);
                &&& spec is Ok <==> r is Ok
                &&& r matches Ok((p, a)) ==> spec == Ok::<(Seq<char>, Seq<Seq<char>>), Seq<char>>((p@, texts(a@)))
                &&& r matches Err(e) ==> e matches ServerError::InvalidPath(m) && spec matches Err(a) && m@ == windows_refusal_text(a)
            }),
    {
        match host {
            Some(h) => {
                let program = self.remote_program_for(rsh, h);
                let log_json = self.remote_accepts_log_json(rsh, h);
                let command = match &program {
                    Some(p) => xsync_remote_command(remote_path, shell, Some(p.as_str()), log_json),
                    None => xsync_remote_command(remote_path, shell, None, log_json),
                };
                let command = command?;
                Ok(base_remote_invocation(rsh, h, command.as_str()))
            },
            None => match rsh {
                Some(line) => {
                    let parts = parse_rsh_command(line);
                    let program = if parts.len() > 0 { parts[0].clone() } else { copy_string(line) };
                    let mut args = if parts.len() > 0 { clone_strings_from(&parts, 1) } else { Vec::new() };
                    let ghost before = texts(args@);
                    args.push(copy_string("xs"));
                    args.push(copy_string("--server"));
                    args.push(copy_string(remote_path));
                    assert(texts(args@) =~= before + seq!["xs"@, "--server"@, remote_path@]);
                    proof {
                        if parts@.len() == 0 {
                            assert(before =~= Seq::<Seq<char>>::empty());
                        }
                    }
                    Ok((program, args))
                },
                None => {
                    let mut args: Vec<String> = Vec::new();
                    args.push(copy_string("--server"));
                    args.push(copy_string(remote_path));
                    assert(texts(args@) =~= seq!["--server"@, remote_path@]);
                    Ok((copy_string(local_program), args))
                },
            },
        }
    }

    /// Whether launching the server on this route must first probe its
    /// shell family: there is a host, no family was learned for the route,
    /// and it was not probed yet in this process.
    pub open spec fn probe_due(&self, rsh: Option<Seq<char>>, host: Option<Seq<char>>) -> bool {
        &&& host is Some
        &&& self.learned_shell(route_key(rsh, host->Some_0)) is None
        &&& !self.shell_probed(route_key(rsh, host->Some_0))
    }

    /// Compute what launching the server for `remote_path` needs next. A
    /// route whose shell family is unknown is probed first, once per process;
    /// otherwise the command is written for the family learned for the route,
    /// POSIX when the probe learned nothing or there is no host.
    pub fn remote_server_command(&self, remote_path: &str, rsh: Option<&str>, host: Option<&str>, local_program: &str) -> (r: Result<ServerCommandStep, ServerError>)
        ensures
            self.probe_due(opt_text(rsh), opt_text(host)) ==> (r matches Ok(ServerCommandStep::ProbeShell(probes))
                && probes_for(opt_text(rsh), opt_text(host)->Some_0, probes@)),
            !self.probe_due(opt_text(rsh), opt_text(host)) ==> ({
                let shell = match host {
                    Some(h) => match self.learned_shell(route_key(opt_text(rsh), h@)) {
                        Some(s) => s,
                        None => RemoteShell::Posix,
                    },
                    None => RemoteShell::Posix,
                };
                let spec = self.spec_server_command(remote_path@, opt_text(rsh), opt_text(host), shell, local_program@);
                &&& spec is Ok <==> r is Ok
                &&& r matches Ok(step) ==> (step matches ServerCommandStep::Launch(p, a)
                    && spec == Ok::<(Seq<char>, Seq<Seq<char>>), Seq<char>>((p@, texts(a@))))
                &&& r matches Err(e) ==> e matches ServerError::InvalidPath(m) && spec matches Err(a) && m@ == windows_refusal_text(a)
            }),
    {
        if let Some(h) = host {
            if !self.knows_remote_shell(rsh, h) && !self.was_probed(rsh, h) {
                let marks = shell_probes();
                let mut probes: Vec<(RemoteShell, String, Vec<String>)> = Vec::new();
                let (p0, a0) = base_remote_invocation(rsh, h, marks[0].1);
                probes.push((marks[0].0, p0, a0));
                let (p1, a1) = base_remote_invocation(rsh, h, marks[1].1);
                probes.push((marks[1].0, p1, a1));
                return Ok(ServerCommandStep::ProbeShell(probes));
            }
        }
        let shell = match host {
            Some(h) => self.remote_shell_for(rsh, h),
            None => RemoteShell::Posix,
        };
        let (program, args) = self.remote_server_command_with_shell(remote_path, rsh, host, shell, local_program)?;
        Ok(ServerCommandStep::Launch(program, args))
    }

    /// Whether the route's shell family was probed in this process.
    fn was_probed(&self, rsh: Option<&str>, host: &str) -> (r: bool)
        ensures
            r == self.shell_probed(route_key(opt_text(rsh), host@)),
    {
        let key = remote_shell_key(rsh, host);
        match find_key(&self.probed, &key) {
            Some(i) => {
                proof {
                    lemma_lookup_at(self.probed@, key@, i as int);
                }
                true
            },
            None => {
                proof {
                    lemma_lookup_none(self.probed@, key@);
                }
                false
            },
        }
    }

    /// Record what one shell probe on the route printed: the route counts as
    /// probed, and when the output holds the marker, `shell` is the route's
    /// family from now on. Returns whether it did.
    pub fn record_shell_probe(&mut self, rsh: Option<&str>, host: &str, shell: RemoteShell, stdout: &[u8]) -> (answered: bool)
        ensures
            answered == contains_text(utf8_lossy(stdout@), shell_marker()),
            final(self).shell_probed(route_key(opt_text(rsh), host@)),
            forall|k: Seq<char>| k != route_key(opt_text(rsh), host@) ==> #[trigger] final(self).shell_probed(k)
                == old(self).shell_probed(k),
            answered ==> final(self).learned_shell(route_key(opt_text(rsh), host@)) == Some(shell),
            forall|k: Seq<char>| (!answered || k != route_key(opt_text(rsh), host@)) ==> #[trigger] final(self).learned_shell(k)
                == old(self).learned_shell(k),
            forall|k: Seq<char>| #[trigger] final(self).learned_program(k) == old(self).learned_program(k),
            forall|k: Seq<char>| #[trigger] final(self).log_json_rejected(k) == old(self).log_json_rejected(k),
            final(self).json_requested() == old(self).json_requested(),
            final(self).json_echo_stdout() == old(self).json_echo_stdout(),
    {
        let key = remote_shell_key(rsh, host);
        let ghost old_e = self.probed@;
        match find_key(&self.probed, &key) {
            Some(i) => {
                let k2 = key.clone();
                self.probed.set(i, (k2, true));
                proof {
                    lemma_lookup_after_set(old_e, self.probed@, key@, true);
                }
            },
            None => {
                self.probed.push((key, true));
                proof {
                    assert(self.probed@.drop_last() =~= old_e);
                    lemma_lookup_after_set(old_e, self.probed@, self.probed@.last().0@, true);
                }
            },
        }
        proof {
            assert forall|k: Seq<char>| k != route_key(opt_text(rsh), host@) implies #[trigger] self.shell_probed(k)
                == old(self).shell_probed(k) by {
                assert(lookup(self.probed@, k) == lookup(old_e, k));
            }
        }
        let answered = shell_probe_answered(stdout);
        if answered {
            self.remember_remote_shell(rsh, host, shell);
        }
        answered
    }
}

/// How one call changed the programs remembered per route: `Some((key,
/// program))` remembered `program` for route `key` and left every other route
/// as it was; `None` changed no route's program.
pub open spec fn programs_step(before: RemoteRegistry, after: RemoteRegistry, step: Option<(Seq<char>, Seq<char>)>) -> bool {
    match step {
        Some((key, program)) => {
            &&& after.learned_program(key) == Some(program)
            &&& forall|k: Seq<char>| k != key ==> #[trigger] after.learned_program(k) == before.learned_program(k)
        },
        None => forall|k: Seq<char>| #[trigger] after.learned_program(k) == before.learned_program(k),
    }
}

/// The program a route's lookup gives after a run of steps: the one last
/// remembered for it, or `initial` when none was.
pub open spec fn program_after(initial: Option<Seq<char>>, steps: Seq<Option<(Seq<char>, Seq<char>)>>, key: Seq<char>) -> Option<Seq<char>>
    decreases steps.len(),
{
    if steps.len() == 0 {
        initial
    } else if steps.last() matches Some((k, program)) && k == key {
        Some(steps.last()->Some_0.1)
    } else {
        program_after(initial, steps.drop_last(), key)
    }
}

/// Across any run of calls, a route's program lookup gives the program last
/// remembered for that route, or what it gave before the run when none was:
/// what bootstrap uploaded is used by this and every later session, and
/// remembering one route's program never changes another's.
pub proof fn lemma_remembered_program_lookup(
    states: Seq<RemoteRegistry>,
    steps: Seq<Option<(Seq<char>, Seq<char>)>>,
    key: Seq<char>,
)
    requires
        states.len() == steps.len() + 1,
        forall|i: int| #![trigger steps[i]] 0 <= i < steps.len() ==> programs_step(states[i], states[i + 1], steps[i]),
    ensures
        states.last().learned_program(key) == program_after(states[0].learned_program(key), steps, key),
    decreases steps.len(),
{
    if steps.len() > 0 {
        let n = steps.len() - 1;
        let shorter = states.drop_last();
        assert forall|i: int| #![trigger steps.drop_last()[i]] 0 <= i < steps.drop_last().len() implies programs_step(
            shorter[i],
            shorter[i + 1],
            steps.drop_last()[i],
        ) by {
            assert(steps.drop_last()[i] == steps[i]);
            assert(shorter[i] == states[i] && shorter[i + 1] == states[i + 1]);
        }
        lemma_remembered_program_lookup(shorter, steps.drop_last(), key);
        assert(programs_step(states[n], states[n + 1], steps[n]));
        assert(shorter.last() == states[n]);
        assert(states.last() == states[n + 1]);
    }
}

} // verus!
