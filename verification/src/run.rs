//! How a verified executable is launched: whether it opens its own
//! window, and the wrapper script that runs a console tool in a terminal
//! inside its sandbox directory. Spawning processes is the caller's part.
use vstd::prelude::*;
use vstd::string::*;

use crate::text::push_char;

verus! {

/// Whether a component of `path` ends in `.app` at position `k`: `.app`
/// starts there and is followed by a `/` or the end of the path.
pub open spec fn app_suffix_at(path: Seq<char>, k: int) -> bool {
    0 <= k && k + 4 <= path.len() && path.subrange(k, k + 4) == ".app"@ && (k + 4 == path.len()
        || path[k + 4] == '/')
}

/// Whether `path` has a component ending in `.app`.
pub open spec fn has_app_component(path: Seq<char>) -> bool {
    exists|k: int| #[trigger] app_suffix_at(path, k)
}

/// Whether an executable opens its own window on macOS: only paths that
/// reach inside a `.app` bundle (`.../Name.app/Contents/MacOS/...`) do; a
/// plain downloaded binary never has an `.app` path component.
pub fn is_gui(path: &str) -> (res: bool)
    ensures
        res == has_app_component(path@),
{
    let n = path.unicode_len();
    proof {
        reveal_strlit(".app");
        assert(".app"@ =~= seq!['.', 'a', 'p', 'p']);
    }
    if n < 4 {
        assert forall|j: int| !#[trigger] app_suffix_at(path@, j) by {}
        return false;
    }
    let mut k: usize = 0;
    while k <= n - 4
        invariant
            ".app"@ == seq!['.', 'a', 'p', 'p'],
            n == path@.len(),
            4 <= n,
            k <= n - 3,
            forall|j: int| 0 <= j < k ==> !#[trigger] app_suffix_at(path@, j),
        decreases n - k,
    {
        let is_suffix = path.get_char(k) == '.' && path.get_char(k + 1) == 'a' && path.get_char(k
            + 2) == 'p' && path.get_char(k + 3) == 'p';
        proof {
            let sub = path@.subrange(k as int, k + 4);
            if is_suffix {
                assert(sub =~= ".app"@);
            } else {
                assert(sub != ".app"@) by {
                    if sub == ".app"@ {
                        assert(sub[0] == path@[k as int]);
                        assert(sub[1] == path@[k + 1]);
                        assert(sub[2] == path@[k + 2]);
                        assert(sub[3] == path@[k + 3]);
                    }
                }
            }
        }
        if is_suffix && (k + 4 == n || path.get_char(k + 4) == '/') {
            assert(app_suffix_at(path@, k as int));
            return true;
        }
        assert(!app_suffix_at(path@, k as int));
        k = k + 1;
    }
    assert forall|j: int| !#[trigger] app_suffix_at(path@, j) by {
        if 0 <= j < k {
        }
    }
    false
}

/// PE `Subsystem` value of a Windows GUI executable
/// (`IMAGE_SUBSYSTEM_WINDOWS_GUI`).
pub const IMAGE_SUBSYSTEM_WINDOWS_GUI: u16 = 2;

/// Whether a Windows executable is a GUI one, from the `Subsystem` field
/// of its PE optional header (declared at link time, not guessed).
pub fn is_gui_subsystem(subsystem: u16) -> (res: bool)
    ensures
        res == (subsystem == IMAGE_SUBSYSTEM_WINDOWS_GUI),
{
    subsystem == IMAGE_SUBSYSTEM_WINDOWS_GUI
}

/// The permission bits after making a file executable: every execute bit
/// set, everything else as it was.
pub fn executable_mode(mode: u32) -> (res: u32)
    ensures
        res & 0o111 == 0o111,
        res & !0o111u32 == mode & !0o111u32,
{
    let res = mode | 0o111;
    assert(res & 0o111 == 0o111) by (bit_vector)
        requires
            res == mode | 0o111,
    ;
    assert(res & !0o111u32 == mode & !0o111u32) by (bit_vector)
        requires
            res == mode | 0o111,
    ;
    res
}

/// The characters of `s` with each `'` written as `'\''`.
pub open spec fn escape_quotes(s: Seq<char>) -> Seq<char>
    decreases s.len(),
{
    if s.len() == 0 {
        Seq::empty()
    } else {
        escape_quotes(s.drop_last()) + if s.last() == '\'' {
            seq!['\'', '\\', '\'', '\'']
        } else {
            seq![s.last()]
        }
    }
}

/// `s` as a single-quoted POSIX shell word.
pub open spec fn spec_shell_quote(s: Seq<char>) -> Seq<char> {
    seq!['\''] + escape_quotes(s) + seq!['\'']
}

/// Quotes a path for `/bin/sh`: inside single quotes nothing is special,
/// and each `'` closes the quote, adds an escaped `'`, and reopens it.
pub fn shell_quote(s: &str) -> (res: String)
    ensures
        res@ == spec_shell_quote(s@),
{
    let n = s.unicode_len();
    let mut out = String::new();
    push_char(&mut out, '\'');
    let mut i: usize = 0;
    while i < n
        invariant
            n == s@.len(),
            i <= n,
            out@ == seq!['\''] + escape_quotes(s@.take(i as int)),
        decreases n - i,
    {
        let c = s.get_char(i);
        assert(s@.take(i + 1).drop_last() =~= s@.take(i as int));
        assert(s@.take(i + 1).last() == c);
        if c == '\'' {
            push_char(&mut out, '\'');
            push_char(&mut out, '\\');
            push_char(&mut out, '\'');
            push_char(&mut out, '\'');
        } else {
            push_char(&mut out, c);
        }
        i = i + 1;
        assert(out@ =~= seq!['\''] + escape_quotes(s@.take(i as int)));
    }
    assert(s@.take(n as int) =~= s@);
    push_char(&mut out, '\'');
    out
}

/// How `sh` reads the characters of a word that uses only single quotes
/// and backslash escapes for quoting (`quoted`: inside single quotes).
/// Inside quotes every character but `'` is literal and `'` closes them;
/// outside, `'` opens them, `\c` is a literal `c`, and any other character
/// stands for itself.
pub open spec fn sh_word(s: Seq<char>, quoted: bool) -> Seq<char>
    decreases s.len(),
{
    if s.len() == 0 {
        Seq::empty()
    } else if quoted {
        if s[0] == '\'' {
            sh_word(s.drop_first(), false)
        } else {
            seq![s[0]] + sh_word(s.drop_first(), true)
        }
    } else if s[0] == '\'' {
        sh_word(s.drop_first(), true)
    } else if s[0] == '\\' && s.len() >= 2 {
        seq![s[1]] + sh_word(s.skip(2), false)
    } else {
        seq![s[0]] + sh_word(s.drop_first(), false)
    }
}

proof fn lemma_sh_reads_escaped(s: Seq<char>, rest: Seq<char>)
    ensures
        sh_word(escape_quotes(s) + rest, true) == s + sh_word(rest, true),
    decreases s.len(),
{
    if s.len() == 0 {
        assert(escape_quotes(s) + rest =~= rest);
        assert(s + sh_word(rest, true) =~= sh_word(rest, true));
    } else {
        let init = s.drop_last();
        let c = s.last();
        let tail = (if c == '\'' {
            seq!['\'', '\\', '\'', '\'']
        } else {
            seq![c]
        }) + rest;
        assert(escape_quotes(s) + rest =~= escape_quotes(init) + tail);
        lemma_sh_reads_escaped(init, tail);
        if c == '\'' {
            let t1 = tail.drop_first();
            assert(t1 =~= seq!['\\', '\'', '\''] + rest);
            let t2 = t1.skip(2);
            assert(t2 =~= seq!['\''] + rest);
            assert(t2.drop_first() =~= rest);
            assert(tail[0] == '\'');
            assert(sh_word(tail, true) == sh_word(t1, false));
            assert(t1[0] == '\\' && t1[1] == '\'');
            assert(sh_word(t1, false) == seq![t1[1]] + sh_word(t2, false));
            assert(t2[0] == '\'');
            assert(sh_word(t2, false) == sh_word(rest, true));
            assert(sh_word(tail, true) == seq![c] + sh_word(rest, true));
        } else {
            assert(tail.drop_first() =~= rest);
        }
        assert(init + (seq![c] + sh_word(rest, true)) =~= s + sh_word(rest, true));
    }
}

/// What `shell_quote` writes, `sh` reads back as exactly the given
/// text: no character of the path is ever taken as shell syntax.
pub proof fn law_shell_quote_reads_back(s: Seq<char>)
    ensures
        sh_word(spec_shell_quote(s), false) == s,
{
    let q = spec_shell_quote(s);
    let close = seq!['\''];
    assert(q.drop_first() =~= escape_quotes(s) + close);
    assert(q[0] == '\'');
    assert(sh_word(q, false) == sh_word(q.drop_first(), true));
    lemma_sh_reads_escaped(s, close);
    assert(close.drop_first() =~= Seq::<char>::empty());
    assert(close[0] == '\'');
    assert(sh_word(close, true) == sh_word(close.drop_first(), false));
    assert(sh_word(close, true) =~= Seq::<char>::empty());
    assert(s + Seq::<char>::empty() =~= s);
}

/// The wrapper script that runs a console tool: `cd` into its sandbox
/// (Terminal.app always starts in `$HOME`), then `exec` the tool.
pub open spec fn spec_launch_script(cwd: Seq<char>, path: Seq<char>) -> Seq<char> {
    "#!/bin/sh\ncd "@ + spec_shell_quote(cwd) + " || exit 1\nexec "@ + spec_shell_quote(path)
        + "\n"@
}

/// The wrapper script for running `path` in a terminal with working
/// directory `cwd`. Both are quoted, so nothing in them is shell syntax.
pub fn launch_script(cwd: &str, path: &str) -> (res: String)
    ensures
        res@ == spec_launch_script(cwd@, path@),
{
    let mut script = "#!/bin/sh\ncd ".to_owned();
    script.append(shell_quote(cwd).as_str());
    script.append(" || exit 1\nexec ");
    script.append(shell_quote(path).as_str());
    script.append("\n");
    script
}

/// The wrapper script's file name: `securexe-launch-<file name>.sh`
/// (`app` when the path has no file name).
pub fn launch_script_name(file_name: Option<&str>) -> (res: String)
    ensures
        res@ == "securexe-launch-"@ + match file_name {
            Some(f) => f@,
            None => "app"@,
        } + ".sh"@,
{
    let name: &str = match file_name {
        Some(f) => f,
        None => "app",
    };
    let mut s = "securexe-launch-".to_owned();
    s.append(name);
    s.append(".sh");
    s
}

} // verus!
