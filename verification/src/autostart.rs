//! Launch-at-login text: the Windows `Run` value data and the Linux XDG
//! autostart desktop entry, and the check that recognises a written entry.
//! Reading and writing the OS entry is the caller's.

use vstd::prelude::*;
use vstd::string::*;
use crate::text::{chars_of, is_ws, push_char, push_str, trim, trim_bounds, trim_start};

verus! {

/// The `Run` value name, also the name the desktop entry shows.
pub const RUN_VALUE_NAME: &'static str = "Hark";

/// Passed at autostart so the intent (start hidden into the tray) is
/// explicit in the command line.
pub const HIDDEN_FLAG: &'static str = "--hidden";

/// The `Run` value data: the quoted path, then the hidden flag.
pub open spec fn command_of(exe: Seq<char>) -> Seq<char> {
    "\""@ + exe + "\" --hidden"@
}

/// The `Run` value data for `exe`: `"<path>" --hidden`. The path is quoted so
/// a space in the install directory cannot split the command.
pub fn command_for(exe: &str) -> (r: String)
    ensures
        r@ == command_of(exe@),
{
    let mut out = String::new();
    push_str(&mut out, "\"");
    push_str(&mut out, exe);
    push_str(&mut out, "\" --hidden");
    out
}

/// The characters the desktop-entry spec reserves inside a quoted `Exec`
/// value.
pub open spec fn reserved(c: char) -> bool {
    c == '"' || c == '`' || c == '$' || c == '\\'
}

/// `s` with a backslash before every reserved character.
pub open spec fn escaped(s: Seq<char>) -> Seq<char>
    decreases s.len(),
{
    if s.len() == 0 {
        Seq::empty()
    } else {
        escaped(s.drop_last()) + if reserved(s.last()) {
            seq!['\\', s.last()]
        } else {
            seq![s.last()]
        }
    }
}

/// The entry's `Exec=` line for `exe`.
pub open spec fn exec_line_of(exe: Seq<char>) -> Seq<char> {
    "Exec=\""@ + escaped(exe) + "\" --hidden"@
}

/// The entry's `Exec=` line: the quoted, escaped path plus the hidden flag.
pub fn exec_line(exe: &str) -> (r: String)
    ensures
        r@ == exec_line_of(exe@),
{
    let v = chars_of(exe);
    let mut out = String::new();
    push_str(&mut out, "Exec=\"");
    let ghost start = out@;
    let mut i: usize = 0;
    while i < v.len()
        invariant
            i <= v@.len(),
            v@ == exe@,
            out@ == start + escaped(v@.subrange(0, i as int)),
        decreases v@.len() - i,
    {
        let c = v[i];
        if c == '"' || c == '`' || c == '$' || c == '\\' {
            push_char(&mut out, '\\');
        }
        push_char(&mut out, c);
        proof {
            assert(v@.subrange(0, i + 1).drop_last() == v@.subrange(0, i as int));
            assert(v@.subrange(0, i + 1).last() == c);
        }
        i = i + 1;
    }
    proof {
        assert(v@.subrange(0, v@.len() as int) == v@);
    }
    push_str(&mut out, "\" --hidden");
    out
}

/// The text before the `Exec=` line of the desktop entry.
pub open spec fn entry_head() -> Seq<char> {
    "[Desktop Entry]\nType=Application\nName=Hark\nComment=Push-to-talk voice dictation\n"@
}

/// The text after the `Exec=` line of the desktop entry.
pub open spec fn entry_tail() -> Seq<char> {
    "\nIcon=hark\nTerminal=false\nCategories=Utility;AudioVideo;\nX-GNOME-Autostart-enabled=true\n"@
}

/// The desktop entry for `exe`.
pub open spec fn desktop_entry_of(exe: Seq<char>) -> Seq<char> {
    entry_head() + exec_line_of(exe) + entry_tail()
}

/// The desktop entry written for `exe`: `Type`, `Name` and `Exec`, which the
/// spec requires, plus an explicit GNOME enabled flag.
pub fn desktop_entry(exe: &str) -> (r: String)
    ensures
        r@ == desktop_entry_of(exe@),
{
    let mut out = String::new();
    push_str(&mut out, "[Desktop Entry]\nType=Application\nName=Hark\nComment=Push-to-talk voice dictation\n");
    let line = exec_line(exe);
    push_str(&mut out, line.as_str());
    push_str(&mut out, "\nIcon=hark\nTerminal=false\nCategories=Utility;AudioVideo;\nX-GNOME-Autostart-enabled=true\n");
    out
}

/// `s[i..j]` is a line of `s` (as `str::lines` yields them, before the
/// trailing `\r` that trimming drops anyway).
pub open spec fn is_line(s: Seq<char>, i: int, j: int) -> bool {
    &&& 0 <= i <= j <= s.len()
    &&& i < s.len()
    &&& (i == 0 || s[i - 1] == '\n')
    &&& (j == s.len() || s[j] == '\n')
    &&& forall|k: int| i <= k < j ==> s[k] != '\n'
}

/// Whether some line of `s`, trimmed, is `t`.
pub open spec fn has_line(s: Seq<char>, t: Seq<char>) -> bool {
    exists|i: int, j: int| is_line(s, i, j) && trim(s.subrange(i, j)) == t
}

fn equal_chars(v: &Vec<char>, lo: usize, hi: usize, w: &Vec<char>) -> (r: bool)
    requires
        lo <= hi <= v@.len(),
    ensures
        r == (v@.subrange(lo as int, hi as int) == w@),
{
    if hi - lo != w.len() {
        return false;
    }
    let mut k: usize = 0;
    while k < w.len()
        invariant
            k <= w@.len(),
            hi - lo == w@.len(),
            lo <= hi <= v@.len(),
            forall|m: int| 0 <= m < k ==> v@[lo + m] == w@[m],
        decreases w@.len() - k,
    {
        if v[lo + k] != w[k] {
            proof {
                assert(v@.subrange(lo as int, hi as int)[k as int] != w@[k as int]);
            }
            return false;
        }
        k = k + 1;
    }
    proof {
        assert(v@.subrange(lo as int, hi as int) == w@);
    }
    true
}

/// True when some line of `contents`, trimmed, is `expected`. Desktops
/// rewrite these files (appending keys), so only the one line is compared.
pub fn has_trimmed_line(contents: &str, expected: &str) -> (r: bool)
    ensures
        r == has_line(contents@, expected@),
{
    let v = chars_of(contents);
    let w = chars_of(expected);
    let n = v.len();
    let mut i: usize = 0;
    while i < n
        invariant
            i <= n,
            n == v@.len(),
            v@ == contents@,
            w@ == expected@,
            i == 0 || i == n || v@[i - 1] == '\n',
            forall|a: int, b: int| is_line(v@, a, b) && a < i ==> trim(v@.subrange(a, b)) != w@,
        decreases n - i,
    {
        let mut j = i;
        while j < n && v[j] != '\n'
            invariant
                i <= j <= n,
                n == v@.len(),
                forall|k: int| i <= k < j ==> v@[k] != '\n',
            decreases n - j,
        {
            j = j + 1;
        }
        let seg = v_slice(&v, i, j);
        let (lo, hi) = trim_bounds(&seg);
        if equal_chars(&seg, lo, hi, &w) {
            proof {
                assert(seg@ == v@.subrange(i as int, j as int));
                assert(is_line(v@, i as int, j as int));
            }
            return true;
        }
        proof {
            assert(seg@ == v@.subrange(i as int, j as int));
            assert forall|a: int, b: int| is_line(v@, a, b) && a < j + 1 implies trim(v@.subrange(a, b)) != w@ by {
                if a >= i {
                    if a > i {
                        assert(v@[a - 1] == '\n');
                        assert(false);
                    }
                    if b < j {
                        assert(v@[b] != '\n');
                    }
                    if b > j {
                        assert(v@[j as int] == '\n');
                        assert(false);
                    }
                }
            }
        }
        if j == n {
            i = n;
        } else {
            i = j + 1;
        }
    }
    proof {
        assert forall|a: int, b: int| is_line(v@, a, b) implies trim(v@.subrange(a, b)) != w@ by {
            assert(a < n);
        }
    }
    false
}

/// Escaping adds only backslashes: a path without a newline escapes to text
/// without one.
proof fn lemma_escaped_no_newline(s: Seq<char>)
    requires
        forall|k: int| 0 <= k < s.len() ==> s[k] != '\n',
    ensures
        forall|k: int| 0 <= k < escaped(s).len() ==> escaped(s)[k] != '\n',
    decreases s.len(),
{
    if s.len() > 0 {
        lemma_escaped_no_newline(s.drop_last());
        let e = escaped(s.drop_last());
        let last = if reserved(s.last()) { seq!['\\', s.last()] } else { seq![s.last()] };
        assert(escaped(s) == e + last);
        assert forall|k: int| 0 <= k < escaped(s).len() implies escaped(s)[k] != '\n' by {
            if k >= e.len() {
                assert(s.last() == s[s.len() - 1]);
            }
        }
    }
}

/// The entry `desktop_entry` writes is the one `has_trimmed_line` recognises:
/// its `Exec=` line is a line of it. (A path holding a newline would split
/// that line, and is left out.)
pub proof fn written_entry_is_recognised(exe: Seq<char>)
    requires
        forall|k: int| 0 <= k < exe.len() ==> exe[k] != '\n',
    ensures
        has_line(desktop_entry_of(exe), exec_line_of(exe)),
{
    reveal_strlit("[Desktop Entry]\nType=Application\nName=Hark\nComment=Push-to-talk voice dictation\n");
    reveal_strlit("\nIcon=hark\nTerminal=false\nCategories=Utility;AudioVideo;\nX-GNOME-Autostart-enabled=true\n");
    reveal_strlit("Exec=\"");
    reveal_strlit("\" --hidden");
    let head = entry_head();
    let line = exec_line_of(exe);
    let tail = entry_tail();
    let s = desktop_entry_of(exe);
    lemma_escaped_no_newline(exe);
    let pre = "Exec=\""@;
    let post = "\" --hidden"@;
    let mid = escaped(exe);
    assert(line == pre + mid + post);
    assert forall|k: int| 0 <= k < line.len() implies line[k] != '\n' by {
        if k < pre.len() {
            assert(line[k] == pre[k]);
        } else if k < pre.len() + mid.len() {
            assert(line[k] == mid[k - pre.len()]);
        } else {
            assert(line[k] == post[k - pre.len() - mid.len()]);
        }
    }
    let i = head.len() as int;
    let j = i + line.len();
    assert(s.subrange(i, j) == line);
    assert(s[i - 1] == head[i - 1]);
    assert(s[j] == tail[0]);
    assert forall|k: int| i <= k < j implies s[k] != '\n' by {
        assert(s[k] == line[k - i]);
    }
    assert(line[0] == 'E');
    assert(!is_ws(line[0]));
    assert(trim_start(line) == line);
    assert(line.last() == post.last());
    assert(!is_ws(line.last()));
    assert(trim(line) == line);
    assert(is_line(s, i, j));
}

fn v_slice(v: &Vec<char>, lo: usize, hi: usize) -> (r: Vec<char>)
    requires
        lo <= hi <= v@.len(),
    ensures
        r@ == v@.subrange(lo as int, hi as int),
{
    let mut r: Vec<char> = Vec::new();
    let mut k = lo;
    while k < hi
        invariant
            lo <= k <= hi,
            hi <= v@.len(),
            r@ == v@.subrange(lo as int, k as int),
        decreases hi - k,
    {
        r.push(v[k]);
        proof {
            assert(v@.subrange(lo as int, k + 1) == v@.subrange(lo as int, k as int).push(v@[k as int]));
        }
        k = k + 1;
    }
    r
}

} // verus!
