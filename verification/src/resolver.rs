//! Shortcut (indirection) resolution: building the shell command that
//! reads a shortcut's stored target, and interpreting what the external
//! shell process produced.  Spawning the process is the caller's job; the
//! decision of what its outcome means is made — and verified — here.

use vstd::prelude::*;

verus! {

/// What the external shell process produced, as the caller captured it.
pub enum ShellOutcome {
    /// The process could not be started, or the platform has no such
    /// facility at all.
    NotRun,
    /// The process ran to completion: whether it exited successfully, and
    /// its captured standard output.
    Ran { exited_ok: bool, stdout: String },
}

/// Whitespace for the purposes of trimming captured process output:
/// the Unicode white-space set, as the platform's own trim treats it.
pub open spec fn is_space(c: char) -> bool {
    ||| c == '\u{09}'
    ||| c == '\u{0A}'
    ||| c == '\u{0B}'
    ||| c == '\u{0C}'
    ||| c == '\u{0D}'
    ||| c == ' '
    ||| c == '\u{85}'
    ||| c == '\u{A0}'
    ||| c == '\u{1680}'
    ||| ('\u{2000}' <= c && c <= '\u{200A}')
    ||| c == '\u{2028}'
    ||| c == '\u{2029}'
    ||| c == '\u{202F}'
    ||| c == '\u{205F}'
    ||| c == '\u{3000}'
}

/// `s` with leading whitespace removed.
pub open spec fn trim_front(s: Seq<char>) -> Seq<char>
    decreases s.len(),
{
    if s.len() > 0 && is_space(s[0]) {
        trim_front(s.drop_first())
    } else {
        s
    }
}

/// `s` with trailing whitespace removed.
pub open spec fn trim_back(s: Seq<char>) -> Seq<char>
    decreases s.len(),
{
    if s.len() > 0 && is_space(s.last()) {
        trim_back(s.drop_last())
    } else {
        s
    }
}

/// `s` with whitespace removed at both ends.
pub open spec fn trimmed(s: Seq<char>) -> Seq<char> {
    trim_back(trim_front(s))
}

proof fn lemma_trim_front_skip(s: Seq<char>, k: int)
    requires
        0 <= k <= s.len(),
        forall|i: int| 0 <= i < k ==> is_space(s[i]),
        k == s.len() || !is_space(s[k]),
    ensures
        trim_front(s) == s.skip(k),
    decreases k,
{
    if k == 0 {
        assert(s.skip(0) =~= s);
    } else {
        assert(is_space(s[0]));
        lemma_trim_front_skip(s.drop_first(), k - 1);
        assert(s.drop_first().skip(k - 1) =~= s.skip(k));
    }
}

proof fn lemma_trim_back_take(s: Seq<char>, k: int)
    requires
        0 <= k <= s.len(),
        forall|i: int| k <= i < s.len() ==> is_space(s[i]),
        k == 0 || !is_space(s[k - 1]),
    ensures
        trim_back(s) == s.take(k),
    decreases s.len(),
{
    if k == s.len() {
        assert(s.take(k) =~= s);
    } else {
        assert(is_space(s.last()));
        lemma_trim_back_take(s.drop_last(), k);
        assert(s.drop_last().take(k) =~= s.take(k));
    }
}

fn is_space_ex(c: char) -> (r: bool)
    ensures
        r == is_space(c),
{
    c == '\u{09}' || c == '\u{0A}' || c == '\u{0B}' || c == '\u{0C}' || c == '\u{0D}' || c == ' '
        || c == '\u{85}' || c == '\u{A0}' || c == '\u{1680}' || ('\u{2000}' <= c && c
        <= '\u{200A}') || c == '\u{2028}' || c == '\u{2029}' || c == '\u{202F}' || c == '\u{205F}'
        || c == '\u{3000}'
}

/// Removes whitespace from both ends of a string.
pub fn trim_spaces(s: &str) -> (r: String)
    ensures
        r@ == trimmed(s@),
{
    let n = s.unicode_len();
    let mut start: usize = 0;
    while start < n && is_space_ex(s.get_char(start))
        invariant
            start <= n,
            n == s@.len(),
            forall|k: int| 0 <= k < start ==> is_space(s@[k]),
        decreases n - start,
    {
        start = start + 1;
    }
    let mut end: usize = n;
    while end > start && is_space_ex(s.get_char(end - 1))
        invariant
            start <= end <= n,
            n == s@.len(),
            forall|k: int| end <= k < n ==> is_space(s@[k]),
        decreases end,
    {
        end = end - 1;
    }
    proof {
        lemma_trim_front_skip(s@, start as int);
        lemma_trim_back_take(s@.skip(start as int), end - start);
        assert(s@.skip(start as int).take(end - start) =~= s@.subrange(
            start as int,
            end as int,
        ));
    }
    let sub = s.substring_char(start, end);
    sub.to_owned()
}

/// Interprets the outcome of the external resolution process: the target
/// path is the trimmed output, and only a run that exited successfully
/// with non-blank output resolves to a target.
pub fn resolve_shortcut(outcome: &ShellOutcome) -> (r: Option<String>)
    ensures
        r is Some <==> (outcome matches ShellOutcome::Ran { exited_ok, stdout } && *exited_ok
            && trimmed(stdout@).len() > 0),
        r matches Some(t) ==> (outcome matches ShellOutcome::Ran { exited_ok, stdout } && t@
            == trimmed(stdout@)),
{
    match outcome {
        ShellOutcome::NotRun => None,
        ShellOutcome::Ran { exited_ok, stdout } => {
            if !*exited_ok {
                None
            } else {
                let t = trim_spaces(stdout.as_str());
                if t.as_str().unicode_len() == 0 {
                    None
                } else {
                    Some(t)
                }
            }
        },
    }
}

/// The script handed to the shell interpreter to read a shortcut's
/// stored target path.
pub fn shortcut_command(lnk_path: &str) -> (r: String)
    ensures
        r@ == "(New-Object -COM WScript.Shell).CreateShortcut('"@ + lnk_path@
            + "').TargetPath"@,
{
    let mut s = String::from_str("(New-Object -COM WScript.Shell).CreateShortcut('");
    s.append(lnk_path);
    s.append("').TargetPath");
    s
}

} // verus!
