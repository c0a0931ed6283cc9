//! The kernel command line of the kexec installer, given or read from the
//! `kexec-boot` script of a NixOS kexec tree.
use vstd::prelude::*;
use vstd::string::*;

use crate::model::{AppError, KexecBootSource, SshCommand};
use crate::staging::{parent_of, path_parent};
use crate::text::{
    chars_of, char_is_whitespace, find, find_in, is_whitespace, lemma_find, owned, push_char,
    string_of_range, trim_start, trim_start_at,
};

verus! {

/// The option of `kexec` that carries the kernel command line.
pub const COMMAND_LINE_MARKER: &'static str = "--command-line";

/// The longest prefix of `s` without whitespace.
pub open spec fn first_word(s: Seq<char>) -> Seq<char>
    decreases s.len(),
{
    if s.len() == 0 || is_whitespace(s[0]) {
        Seq::empty()
    } else {
        seq![s[0]] + first_word(s.skip(1))
    }
}

/// The text of a quoted value up to its closing `quote`, after `acc`; a
/// backslash takes the next character as it is. `None` when the quote is
/// never closed.
pub open spec fn quoted_value(s: Seq<char>, quote: char, escaped: bool, acc: Seq<char>) -> Option<
    Seq<char>,
>
    decreases s.len(),
{
    if s.len() == 0 {
        None
    } else if escaped {
        quoted_value(s.skip(1), quote, false, acc.push(s[0]))
    } else if s[0] == '\\' {
        quoted_value(s.skip(1), quote, true, acc)
    } else if s[0] == quote {
        Some(acc)
    } else {
        quoted_value(s.skip(1), quote, false, acc.push(s[0]))
    }
}

/// The value after the first `--command-line` of a `kexec-boot` script: a
/// quoted value (single or double quotes), or else the next word.
pub open spec fn kexec_command_line(script: Seq<char>) -> Option<Seq<char>> {
    match find(script, COMMAND_LINE_MARKER@) {
        None => None,
        Some(k) => {
            let rest = trim_start(script.skip(k + COMMAND_LINE_MARKER@.len()));
            if rest.len() == 0 {
                None
            } else if rest[0] != '"' && rest[0] != '\'' {
                Some(first_word(rest))
            } else {
                quoted_value(rest.skip(1), rest[0], false, Seq::empty())
            }
        },
    }
}

/// Reads the kernel command line out of a `kexec-boot` script.
pub fn parse_kexec_boot_command_line(script: &str) -> (res: Option<String>)
    ensures
        res.deep_view() == kexec_command_line(script@),
{
    proof {
        reveal_strlit("--command-line");
    }
    let v = chars_of(script);
    let marker = chars_of(COMMAND_LINE_MARKER);
    let n = v.len();
    let k = match find_in(&v, &marker) {
        Some(k) => k,
        None => {
            return None;
        },
    };
    proof {
        lemma_find(v@, marker@);
    }
    let start = k + marker.len();
    let i = trim_start_at(&v, start);
    if i >= n {
        assert(v@.skip(i as int).len() == 0);
        return None;
    }
    let quote = v[i];
    if quote != '"' && quote != '\'' {
        let mut j = i;
        while j < n && !char_is_whitespace(v[j])
            invariant
                n == v@.len(),
                i <= j <= n,
                first_word(v@.skip(i as int)) == v@.subrange(i as int, j as int) + first_word(
                    v@.skip(j as int),
                ),
            decreases n - j,
        {
            assert(v@.skip(j as int).skip(1) =~= v@.skip(j + 1));
            assert(v@.subrange(i as int, j + 1) =~= v@.subrange(i as int, j as int) + seq![
                v@[j as int],
            ]);
            j += 1;
        }
        assert(first_word(v@.skip(j as int)) =~= Seq::<char>::empty());
        assert(first_word(v@.skip(i as int)) =~= v@.subrange(i as int, j as int));
        return Some(string_of_range(&v, i, j));
    }
    let mut value = String::new();
    let mut escaped = false;
    let mut j = i + 1;
    assert(v@.skip(i as int).skip(1) =~= v@.skip(j as int));
    while j < n
        invariant
            n == v@.len(),
            i < j <= n,
            quote == v@[i as int],
            kexec_command_line(script@) == quoted_value(v@.skip(j as int), quote, escaped, value@),
            v@ == script@,
        decreases n - j,
    {
        let c = v[j];
        assert(v@.skip(j as int).skip(1) =~= v@.skip(j + 1));
        assert(v@.skip(j as int)[0] == c);
        if escaped {
            push_char(&mut value, c);
            escaped = false;
        } else if c == '\\' {
            escaped = true;
        } else if c == quote {
            return Some(value);
        } else {
            push_char(&mut value, c);
        }
        j += 1;
    }
    None
}

/// `name` joined under `dir` as `Path::join` does for a plain file name on
/// Unix: nothing is put before it in an empty directory, and no second `/`
/// after a directory that already ends with one.
pub open spec fn joined(dir: Seq<char>, name: Seq<char>) -> Seq<char> {
    if dir.len() == 0 {
        name
    } else if dir.last() == '/' {
        dir + name
    } else {
        dir + "/"@ + name
    }
}

/// Where the `kexec-boot` script of a NixOS kexec tree sits: beside the
/// kernel, in the kernel's parent directory; `None` when it has none.
pub open spec fn kexec_boot_location(kernel: Seq<char>) -> Option<Seq<char>> {
    match path_parent(kernel) {
        Some(d) => Some(joined(d, "kexec-boot"@)),
        None => None,
    }
}

/// The path of the `kexec-boot` script beside the kernel.
pub fn kexec_boot_path(kernel: &str) -> (res: Option<String>)
    ensures
        res.deep_view() == kexec_boot_location(kernel@),
{
    proof {
        reveal_strlit("/");
    }
    match parent_of(kernel) {
        None => None,
        Some(dir) => {
            let v = chars_of(dir.as_str());
            let mut p = owned(dir.as_str());
            if v.len() == 0 {
                Some(owned("kexec-boot"))
            } else {
                if v[v.len() - 1] != '/' {
                    p.append("/");
                }
                p.append("kexec-boot");
                Some(p)
            }
        },
    }
}

/// The kernel command line for the installer.
pub open spec fn kexec_append_outcome(c: SshCommand, boot: KexecBootSource) -> Result<
    Seq<char>,
    Seq<char>,
> {
    match c.kexec_append {
        Some(a) => Ok(a@),
        None => match boot {
            KexecBootSource::NoParent => Err(
                "could not infer kexec command line; pass --kexec-append explicitly"@,
            ),
            KexecBootSource::Unreadable(path, error) => Err(
                "could not infer kexec command line from "@ + path@ + ": "@ + error@
                    + "; pass --kexec-append explicitly"@,
            ),
            KexecBootSource::Script(path, text) => match kexec_command_line(text@) {
                Some(line) => Ok(line),
                None => Err(
                    "could not find --command-line in "@ + path@
                        + "; pass --kexec-append explicitly"@,
                ),
            },
        },
    }
}

/// The kernel command line: the one given, else the one in the sibling
/// `kexec-boot` script.
pub fn effective_kexec_append(command: &SshCommand, boot: &KexecBootSource) -> (res: Result<
    String,
    AppError,
>)
    ensures
        match res {
            Ok(s) => kexec_append_outcome(*command, *boot) == Ok::<Seq<char>, Seq<char>>(s@),
            Err(e) => kexec_append_outcome(*command, *boot) == Err::<Seq<char>, Seq<char>>(
                e.text(),
            ),
        },
{
    if let Some(append) = &command.kexec_append {
        return Ok(owned(append.as_str()));
    }
    match boot {
        KexecBootSource::NoParent => Err(
            AppError::Message(
                owned("could not infer kexec command line; pass --kexec-append explicitly"),
            ),
        ),
        KexecBootSource::Unreadable(path, error) => {
            let mut m = owned("could not infer kexec command line from ");
            m.append(path.as_str());
            m.append(": ");
            m.append(error.as_str());
            m.append("; pass --kexec-append explicitly");
            Err(AppError::Message(m))
        },
        KexecBootSource::Script(path, text) => match parse_kexec_boot_command_line(text.as_str()) {
            Some(line) => Ok(line),
            None => {
                let mut m = owned("could not find --command-line in ");
                m.append(path.as_str());
                m.append("; pass --kexec-append explicitly");
                Err(AppError::Message(m))
            },
        },
    }
}

} // verus!
