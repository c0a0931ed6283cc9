//! What a reader of the rendered text gets back: a POSIX shell reading
//! quoted words and command lines, Nix reading a string literal, a URI
//! decoder reading a percent-encoded value, and the kernel command line of
//! a `kexec-boot` script; with the laws that each reading undoes the
//! writing, the alphabet of percent-encoding, and the closure copy's line.
use vstd::prelude::*;
use vstd::string::*;

use crate::quote::{
    all_shell_safe, hex_digit, is_shell_safe, is_unreserved, nix_quoted, percent_byte,
    percent_encoded, shell_quoted,
};
use crate::commands::{rendered, RAW_SCRIPT_SENTINEL};
use crate::commands::{copy_system_script, nix_copy_line, opts};
use crate::model::{CommandModel, SshCommand};
use crate::quote::shell_line;
use crate::kexec::{kexec_command_line, quoted_value, COMMAND_LINE_MARKER};
use crate::text::{find, is_whitespace, lemma_find, replace, seq_join, trim_start};

verus! {

// ---------------------------------------------------------------------------
// Reading a shell word
// ---------------------------------------------------------------------------

/// Prepends `c` to what was read, if anything was.
pub open spec fn prepend(c: char, r: Option<Seq<char>>) -> Option<Seq<char>> {
    match r {
        Some(t) => Some(seq![c] + t),
        None => None,
    }
}

/// The value a POSIX shell reads from `w`, outside any quotes, as one word
/// made of characters that need no quoting, `'...'` spans, and `"..."`
/// spans without `\`, `$` or a backquote; `None` for anything else.
pub open spec fn read_unquoted(w: Seq<char>) -> Option<Seq<char>>
    decreases w.len(), 0int,
{
    if w.len() == 0 {
        Some(Seq::empty())
    } else if w[0] == '\'' {
        read_single_quoted(w.skip(1))
    } else if w[0] == '"' {
        read_double_quoted(w.skip(1))
    } else if is_shell_safe(w[0]) {
        prepend(w[0], read_unquoted(w.skip(1)))
    } else {
        None
    }
}

/// The rest of a word read inside `'...'`: every character stands for
/// itself up to the closing `'`.
pub open spec fn read_single_quoted(w: Seq<char>) -> Option<Seq<char>>
    decreases w.len(), 1int,
{
    if w.len() == 0 {
        None
    } else if w[0] == '\'' {
        read_unquoted(w.skip(1))
    } else {
        prepend(w[0], read_single_quoted(w.skip(1)))
    }
}

/// The rest of a word read inside `"..."`, up to the closing `"`.
pub open spec fn read_double_quoted(w: Seq<char>) -> Option<Seq<char>>
    decreases w.len(), 1int,
{
    if w.len() == 0 {
        None
    } else if w[0] == '"' {
        read_unquoted(w.skip(1))
    } else if w[0] == '\\' || w[0] == '$' || w[0] == '`' {
        None
    } else {
        prepend(w[0], read_double_quoted(w.skip(1)))
    }
}

proof fn lemma_read_safe(s: Seq<char>)
    requires
        all_shell_safe(s),
    ensures
        read_unquoted(s) == Some(s),
    decreases s.len(),
{
    if s.len() > 0 {
        assert(is_shell_safe(s[0]));
        assert(all_shell_safe(s.skip(1))) by {
            assert forall|i: int| 0 <= i < s.skip(1).len() implies #[trigger] is_shell_safe(
                s.skip(1)[i],
            ) by {
                assert(s.skip(1)[i] == s[i + 1]);
            }
        }
        lemma_read_safe(s.skip(1));
        assert(seq![s[0]] + s.skip(1) =~= s);
    }
}

proof fn lemma_read_single_quoted_escaped(s: Seq<char>)
    ensures
        read_single_quoted(replace(s, "'"@, "'\"'\"'"@) + "'"@) == Some(s),
    decreases s.len(),
{
    reveal_strlit("'");
    reveal_strlit("'\"'\"'");
    let q = "'\"'\"'"@;
    let w = replace(s, "'"@, q) + "'"@;
    if s.len() == 0 {
        assert(w =~= seq!['\'']);
        assert(w.skip(1) =~= Seq::<char>::empty());
        assert(s =~= Seq::<char>::empty());
        assert(read_unquoted(w.skip(1)) == Some(Seq::<char>::empty()));
    } else {
        let t = s.skip(1);
        lemma_read_single_quoted_escaped(t);
        let rest = replace(t, "'"@, q) + "'"@;
        if s[0] == '\'' {
            assert(s.take(1) =~= "'"@);
            assert(w =~= q + rest);
            assert(w.skip(1) =~= seq!['"', '\'', '"'] + seq!['\''] + rest);
            assert(w.skip(1).skip(1) =~= seq!['\'', '"'] + seq!['\''] + rest);
            assert(w.skip(1).skip(1).skip(1) =~= seq!['"'] + seq!['\''] + rest);
            assert(w.skip(1).skip(1).skip(1).skip(1) =~= seq!['\''] + rest);
            assert(w.skip(1).skip(1).skip(1).skip(1).skip(1) =~= rest);
            let w1 = w.skip(1);
            let w2 = w1.skip(1);
            let w3 = w2.skip(1);
            let w4 = w3.skip(1);
            assert(read_single_quoted(w4.skip(1)) == Some(t));
            assert(read_unquoted(w4) == Some(t));
            assert(read_double_quoted(w3) == Some(t));
            assert(read_double_quoted(w2) == Some(seq!['\''] + t));
            assert(read_unquoted(w1) == Some(seq!['\''] + t));
            assert(seq!['\''] + t =~= s);
            assert(w[0] == '\'');
            assert(read_single_quoted(w) == Some(s));
        } else {
            assert(s.take(1) != "'"@) by {
                assert(s.take(1)[0] == s[0]);
            }
            assert(w =~= seq![s[0]] + rest);
            assert(w.skip(1) =~= rest);
            assert(seq![s[0]] + t =~= s);
            assert(w[0] == s[0]);
            assert(read_single_quoted(w) == Some(s));
        }
    }
}

/// A word quoted by `shell_quote` reads back as the value it quotes.
pub proof fn law_shell_quote_reads_back(s: Seq<char>)
    ensures
        read_unquoted(shell_quoted(s)) == Some(s),
{
    reveal(shell_quoted);
    reveal_strlit("'");
    if all_shell_safe(s) {
        lemma_read_safe(s);
    } else {
        let w = "'"@ + replace(s, "'"@, "'\"'\"'"@) + "'"@;
        lemma_read_single_quoted_escaped(s);
        assert(w.skip(1) =~= replace(s, "'"@, "'\"'\"'"@) + "'"@);
    }
}

// ---------------------------------------------------------------------------
// Reading a shell command line
// ---------------------------------------------------------------------------

/// The words read so far, with the word in progress if one has started.
pub open spec fn finish_word(done: Seq<Seq<char>>, cur: Option<Seq<char>>) -> Seq<Seq<char>> {
    match cur {
        Some(c) => done.push(c),
        None => done,
    }
}

/// The words a POSIX shell reads from a command line made of the same
/// pieces as [`read_unquoted`]'s words, separated by unquoted spaces.
/// `cur` is the word in progress, `done` the words already read.
pub open spec fn line_unquoted(w: Seq<char>, cur: Option<Seq<char>>, done: Seq<Seq<char>>) -> Option<
    Seq<Seq<char>>,
>
    decreases w.len(), 0int,
{
    if w.len() == 0 {
        Some(finish_word(done, cur))
    } else if w[0] == ' ' {
        line_unquoted(w.skip(1), None, finish_word(done, cur))
    } else if w[0] == '\'' {
        line_single_quoted(w.skip(1), cur.unwrap_or(Seq::empty()), done)
    } else if w[0] == '"' {
        line_double_quoted(w.skip(1), cur.unwrap_or(Seq::empty()), done)
    } else if is_shell_safe(w[0]) {
        line_unquoted(w.skip(1), Some(cur.unwrap_or(Seq::empty()).push(w[0])), done)
    } else {
        None
    }
}

pub open spec fn line_single_quoted(w: Seq<char>, cur: Seq<char>, done: Seq<Seq<char>>) -> Option<
    Seq<Seq<char>>,
>
    decreases w.len(), 1int,
{
    if w.len() == 0 {
        None
    } else if w[0] == '\'' {
        line_unquoted(w.skip(1), Some(cur), done)
    } else {
        line_single_quoted(w.skip(1), cur.push(w[0]), done)
    }
}

pub open spec fn line_double_quoted(w: Seq<char>, cur: Seq<char>, done: Seq<Seq<char>>) -> Option<
    Seq<Seq<char>>,
>
    decreases w.len(), 1int,
{
    if w.len() == 0 {
        None
    } else if w[0] == '"' {
        line_unquoted(w.skip(1), Some(cur), done)
    } else if w[0] == '\\' || w[0] == '$' || w[0] == '`' {
        None
    } else {
        line_double_quoted(w.skip(1), cur.push(w[0]), done)
    }
}

/// The arguments a shell reads from the command line `w`.
pub open spec fn read_command_line(w: Seq<char>) -> Option<Seq<Seq<char>>> {
    line_unquoted(w, None, Seq::empty())
}

proof fn lemma_line_safe(a: Seq<char>, rest: Seq<char>, cur: Option<Seq<char>>, done: Seq<Seq<char>>)
    requires
        a.len() > 0,
        all_shell_safe(a),
    ensures
        line_unquoted(a + rest, cur, done) == line_unquoted(
            rest,
            Some(cur.unwrap_or(Seq::empty()) + a),
            done,
        ),
    decreases a.len(),
{
    let w = a + rest;
    assert(is_shell_safe(a[0]));
    assert(a[0] != ' ' && a[0] != '\'' && a[0] != '"');
    assert(w.skip(1) =~= a.skip(1) + rest);
    let next = Some(cur.unwrap_or(Seq::empty()).push(a[0]));
    if a.len() == 1 {
        assert(a.skip(1) + rest =~= rest);
        assert(cur.unwrap_or(Seq::empty()).push(a[0]) =~= cur.unwrap_or(Seq::empty()) + a);
    } else {
        assert(all_shell_safe(a.skip(1))) by {
            assert forall|i: int| 0 <= i < a.skip(1).len() implies #[trigger] is_shell_safe(
                a.skip(1)[i],
            ) by {
                assert(a.skip(1)[i] == a[i + 1]);
            }
        }
        lemma_line_safe(a.skip(1), rest, next, done);
        assert(cur.unwrap_or(Seq::empty()).push(a[0]) + a.skip(1) =~= cur.unwrap_or(Seq::empty())
            + a);
    }
}

proof fn lemma_line_single_quoted_escaped(
    a: Seq<char>,
    rest: Seq<char>,
    cur: Seq<char>,
    done: Seq<Seq<char>>,
)
    ensures
        line_single_quoted(replace(a, "'"@, "'\"'\"'"@) + "'"@ + rest, cur, done) == line_unquoted(
            rest,
            Some(cur + a),
            done,
        ),
    decreases a.len(),
{
    reveal_strlit("'");
    reveal_strlit("'\"'\"'");
    let q = "'\"'\"'"@;
    let w = replace(a, "'"@, q) + "'"@ + rest;
    if a.len() == 0 {
        assert(w =~= seq!['\''] + rest);
        assert(w.skip(1) =~= rest);
        assert(cur + a =~= cur);
    } else {
        let t = a.skip(1);
        let tail = replace(t, "'"@, q) + "'"@ + rest;
        if a[0] == '\'' {
            lemma_line_single_quoted_escaped(t, rest, cur.push('\''), done);
            assert(a.take(1) =~= "'"@);
            assert(w =~= q + tail);
            let w1 = w.skip(1);
            let w2 = w1.skip(1);
            let w3 = w2.skip(1);
            let w4 = w3.skip(1);
            assert(w1 =~= seq!['"', '\'', '"'] + seq!['\''] + tail);
            assert(w2 =~= seq!['\'', '"'] + seq!['\''] + tail);
            assert(w3 =~= seq!['"'] + seq!['\''] + tail);
            assert(w4 =~= seq!['\''] + tail);
            assert(w4.skip(1) =~= tail);
            assert(line_single_quoted(w4.skip(1), cur.push('\''), done) == line_unquoted(
                rest,
                Some(cur.push('\'') + t),
                done,
            ));
            assert(line_unquoted(w4, Some(cur.push('\'')), done) == line_single_quoted(
                w4.skip(1),
                cur.push('\''),
                done,
            ));
            assert(line_double_quoted(w3, cur.push('\''), done) == line_unquoted(
                w4,
                Some(cur.push('\'')),
                done,
            ));
            assert(line_double_quoted(w2, cur, done) == line_double_quoted(
                w3,
                cur.push('\''),
                done,
            ));
            assert(line_unquoted(w1, Some(cur), done) == line_double_quoted(w2, cur, done));
            assert(cur.push('\'') + t =~= cur + a);
        } else {
            lemma_line_single_quoted_escaped(t, rest, cur.push(a[0]), done);
            assert(a.take(1) != "'"@) by {
                assert(a.take(1)[0] == a[0]);
            }
            assert(w =~= seq![a[0]] + tail);
            assert(w.skip(1) =~= tail);
            assert(cur.push(a[0]) + t =~= cur + a);
        }
    }
}

proof fn lemma_line_word(a: Seq<char>, rest: Seq<char>, done: Seq<Seq<char>>)
    requires
        a.len() > 0,
    ensures
        line_unquoted(shell_quoted(a) + rest, None, done) == line_unquoted(rest, Some(a), done),
{
    reveal(shell_quoted);
    reveal_strlit("'");
    if all_shell_safe(a) {
        lemma_line_safe(a, rest, None, done);
        assert(Seq::<char>::empty() + a =~= a);
    } else {
        let w = "'"@ + replace(a, "'"@, "'\"'\"'"@) + "'"@ + rest;
        lemma_line_single_quoted_escaped(a, rest, Seq::empty(), done);
        assert(shell_quoted(a) + rest =~= w);
        assert(w.skip(1) =~= replace(a, "'"@, "'\"'\"'"@) + "'"@ + rest);
        assert(Seq::<char>::empty() + a =~= a);
    }
}

proof fn lemma_seq_join_front(list: Seq<Seq<char>>, sep: Seq<char>)
    requires
        list.len() >= 2,
    ensures
        seq_join(list, sep) == list[0] + sep + seq_join(list.skip(1), sep),
    decreases list.len(),
{
    if list.len() > 2 {
        let dl = list.drop_last();
        lemma_seq_join_front(dl, sep);
        assert(dl.skip(1) =~= list.skip(1).drop_last());
        assert(list.skip(1).last() == list.last());
        assert(dl[0] == list[0]);
        assert(seq_join(list.skip(1), sep) == seq_join(dl.skip(1), sep) + sep + list.last());
        assert(seq_join(list, sep) == seq_join(dl, sep) + sep + list.last());
        assert(seq_join(list, sep) =~= list[0] + sep + seq_join(list.skip(1), sep));
    } else {
        assert(list.skip(1).len() == 1);
        assert(list.drop_last().len() == 1);
        assert(seq_join(list.drop_last(), sep) == list[0]);
        assert(seq_join(list.skip(1), sep) == list[1]);
    }
}

proof fn lemma_read_words(args: Seq<Seq<char>>, done: Seq<Seq<char>>)
    requires
        args.len() > 0,
        forall|i: int| 0 <= i < args.len() ==> #[trigger] args[i].len() > 0,
    ensures
        line_unquoted(shell_line(args), None, done) == Some(done + args),
    decreases args.len(),
{
    let quoted = args.map_values(|a: Seq<char>| shell_quoted(a));
    if args.len() == 1 {
        lemma_line_word(args[0], Seq::empty(), done);
        assert(shell_line(args) == quoted[0]);
        assert(shell_quoted(args[0]) + Seq::<char>::empty() =~= shell_quoted(args[0]));
        assert(done.push(args[0]) =~= done + args);
    } else {
        let rest = args.skip(1);
        lemma_read_words(rest, done.push(args[0]));
        lemma_seq_join_front(quoted, " "@);
        reveal_strlit(" ");
        assert(quoted.skip(1) =~= rest.map_values(|a: Seq<char>| shell_quoted(a)));
        let tail = shell_line(rest);
        assert(shell_line(args) =~= shell_quoted(args[0]) + (seq![' '] + tail));
        lemma_line_word(args[0], seq![' '] + tail, done);
        assert((seq![' '] + tail).skip(1) =~= tail);
        assert(done.push(args[0]) + rest =~= done + args);
    }
}

/// A command line rendered from arguments that are not empty reads back
/// as those arguments: the script runs exactly the planned argv.
pub proof fn law_command_line_reads_back(args: Seq<Seq<char>>)
    requires
        forall|i: int| 0 <= i < args.len() ==> #[trigger] args[i].len() > 0,
    ensures
        read_command_line(shell_line(args)) == Some(args),
{
    if args.len() == 0 {
        assert(shell_line(args) =~= Seq::<char>::empty());
        assert(Seq::<Seq<char>>::empty() =~= args);
    } else {
        lemma_read_words(args, Seq::empty());
        assert(Seq::<Seq<char>>::empty() + args =~= args);
    }
}

/// A command shown in a script that is not a raw shell fragment reads back
/// as its argv when no argument is empty: the script runs what the plan
/// lists.
pub proof fn law_rendered_command_reads_back(cmd: CommandModel)
    requires
        !(cmd.argv.len() > 0 && cmd.argv[0] == RAW_SCRIPT_SENTINEL@),
        forall|i: int| 0 <= i < cmd.argv.len() ==> #[trigger] cmd.argv[i].len() > 0,
    ensures
        read_command_line(rendered(cmd)) == Some(cmd.argv),
{
    law_command_line_reads_back(cmd.argv);
}

proof fn lemma_line_word_after(a: Seq<char>, rest: Seq<char>, cur: Option<Seq<char>>, done: Seq<Seq<char>>)
    requires
        a.len() > 0,
    ensures
        line_unquoted(shell_quoted(a) + rest, cur, done) == line_unquoted(
            rest,
            Some(cur.unwrap_or(Seq::empty()) + a),
            done,
        ),
{
    reveal(shell_quoted);
    reveal_strlit("'");
    if all_shell_safe(a) {
        lemma_line_safe(a, rest, cur, done);
    } else {
        let w = "'"@ + replace(a, "'"@, "'\"'\"'"@) + "'"@ + rest;
        lemma_line_single_quoted_escaped(a, rest, cur.unwrap_or(Seq::empty()), done);
        assert(shell_quoted(a) + rest =~= w);
        assert(w.skip(1) =~= replace(a, "'"@, "'\"'\"'"@) + "'"@ + rest);
    }
}

proof fn lemma_line_space(rest: Seq<char>, cur: Option<Seq<char>>, done: Seq<Seq<char>>)
    ensures
        line_unquoted(seq![' '] + rest, cur, done) == line_unquoted(rest, None, finish_word(done, cur)),
{
    assert((seq![' '] + rest).skip(1) =~= rest);
}

/// The words of the kexec line: load `kernel` with `initrd` and the kernel
/// command line `append` (no word for an empty command line).
pub open spec fn kexec_words(kernel: Seq<char>, initrd: Seq<char>, append: Seq<char>) -> Seq<
    Seq<char>,
> {
    seq!["kexec"@, "-l"@, kernel, "--initrd="@ + initrd, "--append"@] + (if append.len() > 0 {
        seq![append]
    } else {
        Seq::empty()
    })
}

/// The line `kexec -l KERNEL --initrd=INITRD --append APPEND`, each value
/// quoted, reads back as those words.
pub proof fn lemma_kexec_line_reads_back(kernel: Seq<char>, initrd: Seq<char>, append: Seq<char>)
    requires
        kernel.len() > 0,
        initrd.len() > 0,
    ensures
        read_command_line(
            "kexec -l "@ + shell_quoted(kernel) + " --initrd="@ + shell_quoted(initrd)
                + " --append "@ + shell_quoted(append),
        ) == Some(kexec_words(kernel, initrd, append)),
{
    reveal_strlit("kexec -l ");
    reveal_strlit(" --initrd=");
    reveal_strlit(" --append ");
    reveal_strlit("kexec");
    reveal_strlit("-l");
    reveal_strlit("--initrd=");
    reveal_strlit("--append");
    let qk = shell_quoted(kernel);
    let qi = shell_quoted(initrd);
    let qa = shell_quoted(append);
    let sp = seq![' '];
    let w_kexec = "kexec"@;
    let w_l = "-l"@;
    let w_initrd = "--initrd="@;
    let w_append = "--append"@;
    assert(all_shell_safe(w_kexec));
    assert(all_shell_safe(w_l));
    assert(all_shell_safe(w_initrd));
    assert(all_shell_safe(w_append));
    let r6 = qa;
    let r5 = sp + r6;
    let r4 = w_append + r5;
    let r3 = sp + r4;
    let r2b = qi + r3;
    let r2 = w_initrd + r2b;
    let r1b = sp + r2;
    let r1 = qk + r1b;
    let r0c = sp + r1;
    let r0b = w_l + r0c;
    let r0a = sp + r0b;
    let r0 = w_kexec + r0a;
    let line = "kexec -l "@ + qk + " --initrd="@ + qi + " --append "@ + qa;
    assert(line =~= r0);
    let e = Seq::<char>::empty();
    let d0 = Seq::<Seq<char>>::empty();
    lemma_line_safe(w_kexec, r0a, None, d0);
    assert(e + w_kexec =~= w_kexec);
    lemma_line_space(r0b, Some(w_kexec), d0);
    let d1 = d0.push(w_kexec);
    lemma_line_safe(w_l, r0c, None, d1);
    assert(e + w_l =~= w_l);
    lemma_line_space(r1, Some(w_l), d1);
    let d2 = d1.push(w_l);
    lemma_line_word_after(kernel, r1b, None, d2);
    assert(e + kernel =~= kernel);
    lemma_line_space(r2, Some(kernel), d2);
    let d3 = d2.push(kernel);
    lemma_line_safe(w_initrd, r2b, None, d3);
    assert(e + w_initrd =~= w_initrd);
    lemma_line_word_after(initrd, r3, Some(w_initrd), d3);
    lemma_line_space(r4, Some(w_initrd + initrd), d3);
    let d4 = d3.push(w_initrd + initrd);
    lemma_line_safe(w_append, r5, None, d4);
    assert(e + w_append =~= w_append);
    lemma_line_space(r6, Some(w_append), d4);
    let d5 = d4.push(w_append);
    if append.len() > 0 {
        lemma_line_word_after(append, e, None, d5);
        assert(qa + e =~= qa);
        assert(e + append =~= append);
        assert(line_unquoted(e, Some(append), d5) == Some(d5.push(append)));
        assert(d5.push(append) =~= kexec_words(kernel, initrd, append));
    } else {
        reveal(shell_quoted);
        assert(append =~= e);
        assert(all_shell_safe(append));
        assert(qa =~= e);
        assert(d5 =~= kexec_words(kernel, initrd, append));
    }
}

// ---------------------------------------------------------------------------
// The closure copy
// ---------------------------------------------------------------------------

/// The store that `nix copy` writes to: the mounted target root over SSH.
pub open spec fn target_store_uri(c: SshCommand) -> Seq<char> {
    "ssh-ng://"@ + c.target@ + "?remote-store="@ + percent_encoded(
        vstd::utf8::encode_utf8("local?root="@ + c.target_root@),
    )
}

proof fn lemma_safe_word(w: Seq<char>)
    requires
        all_shell_safe(w),
    ensures
        shell_quoted(w) == w,
{
    reveal(shell_quoted);
}

proof fn lemma_nix_copy_words()
    ensures
        shell_quoted("nix"@) == "nix"@,
        shell_quoted("copy"@) == "copy"@,
        shell_quoted("--no-check-sigs"@) == "--no-check-sigs"@,
        shell_quoted("--to"@) == "--to"@,
{
    reveal_strlit("nix");
    reveal_strlit("copy");
    reveal_strlit("--no-check-sigs");
    reveal_strlit("--to");
    assert(all_shell_safe("nix"@));
    assert(all_shell_safe("copy"@));
    assert(all_shell_safe("--no-check-sigs"@)) by {
        assert forall|i: int| 0 <= i < "--no-check-sigs"@.len() implies #[trigger] is_shell_safe(
            "--no-check-sigs"@[i],
        ) by {}
    }
    assert(all_shell_safe("--to"@));
    lemma_safe_word("nix"@);
    lemma_safe_word("copy"@);
    lemma_safe_word("--no-check-sigs"@);
    lemma_safe_word("--to"@);
}

/// The closure copy runs `nix copy --no-check-sigs --to` the mounted target
/// root's store over SSH (the root percent-encoded in the store URI), with
/// the store and the closure quoted as one word each, and with the SSH
/// options passed through `NIX_SSHOPTS` exactly when there are any.
pub proof fn law_copy_system_command_line(c: SshCommand, system: Seq<char>)
    ensures
        copy_system_script(c, system) == (if c.ssh_options@.len() == 0 {
            Seq::empty()
        } else {
            "NIX_SSHOPTS="@ + shell_quoted(seq_join(opts(c), " "@)) + " "@
        }) + "nix copy --no-check-sigs --to "@ + shell_quoted(target_store_uri(c)) + " "@
            + shell_quoted(system),
        (copy_system_script(c, system).len() >= 12 && copy_system_script(c, system).take(12)
            == "NIX_SSHOPTS="@) <==> c.ssh_options@.len() > 0,
{
    lemma_nix_copy_words();
    reveal_strlit(" ");
    reveal_strlit("nix copy --no-check-sigs --to ");
    reveal_strlit("NIX_SSHOPTS=");
    let words = seq!["nix"@, "copy"@, "--no-check-sigs"@, "--to"@, target_store_uri(c), system];
    let qs = words.map_values(|a: Seq<char>| shell_quoted(a));
    assert(qs =~= seq!["nix"@, "copy"@, "--no-check-sigs"@, "--to"@, shell_quoted(target_store_uri(c)), shell_quoted(system)]);
    let sp = " "@;
    let q1 = qs.skip(1);
    let q2 = q1.skip(1);
    let q3 = q2.skip(1);
    let q4 = q3.skip(1);
    let q5 = q4.skip(1);
    lemma_seq_join_front(qs, sp);
    lemma_seq_join_front(q1, sp);
    lemma_seq_join_front(q2, sp);
    lemma_seq_join_front(q3, sp);
    lemma_seq_join_front(q4, sp);
    assert(q5.len() == 1 && q5[0] == shell_quoted(system));
    assert(seq_join(q5, sp) == shell_quoted(system));
    assert(q4[0] == shell_quoted(target_store_uri(c)));
    assert(q3[0] == "--to"@ && q2[0] == "--no-check-sigs"@ && q1[0] == "copy"@ && qs[0] == "nix"@);
    reveal_strlit("nix");
    reveal_strlit("copy");
    reveal_strlit("--no-check-sigs");
    reveal_strlit("--to");
    assert("nix copy --no-check-sigs --to "@ =~= "nix"@ + sp + "copy"@ + sp + "--no-check-sigs"@ + sp
        + "--to"@ + sp);
    let line = nix_copy_line(c, system);
    assert(line == shell_line(words));
    assert(line == seq_join(qs, sp));
    assert(seq_join(qs, sp) == "nix"@ + sp + ("copy"@ + sp + ("--no-check-sigs"@ + sp + ("--to"@
        + sp + (shell_quoted(target_store_uri(c)) + sp + shell_quoted(system))))));
    assert(line =~= "nix copy --no-check-sigs --to "@ + shell_quoted(target_store_uri(c)) + " "@
        + shell_quoted(system));
    let pre: Seq<char> = if c.ssh_options@.len() == 0 {
        Seq::empty()
    } else {
        "NIX_SSHOPTS="@ + shell_quoted(seq_join(opts(c), " "@)) + " "@
    };
    assert(copy_system_script(c, system) =~= pre + line);
    let scr = copy_system_script(c, system);
    if c.ssh_options@.len() == 0 {
        assert(scr =~= line);
        if scr.len() >= 12 && scr.take(12) == "NIX_SSHOPTS="@ {
            assert(scr[0] == 'n');
            assert(scr.take(12)[0] == 'N');
        }
    } else {
        assert(scr.take(12) =~= "NIX_SSHOPTS="@);
    }
}

// ---------------------------------------------------------------------------
// The kernel command line of a kexec-boot script
// ---------------------------------------------------------------------------

/// Whether `pat` occurs in `s`.
pub open spec fn occurs_in(pat: Seq<char>, s: Seq<char>) -> bool {
    exists|j: int| 0 <= j && j + pat.len() <= s.len() && #[trigger] s.subrange(j, j + pat.len()) == pat
}

proof fn lemma_quoted_value_plain(v: Seq<char>, rest: Seq<char>, acc: Seq<char>)
    requires
        forall|i: int| 0 <= i < v.len() ==> #[trigger] v[i] != '"' && v[i] != '\\',
    ensures
        quoted_value(v + seq!['"'] + rest, '"', false, acc) == Some(acc + v),
    decreases v.len(),
{
    let w = v + seq!['"'] + rest;
    if v.len() == 0 {
        assert(w[0] == '"');
        assert(acc + v =~= acc);
    } else {
        let t = v.skip(1);
        assert forall|i: int| 0 <= i < t.len() implies #[trigger] t[i] != '"' && t[i] != '\\' by {
            assert(t[i] == v[i + 1]);
        }
        lemma_quoted_value_plain(t, rest, acc.push(v[0]));
        assert(w[0] == v[0]);
        assert(w.skip(1) =~= t + seq!['"'] + rest);
        assert(acc.push(v[0]) + t =~= acc + v);
    }
}

proof fn lemma_marker_found(prefix: Seq<char>, rest: Seq<char>)
    requires
        !occurs_in(COMMAND_LINE_MARKER@, prefix),
    ensures
        find(prefix + COMMAND_LINE_MARKER@ + rest, COMMAND_LINE_MARKER@) == Some(prefix.len() as int),
{
    reveal_strlit("--command-line");
    let m = COMMAND_LINE_MARKER@;
    let s = prefix + m + rest;
    let p = prefix.len() as int;
    lemma_find(s, m);
    assert(s.subrange(p, p + 14) =~= m);
    match find(s, m) {
        None => {
            assert(s.subrange(p, p + m.len()) != m);
        },
        Some(k) => {
            if k < p {
                assert(s.subrange(k, k + 14) == m);
                if k + 14 <= p {
                    assert(prefix.subrange(k, k + 14) =~= s.subrange(k, k + 14));
                    assert(occurs_in(m, prefix));
                } else {
                    let d = p - k;
                    assert(s[p] == m[0]);
                    assert(s[p] == s.subrange(k, k + 14)[d]);
                    assert(s[p + 1] == m[1]);
                    assert(s[p + 1] == s.subrange(k, k + 14)[d + 1]);
                    assert(m[d] == '-');
                    assert(m[d + 1] == '-');
                }
            } else if k > p {
                assert(s.subrange(p, p + m.len()) != m);
            }
        },
    }
}

/// A `kexec-boot` script whose first `--command-line` is followed by a
/// space and a double-quoted value without `"` or `\\` gives that value
/// as the kernel command line, whatever follows it.
pub proof fn law_kexec_command_line_reads_back(prefix: Seq<char>, v: Seq<char>, suffix: Seq<char>)
    requires
        !occurs_in(COMMAND_LINE_MARKER@, prefix),
        forall|i: int| 0 <= i < v.len() ==> #[trigger] v[i] != '"' && v[i] != '\\',
    ensures
        kexec_command_line(prefix + "--command-line \""@ + v + "\""@ + suffix) == Some(v),
{
    reveal_strlit("--command-line");
    reveal_strlit("--command-line \"");
    reveal_strlit("\"");
    let m = COMMAND_LINE_MARKER@;
    let tail = seq![' ', '"'] + v + seq!['"'] + suffix;
    let script = prefix + "--command-line \""@ + v + "\""@ + suffix;
    assert(script =~= prefix + m + tail);
    lemma_marker_found(prefix, tail);
    let p = prefix.len() as int;
    assert(script.skip(p + m.len()) =~= tail);
    let rest = seq!['"'] + v + seq!['"'] + suffix;
    assert(tail.skip(1) =~= rest);
    assert(is_whitespace(tail[0]));
    assert(!is_whitespace(rest[0]));
    assert(trim_start(rest) == rest);
    assert(trim_start(tail) == rest);
    assert(rest.skip(1) =~= v + seq!['"'] + suffix);
    lemma_quoted_value_plain(v, suffix, Seq::empty());
    assert(Seq::<char>::empty() + v =~= v);
}

// ---------------------------------------------------------------------------
// Percent-decoding
// ---------------------------------------------------------------------------

/// The value of a hexadecimal digit, either case.
pub open spec fn hex_value(c: char) -> Option<int> {
    if '0' <= c && c <= '9' {
        Some(c as int - 0x30)
    } else if 'A' <= c && c <= 'F' {
        Some(c as int - 0x37)
    } else if 'a' <= c && c <= 'f' {
        Some(c as int - 0x57)
    } else {
        None
    }
}

/// Prepends the byte `b` to what was decoded, if anything was.
pub open spec fn prepend_byte(b: u8, r: Option<Seq<u8>>) -> Option<Seq<u8>> {
    match r {
        Some(t) => Some(seq![b] + t),
        None => None,
    }
}

/// The bytes of a percent-encoded URI query value: `%` and two hexadecimal
/// digits stand for one byte, an unreserved ASCII character for itself;
/// `None` for anything else.
pub open spec fn percent_decoded(w: Seq<char>) -> Option<Seq<u8>>
    decreases w.len(),
{
    if w.len() == 0 {
        Some(Seq::empty())
    } else if w[0] == '%' {
        if w.len() < 3 {
            None
        } else {
            match (hex_value(w[1]), hex_value(w[2])) {
                (Some(h), Some(l)) => prepend_byte((16 * h + l) as u8, percent_decoded(w.skip(3))),
                _ => None,
            }
        }
    } else if (w[0] as int) < 0x80 && is_unreserved(w[0] as u8) {
        prepend_byte(w[0] as u8, percent_decoded(w.skip(1)))
    } else {
        None
    }
}

proof fn lemma_percent_encoded_front(b: u8, t: Seq<u8>)
    ensures
        percent_encoded(seq![b] + t) == percent_byte(b) + percent_encoded(t),
    decreases t.len(),
{
    let s = seq![b] + t;
    if t.len() == 0 {
        assert(s.drop_last() =~= Seq::<u8>::empty());
        assert(percent_encoded(Seq::<u8>::empty()) =~= Seq::<char>::empty());
        assert(percent_byte(b) + percent_encoded(t) =~= percent_byte(b));
    } else {
        lemma_percent_encoded_front(b, t.drop_last());
        assert(s.drop_last() =~= seq![b] + t.drop_last());
        assert(s.last() == t.last());
        assert(percent_encoded(s) =~= percent_byte(b) + percent_encoded(t.drop_last()) + percent_byte(
            t.last(),
        ));
    }
}

proof fn lemma_hex_digit_value(d: u8)
    requires
        d < 16,
    ensures
        hex_value(hex_digit(d)) == Some(d as int),
{
}

proof fn lemma_percent_decode_front(b: u8, rest: Seq<char>)
    ensures
        percent_decoded(percent_byte(b) + rest) == prepend_byte(b, percent_decoded(rest)),
{
    let w = percent_byte(b) + rest;
    if is_unreserved(b) {
        assert(w[0] == b as char);
        assert(w.skip(1) =~= rest);
    } else {
        lemma_hex_digit_value(b / 16);
        lemma_hex_digit_value(b % 16);
        assert(w[0] == '%' && w[1] == hex_digit(b / 16) && w[2] == hex_digit(b % 16));
        assert(w.skip(3) =~= rest);
        assert((16 * ((b / 16) as int) + (b % 16) as int) as u8 == b);
    }
}

/// Percent-decoding gives back the bytes that were percent-encoded.
pub proof fn law_percent_encoding_decodes_back(bytes: Seq<u8>)
    ensures
        percent_decoded(percent_encoded(bytes)) == Some(bytes),
    decreases bytes.len(),
{
    if bytes.len() == 0 {
        assert(percent_encoded(bytes) =~= Seq::<char>::empty());
    } else {
        let t = bytes.skip(1);
        law_percent_encoding_decodes_back(t);
        assert(bytes =~= seq![bytes[0]] + t);
        lemma_percent_encoded_front(bytes[0], t);
        lemma_percent_decode_front(bytes[0], percent_encoded(t));
    }
}

/// A character left as it is in a URI query value: an ASCII letter or
/// digit, `-`, `.`, `_` or `~`.
pub open spec fn is_unreserved_char(c: char) -> bool {
    ('0' <= c && c <= '9') || ('A' <= c && c <= 'Z') || ('a' <= c && c <= 'z') || c == '-' || c
        == '.' || c == '_' || c == '~'
}

/// An upper-case hexadecimal digit.
pub open spec fn is_upper_hex(c: char) -> bool {
    ('0' <= c && c <= '9') || ('A' <= c && c <= 'F')
}

/// Text made only of unreserved characters and `%` followed by two
/// upper-case hexadecimal digits.
pub open spec fn in_percent_alphabet(w: Seq<char>) -> bool
    decreases w.len(),
{
    if w.len() == 0 {
        true
    } else if w[0] == '%' {
        w.len() >= 3 && is_upper_hex(w[1]) && is_upper_hex(w[2]) && in_percent_alphabet(w.skip(3))
    } else {
        is_unreserved_char(w[0]) && in_percent_alphabet(w.skip(1))
    }
}

proof fn lemma_percent_byte_alphabet(b: u8, rest: Seq<char>)
    requires
        in_percent_alphabet(rest),
    ensures
        in_percent_alphabet(percent_byte(b) + rest),
{
    let w = percent_byte(b) + rest;
    if is_unreserved(b) {
        assert(w.skip(1) =~= rest);
    } else {
        assert(w.skip(3) =~= rest);
    }
}

proof fn lemma_encoded_alphabet(bytes: Seq<u8>)
    ensures
        in_percent_alphabet(percent_encoded(bytes)),
    decreases bytes.len(),
{
    if bytes.len() == 0 {
        assert(percent_encoded(bytes) =~= Seq::<char>::empty());
    } else {
        let t = bytes.skip(1);
        lemma_encoded_alphabet(t);
        assert(bytes =~= seq![bytes[0]] + t);
        lemma_percent_encoded_front(bytes[0], t);
        lemma_percent_byte_alphabet(bytes[0], percent_encoded(t));
    }
}

proof fn lemma_encoded_len(bytes: Seq<u8>)
    ensures
        percent_encoded(bytes).len() >= bytes.len(),
        percent_encoded(bytes).len() == bytes.len() <==> forall|i: int|
            0 <= i < bytes.len() ==> is_unreserved(#[trigger] bytes[i]),
        (forall|i: int| 0 <= i < bytes.len() ==> is_unreserved(#[trigger] bytes[i]))
            ==> percent_encoded(bytes) == bytes.map_values(|x: u8| x as char),
    decreases bytes.len(),
{
    if bytes.len() > 0 {
        let d = bytes.drop_last();
        lemma_encoded_len(d);
        assert forall|i: int| 0 <= i < d.len() implies d[i] == bytes[i] by {}
        if forall|i: int| 0 <= i < bytes.len() ==> is_unreserved(#[trigger] bytes[i]) {
            assert(is_unreserved(bytes[bytes.len() - 1]));
            assert(forall|i: int| 0 <= i < d.len() ==> is_unreserved(#[trigger] d[i]));
            assert(percent_encoded(bytes) =~= bytes.map_values(|x: u8| x as char));
        }
        if percent_encoded(bytes).len() == bytes.len() {
            assert(is_unreserved(bytes.last()));
            assert forall|i: int| 0 <= i < bytes.len() implies is_unreserved(#[trigger] bytes[i]) by {
                if i < d.len() {
                    assert(d[i] == bytes[i]);
                }
            }
        }
    } else {
        assert(percent_encoded(bytes) =~= bytes.map_values(|x: u8| x as char));
    }
}

proof fn lemma_first_char_ascii(c: char)
    requires
        (c as u32) <= 0x7F,
    ensures
        '\0' <= c <= '\u{7f}',
{
    vstd::utf8::char_u32_cast(c, c as u32);
}

proof fn lemma_utf8_len(v: Seq<char>)
    ensures
        vstd::utf8::encode_utf8(v).len() >= v.len(),
        vstd::utf8::encode_utf8(v).len() == v.len() ==> vstd::utf8::is_ascii_chars(v),
    decreases v.len(),
{
    if v.len() > 0 {
        let t = v.drop_first();
        lemma_utf8_len(t);
        let e = vstd::utf8::encode_scalar(v[0] as u32);
        assert(vstd::utf8::encode_utf8(v) == e + vstd::utf8::encode_utf8(t));
        assert(e.len() >= 1);
        if vstd::utf8::encode_utf8(v).len() == v.len() {
            assert(e.len() == 1);
            assert(vstd::utf8::encode_utf8(t).len() == t.len());
            assert(v[0] as u32 <= 0x7F);
            lemma_first_char_ascii(v[0]);
            assert forall|i: int| 0 <= i < v.len() implies '\0' <= #[trigger] v[i] <= '\u{7f}' by {
                if i > 0 {
                    assert(v[i] == t[i - 1]);
                }
            }
        }
    }
}

proof fn lemma_utf8_ascii_bytes(v: Seq<char>)
    requires
        forall|i: int|
            0 <= i < vstd::utf8::encode_utf8(v).len() ==> #[trigger] vstd::utf8::encode_utf8(v)[i]
                < 0x80,
    ensures
        vstd::utf8::is_ascii_chars(v),
    decreases v.len(),
{
    if v.len() > 0 {
        let t = v.drop_first();
        let c = v[0] as u32;
        let e = vstd::utf8::encode_scalar(c);
        let all = vstd::utf8::encode_utf8(v);
        assert(all == e + vstd::utf8::encode_utf8(t));
        assert(all[0] == e[0]);
        assert(all[0] < 0x80);
        if !vstd::utf8::has_width_1_encoding(c) {
            assert(forall|x: u32| #[trigger] (0xC0u8 | ((x >> 6) & 0x1F) as u8) >= 0x80) by (bit_vector);
            assert(forall|x: u32| #[trigger] (0xE0u8 | ((x >> 12) & 0x0F) as u8) >= 0x80) by (bit_vector);
            assert(forall|x: u32| #[trigger] (0xF0u8 | ((x >> 18) & 0x7) as u8) >= 0x80) by (bit_vector);
            assert(e[0] >= 0x80);
        }
        assert forall|i: int| 0 <= i < vstd::utf8::encode_utf8(t).len() implies #[trigger] vstd::utf8::encode_utf8(t)[i] < 0x80 by {
            assert(all[i + e.len()] == vstd::utf8::encode_utf8(t)[i]);
        }
        lemma_utf8_ascii_bytes(t);
        lemma_first_char_ascii(v[0]);
        assert forall|i: int| 0 <= i < v.len() implies '\0' <= #[trigger] v[i] <= '\u{7f}' by {
            if i > 0 {
                assert(v[i] == t[i - 1]);
            }
        }
    }
}

/// The alphabet of percent-encoding, and when it changes nothing: the
/// encoding of any text holds only unreserved characters and `%XX` with
/// upper-case hexadecimal digits, and it equals the text exactly when every
/// character of the text is unreserved, which is when every byte of its
/// UTF-8 encoding is.
pub proof fn law_percent_encoding_alphabet(v: Seq<char>)
    ensures
        in_percent_alphabet(percent_encoded(vstd::utf8::encode_utf8(v))),
        percent_encoded(vstd::utf8::encode_utf8(v)) == v <==> forall|i: int|
            0 <= i < v.len() ==> is_unreserved_char(#[trigger] v[i]),
        percent_encoded(vstd::utf8::encode_utf8(v)) == v <==> forall|i: int|
            0 <= i < vstd::utf8::encode_utf8(v).len() ==> is_unreserved(
                #[trigger] vstd::utf8::encode_utf8(v)[i],
            ),
{
    let b = vstd::utf8::encode_utf8(v);
    let e = percent_encoded(b);
    lemma_encoded_alphabet(b);
    lemma_encoded_len(b);
    lemma_utf8_len(v);
    let all_bytes = forall|i: int| 0 <= i < b.len() ==> is_unreserved(#[trigger] b[i]);
    let all_chars = forall|i: int| 0 <= i < v.len() ==> is_unreserved_char(#[trigger] v[i]);
    if e == v {
        assert(b.len() == v.len());
        assert(vstd::utf8::is_ascii_chars(v));
        vstd::utf8::is_ascii_chars_encode_utf8(v);
        assert(all_bytes);
        assert forall|i: int| 0 <= i < v.len() implies is_unreserved_char(#[trigger] v[i]) by {
            assert(v[i] as u8 == b[i]);
            assert(is_unreserved(b[i]));
        }
    }
    if all_chars {
        assert(vstd::utf8::is_ascii_chars(v)) by {
            assert forall|i: int| 0 <= i < v.len() implies '\0' <= #[trigger] v[i] <= '\u{7f}' by {
                assert(is_unreserved_char(v[i]));
            }
        }
        vstd::utf8::is_ascii_chars_encode_utf8(v);
        assert forall|i: int| 0 <= i < b.len() implies is_unreserved(#[trigger] b[i]) by {
            assert(v[i] as u8 == b[i]);
            assert(is_unreserved_char(v[i]));
        }
        assert(e =~= v) by {
            assert forall|i: int| 0 <= i < v.len() implies e[i] == v[i] by {
                assert(v[i] as u8 == b[i]);
                assert(is_unreserved_char(v[i]));
            }
        }
    }
    if all_bytes {
        assert forall|i: int| 0 <= i < b.len() implies #[trigger] b[i] < 0x80 by {
            assert(is_unreserved(b[i]));
        }
        lemma_utf8_ascii_bytes(v);
        vstd::utf8::is_ascii_chars_encode_utf8(v);
        assert forall|i: int| 0 <= i < v.len() implies is_unreserved_char(#[trigger] v[i]) by {
            assert(v[i] as u8 == b[i]);
            assert(is_unreserved(b[i]));
        }
    }
}

// ---------------------------------------------------------------------------
// Reading a Nix string literal
// ---------------------------------------------------------------------------

/// The character that `\c` stands for in a Nix string.
pub open spec fn nix_unescape(c: char) -> char {
    if c == 'n' {
        '\n'
    } else if c == 'r' {
        '\r'
    } else if c == 't' {
        '\t'
    } else {
        c
    }
}

/// The rest of a Nix string literal after its opening `"`: a backslash
/// escapes the next character, `${` would start an interpolation (`None`:
/// no plain string), and the closing `"` must end the text.
pub open spec fn read_nix_body(w: Seq<char>) -> Option<Seq<char>>
    decreases w.len(),
{
    if w.len() == 0 {
        None
    } else if w[0] == '"' {
        if w.len() == 1 {
            Some(Seq::empty())
        } else {
            None
        }
    } else if w[0] == '\\' {
        if w.len() < 2 {
            None
        } else {
            prepend(nix_unescape(w[1]), read_nix_body(w.skip(2)))
        }
    } else if w[0] == '$' && w.len() >= 2 && w[1] == '{' {
        None
    } else {
        prepend(w[0], read_nix_body(w.skip(1)))
    }
}

/// The value of a Nix string literal without interpolation.
pub open spec fn read_nix_string(w: Seq<char>) -> Option<Seq<char>> {
    if w.len() > 0 && w[0] == '"' {
        read_nix_body(w.skip(1))
    } else {
        None
    }
}

/// The body of `nix_quoted(s)`.
pub open spec fn nix_escaped(s: Seq<char>) -> Seq<char> {
    replace(replace(replace(s, "\\"@, "\\\\"@), "\""@, "\\\""@), "${"@, "\\${"@)
}

proof fn lemma_replace1_front(p: char, y: Seq<char>, c: char, rep: Seq<char>)
    ensures
        replace(seq![p] + y, seq![c], rep) == (if p == c {
            rep
        } else {
            seq![p]
        }) + replace(y, seq![c], rep),
{
    let s = seq![p] + y;
    assert(s.skip(1) =~= y);
    assert(s.take(1) =~= seq![p]);
    if p != c {
        assert(s.take(1) != seq![c]) by {
            assert(s.take(1)[0] != seq![c][0]);
        }
    }
}

proof fn lemma_replace2_front(p: char, y: Seq<char>, rep: Seq<char>)
    ensures
        (p != '$' || y.len() == 0 || y[0] != '{') ==> replace(seq![p] + y, seq!['$', '{'], rep)
            == seq![p] + replace(y, seq!['$', '{'], rep),
        (p == '$' && y.len() > 0 && y[0] == '{') ==> replace(seq![p] + y, seq!['$', '{'], rep)
            == rep + replace(y.skip(1), seq!['$', '{'], rep),
{
    let s = seq![p] + y;
    let pat = seq!['$', '{'];
    assert(s.skip(1) =~= y);
    if p == '$' && y.len() > 0 && y[0] == '{' {
        assert(s.take(2) =~= pat);
        assert(s.skip(2) =~= y.skip(1));
    } else if s.len() >= 2 {
        assert(s.take(2) != pat) by {
            if p != '$' {
                assert(s.take(2)[0] != pat[0]);
            } else {
                assert(s.take(2)[1] != pat[1]);
            }
        }
    }
}

proof fn lemma_nix_literals()
    ensures
        "\\"@ == seq!['\\'],
        "\\\\"@ == seq!['\\', '\\'],
        "\""@ == seq!['"'],
        "\\\""@ == seq!['\\', '"'],
        "${"@ == seq!['$', '{'],
        "\\${"@ == seq!['\\', '$', '{'],
{
    reveal_strlit("\\");
    reveal_strlit("\\\\");
    reveal_strlit("\"");
    reveal_strlit("\\\"");
    reveal_strlit("${");
    reveal_strlit("\\${");
    assert("\\"@ =~= seq!['\\']);
    assert("\\\\"@ =~= seq!['\\', '\\']);
    assert("\""@ =~= seq!['"']);
    assert("\\\""@ =~= seq!['\\', '"']);
    assert("${"@ =~= seq!['$', '{']);
    assert("\\${"@ =~= seq!['\\', '$', '{']);
}

/// The first two passes of the escaping, on a leading character.
pub open spec fn escaped_head(x: char) -> Seq<char> {
    if x == '\\' {
        seq!['\\', '\\']
    } else if x == '"' {
        seq!['\\', '"']
    } else {
        seq![x]
    }
}

pub open spec fn first_two_passes(s: Seq<char>) -> Seq<char> {
    replace(replace(s, seq!['\\'], seq!['\\', '\\']), seq!['"'], seq!['\\', '"'])
}

proof fn lemma_first_two_passes_front(x: char, t: Seq<char>)
    ensures
        first_two_passes(seq![x] + t) == escaped_head(x) + first_two_passes(t),
{
    let r1t = replace(t, seq!['\\'], seq!['\\', '\\']);
    lemma_replace1_front(x, t, '\\', seq!['\\', '\\']);
    if x == '\\' {
        assert(seq!['\\', '\\'] + r1t =~= seq!['\\'] + (seq!['\\'] + r1t));
        lemma_replace1_front('\\', seq!['\\'] + r1t, '"', seq!['\\', '"']);
        lemma_replace1_front('\\', r1t, '"', seq!['\\', '"']);
        assert(first_two_passes(seq![x] + t) =~= seq!['\\'] + (seq!['\\'] + replace(
            r1t,
            seq!['"'],
            seq!['\\', '"'],
        )));
    } else {
        lemma_replace1_front(x, r1t, '"', seq!['\\', '"']);
    }
}

proof fn lemma_escaped_front(s: Seq<char>)
    requires
        s.len() > 0,
    ensures
        s[0] != '$' ==> nix_escaped(s) == escaped_head(s[0]) + nix_escaped(s.skip(1)),
        s[0] == '$' && (s.len() == 1 || s[1] != '{') ==> nix_escaped(s) == seq!['$'] + nix_escaped(
            s.skip(1),
        ),
        s[0] == '$' && s.len() > 1 && s[1] == '{' ==> nix_escaped(s) == seq!['\\', '$', '{']
            + nix_escaped(s.skip(2)),
        nix_escaped(s).len() > 0 && (nix_escaped(s)[0] == '{' <==> s[0] == '{'),
{
    lemma_nix_literals();
    let x = s[0];
    let t = s.skip(1);
    let rep3 = seq!['\\', '$', '{'];
    let pat3 = seq!['$', '{'];
    assert(s =~= seq![x] + t);
    lemma_first_two_passes_front(x, t);
    let y = first_two_passes(t);
    assert(nix_escaped(s) == replace(first_two_passes(s), pat3, rep3));
    assert(forall|u: Seq<char>| nix_escaped(u) == replace(first_two_passes(u), pat3, rep3));
    if x == '\\' || x == '"' {
        let h = escaped_head(x);
        assert(h =~= seq![h[0]] + seq![h[1]]);
        assert(h + y =~= seq![h[0]] + (seq![h[1]] + y));
        lemma_replace2_front(h[0], seq![h[1]] + y, rep3);
        lemma_replace2_front(h[1], y, rep3);
        assert(replace(h + y, pat3, rep3) =~= h + replace(y, pat3, rep3));
    } else if x != '$' {
        lemma_replace2_front(x, y, rep3);
    } else {
        if t.len() > 0 {
            lemma_first_two_passes_front(t[0], t.skip(1));
            assert(t =~= seq![t[0]] + t.skip(1));
            assert(y[0] == escaped_head(t[0])[0]);
            if t[0] == '{' {
                assert(y.skip(1) =~= first_two_passes(t.skip(1)));
                assert(s.skip(2) =~= t.skip(1));
            }
        } else {
            assert(y =~= Seq::<char>::empty());
        }
        lemma_replace2_front(x, y, rep3);
    }
}

proof fn lemma_read_nix_escaped(s: Seq<char>)
    ensures
        read_nix_body(nix_escaped(s) + seq!['"']) == Some(s),
    decreases s.len(),
{
    lemma_nix_literals();
    let pat3 = seq!['$', '{'];
    let rep3 = seq!['\\', '$', '{'];
    if s.len() == 0 {
        assert(first_two_passes(s) =~= s);
        assert(nix_escaped(s) =~= Seq::<char>::empty());
        assert(nix_escaped(s) + seq!['"'] =~= seq!['"']);
    } else {
        lemma_escaped_front(s);
        let x = s[0];
        let t = s.skip(1);
        assert(s =~= seq![x] + t);
        if x == '$' && s.len() > 1 && s[1] == '{' {
            let t2 = s.skip(2);
            lemma_read_nix_escaped(t2);
            let w = nix_escaped(s) + seq!['"'];
            let rest = nix_escaped(t2) + seq!['"'];
            assert(w =~= seq!['\\', '$', '{'] + rest);
            assert(w.skip(2) =~= seq!['{'] + rest);
            assert(w.skip(2).skip(1) =~= rest);
            assert(read_nix_body(w.skip(2)) == Some(seq!['{'] + t2));
            assert(s =~= seq!['$', '{'] + t2);
        } else {
            lemma_read_nix_escaped(t);
            let w = nix_escaped(s) + seq!['"'];
            let rest = nix_escaped(t) + seq!['"'];
            if x == '\\' || x == '"' {
                assert(w =~= escaped_head(x) + rest);
                assert(w.skip(2) =~= rest);
            } else {
                assert(w =~= seq![x] + rest);
                assert(w.skip(1) =~= rest);
                if x == '$' {
                    if t.len() > 0 {
                        lemma_escaped_front(t);
                        assert(w[1] == nix_escaped(t)[0]);
                    } else {
                        assert(w[1] == '"');
                    }
                }
            }
        }
    }
}

/// A Nix string literal written by `nix_string` reads back as the value it
/// holds, without interpolation.
pub proof fn law_nix_string_reads_back(s: Seq<char>)
    ensures
        read_nix_string(nix_quoted(s)) == Some(s),
{
    lemma_nix_literals();
    lemma_read_nix_escaped(s);
    let w = nix_quoted(s);
    assert(w =~= seq!['"'] + (nix_escaped(s) + seq!['"']));
    assert(w.skip(1) =~= nix_escaped(s) + seq!['"']);
}

} // verus!
