//! Where `-tt` can appear in the text of the commands: the steps that run
//! SSH inside a shell loop (the kexec and the wait for SSH) never ask for a
//! TTY unless an input of the operator spells `-tt` itself.
use vstd::prelude::*;
use vstd::string::*;

use crate::commands::{
    await_script, disconnect_tolerant_script, opts, AWAIT_HEAD, AWAIT_TAIL, DISCONNECT_HEAD,
    DISCONNECT_TAIL,
};
use crate::model::SshCommand;
use crate::plan::{kexec_script, remote_initrd, remote_kernel};
use crate::quote::{all_shell_safe, option_args, shell_line, shell_quoted};
use crate::text::{replace, seq_join};

verus! {

/// `-tt` starts at position `j` of `s`.
pub open spec fn dash_tt_at(s: Seq<char>, j: int) -> bool {
    0 <= j && j + 2 < s.len() && s[j] == '-' && s[j + 1] == 't' && s[j + 2] == 't'
}

/// `s` holds no `-tt`.
pub open spec fn free_of_tt(s: Seq<char>) -> bool {
    forall|j: int| !#[trigger] dash_tt_at(s, j)
}

/// No `-tt` can start in `a` and end in `b`.
pub open spec fn joins_without_tt(a: Seq<char>, b: Seq<char>) -> bool {
    &&& !(a.len() >= 1 && b.len() >= 2 && a.last() == '-' && b[0] == 't' && b[1] == 't')
    &&& !(a.len() >= 2 && b.len() >= 1 && a[a.len() - 2] == '-' && a.last() == 't' && b[0] == 't')
}

/// A join that cannot make `-tt`: one side ends or starts with neither `-`
/// nor `t`.
pub open spec fn plain_join(a: Seq<char>, b: Seq<char>) -> bool {
    a.len() == 0 || b.len() == 0 || (a.last() != '-' && a.last() != 't') || b[0] != 't'
}

pub proof fn lemma_concat_free(a: Seq<char>, b: Seq<char>)
    requires
        free_of_tt(a),
        free_of_tt(b),
        joins_without_tt(a, b) || plain_join(a, b),
    ensures
        free_of_tt(a + b),
{
    let s = a + b;
    assert forall|j: int| !#[trigger] dash_tt_at(s, j) by {
        if dash_tt_at(s, j) {
            if j + 2 < a.len() {
                assert(s[j] == a[j] && s[j + 1] == a[j + 1] && s[j + 2] == a[j + 2]);
                assert(dash_tt_at(a, j));
            } else if j >= a.len() {
                assert(s[j] == b[j - a.len()] && s[j + 1] == b[j + 1 - a.len()] && s[j + 2] == b[j
                    + 2 - a.len()]);
                assert(dash_tt_at(b, j - a.len()));
            } else if j == a.len() - 1 {
                assert(s[j] == a.last() && s[j + 1] == b[0] && s[j + 2] == b[1]);
            } else {
                assert(s[j] == a[a.len() - 2] && s[j + 1] == a.last() && s[j + 2] == b[0]);
            }
        }
    }
}

/// The quote `'` written as `'"'"'`, as `shell_quote` does.
pub open spec fn quote_escaped(s: Seq<char>) -> Seq<char> {
    replace(s, "'"@, "'\"'\"'"@)
}

proof fn lemma_quote_escaped_free(s: Seq<char>)
    requires
        free_of_tt(s),
    ensures
        free_of_tt(quote_escaped(s)),
        quote_escaped(s).len() > 0 && quote_escaped(s)[0] == 't' ==> s.len() > 0 && s[0] == 't',
        quote_escaped(s).len() > 1 && quote_escaped(s)[0] == 't' && quote_escaped(s)[1] == 't'
            ==> s.len() > 1 && s[0] == 't' && s[1] == 't',
    decreases s.len(),
{
    reveal_strlit("'");
    reveal_strlit("'\"'\"'");
    let q = "'\"'\"'"@;
    let r = quote_escaped(s);
    if s.len() > 0 {
        let t = s.skip(1);
        assert(free_of_tt(t)) by {
            assert forall|j: int| !#[trigger] dash_tt_at(t, j) by {
                if dash_tt_at(t, j) {
                    assert(dash_tt_at(s, j + 1));
                }
            }
        }
        lemma_quote_escaped_free(t);
        let rt = quote_escaped(t);
        if s[0] == '\'' {
            assert(s.take(1) =~= "'"@);
            assert(r == q + rt);
            assert(free_of_tt(q)) by {
                assert forall|j: int| !#[trigger] dash_tt_at(q, j) by {}
            }
            lemma_concat_free(q, rt);
        } else {
            assert(s.take(1) != "'"@) by {
                assert(s.take(1)[0] == s[0]);
            }
            assert(r == seq![s[0]] + rt);
            assert(free_of_tt(seq![s[0]])) by {
                assert forall|j: int| !#[trigger] dash_tt_at(seq![s[0]], j) by {}
            }
            if s[0] == '-' && rt.len() >= 2 && rt[0] == 't' && rt[1] == 't' {
                assert(dash_tt_at(s, 0));
            }
            lemma_concat_free(seq![s[0]], rt);
            if r.len() > 1 && r[0] == 't' && r[1] == 't' {
                assert(r[1] == rt[0]);
            }
        }
    } else {
        assert(r =~= s);
    }
}

/// A word quoted by `shell_quote` holds `-tt` only if the word does.
pub proof fn lemma_shell_quoted_free(w: Seq<char>)
    requires
        free_of_tt(w),
    ensures
        free_of_tt(shell_quoted(w)),
{
    reveal(shell_quoted);
    if !all_shell_safe(w) {
        reveal_strlit("'");
        lemma_quote_escaped_free(w);
        let e = quote_escaped(w);
        assert(free_of_tt("'"@)) by {
            assert forall|j: int| !#[trigger] dash_tt_at("'"@, j) by {}
        }
        lemma_concat_free("'"@, e);
        lemma_concat_free("'"@ + e, "'"@);
    }
}

/// A command line holds `-tt` only if one of its words does.
pub proof fn lemma_shell_line_free(words: Seq<Seq<char>>)
    requires
        forall|i: int| 0 <= i < words.len() ==> free_of_tt(#[trigger] words[i]),
    ensures
        free_of_tt(shell_line(words)),
    decreases words.len(),
{
    reveal_strlit(" ");
    let qs = words.map_values(|a: Seq<char>| shell_quoted(a));
    assert forall|i: int| 0 <= i < qs.len() implies free_of_tt(#[trigger] qs[i]) by {
        lemma_shell_quoted_free(words[i]);
    }
    lemma_seq_join_free(qs);
}

proof fn lemma_seq_join_free(list: Seq<Seq<char>>)
    requires
        forall|i: int| 0 <= i < list.len() ==> free_of_tt(#[trigger] list[i]),
    ensures
        free_of_tt(seq_join(list, " "@)),
    decreases list.len(),
{
    reveal_strlit(" ");
    if list.len() == 0 {
        assert forall|j: int| !#[trigger] dash_tt_at(seq_join(list, " "@), j) by {}
    } else if list.len() == 1 {
    } else {
        let d = list.drop_last();
        assert forall|i: int| 0 <= i < d.len() implies free_of_tt(#[trigger] d[i]) by {
            assert(d[i] == list[i]);
        }
        lemma_seq_join_free(d);
        let sp = " "@;
        assert(free_of_tt(sp)) by {
            assert forall|j: int| !#[trigger] dash_tt_at(sp, j) by {}
        }
        lemma_concat_free(seq_join(d, sp), sp);
        assert((seq_join(d, sp) + sp).last() == ' ');
        assert(free_of_tt(list.last()));
        lemma_concat_free(seq_join(d, sp) + sp, list.last());
    }
}

/// The `-o OPTION` words hold `-tt` only if an option does.
pub proof fn lemma_option_args_free(options: Seq<Seq<char>>)
    requires
        forall|i: int| 0 <= i < options.len() ==> free_of_tt(#[trigger] options[i]),
    ensures
        forall|i: int|
            0 <= i < option_args(options).len() ==> free_of_tt(#[trigger] option_args(options)[i]),
    decreases options.len(),
{
    reveal_strlit("-o");
    if options.len() > 0 {
        let d = options.drop_last();
        assert forall|i: int| 0 <= i < d.len() implies free_of_tt(#[trigger] d[i]) by {
            assert(d[i] == options[i]);
        }
        lemma_option_args_free(d);
        assert(free_of_tt("-o"@)) by {
            assert forall|j: int| !#[trigger] dash_tt_at("-o"@, j) by {}
        }
        assert(free_of_tt(options.last()));
        let a = option_args(options);
        let ad = option_args(d);
        assert(a == ad + seq!["-o"@, options.last()]);
        assert forall|i: int| 0 <= i < a.len() implies free_of_tt(#[trigger] a[i]) by {
            if i < ad.len() {
                assert(a[i] == ad[i]);
            }
        }
    }
}

proof fn lemma_kexec_literals_free()
    ensures
        free_of_tt("set -euo pipefail; kexec -l "@),
        free_of_tt(" --initrd="@),
        free_of_tt(" --append "@),
        free_of_tt("; echo 'nixos-kexec: entering kexec' >&2; sync; kexec -e"@),
        free_of_tt("/kexec/kernel"@),
        free_of_tt("/kexec/initrd"@),
        ("set -euo pipefail; kexec -l "@).last() == ' ',
        (" --initrd="@).len() > 1 && (" --initrd="@)[0] == ' ' && (" --initrd="@).last() == '=',
        (" --append "@).len() > 1 && (" --append "@)[0] == ' ' && (" --append "@).last() == ' ',
        ("; echo 'nixos-kexec: entering kexec' >&2; sync; kexec -e"@)[0] == ';',
        ("/kexec/kernel"@)[0] == '/',
        ("/kexec/initrd"@)[0] == '/',
{
    reveal_strlit("set -euo pipefail; kexec -l ");
    reveal_strlit(" --initrd=");
    reveal_strlit(" --append ");
    reveal_strlit("; echo 'nixos-kexec: entering kexec' >&2; sync; kexec -e");
    reveal_strlit("/kexec/kernel");
    reveal_strlit("/kexec/initrd");
    assert forall|j: int| !#[trigger] dash_tt_at("set -euo pipefail; kexec -l "@, j) by {}
    assert forall|j: int| !#[trigger] dash_tt_at(" --initrd="@, j) by {}
    assert forall|j: int| !#[trigger] dash_tt_at(" --append "@, j) by {}
    assert forall|j: int|
        !#[trigger] dash_tt_at("; echo 'nixos-kexec: entering kexec' >&2; sync; kexec -e"@, j) by {}
    assert forall|j: int| !#[trigger] dash_tt_at("/kexec/kernel"@, j) by {}
    assert forall|j: int| !#[trigger] dash_tt_at("/kexec/initrd"@, j) by {}
}

/// The kexec fragment holds `-tt` only if the workdir or the kernel command
/// line does.
pub proof fn lemma_kexec_script_free(c: SshCommand, append: Seq<char>)
    requires
        free_of_tt(c.remote_workdir@),
        free_of_tt(append),
    ensures
        free_of_tt(kexec_script(c, append)),
{
    lemma_kexec_literals_free();
    let l1 = "set -euo pipefail; kexec -l "@;
    let l2 = " --initrd="@;
    let l3 = " --append "@;
    let l4 = "; echo 'nixos-kexec: entering kexec' >&2; sync; kexec -e"@;
    lemma_concat_free(c.remote_workdir@, "/kexec/kernel"@);
    lemma_concat_free(c.remote_workdir@, "/kexec/initrd"@);
    let qk = shell_quoted(remote_kernel(c));
    let qi = shell_quoted(remote_initrd(c));
    let qa = shell_quoted(append);
    lemma_shell_quoted_free(remote_kernel(c));
    lemma_shell_quoted_free(remote_initrd(c));
    lemma_shell_quoted_free(append);
    lemma_concat_free(l1, qk);
    lemma_concat_free(l1 + qk, l2);
    assert((l1 + qk + l2)[(l1 + qk + l2).len() - 1] == l2[l2.len() - 1]);
    lemma_concat_free(l1 + qk + l2, qi);
    lemma_concat_free(l1 + qk + l2 + qi, l3);
    assert((l1 + qk + l2 + qi + l3)[(l1 + qk + l2 + qi + l3).len() - 1] == l3[l3.len() - 1]);
    lemma_concat_free(l1 + qk + l2 + qi + l3, qa);
    lemma_concat_free(l1 + qk + l2 + qi + l3 + qa, l4);
    assert(kexec_script(c, append) == l1 + qk + l2 + qi + l3 + qa + l4);
}

proof fn lemma_loop_literals_free()
    ensures
        free_of_tt(DISCONNECT_HEAD@),
        free_of_tt(DISCONNECT_TAIL@),
        free_of_tt(AWAIT_HEAD@),
        free_of_tt(AWAIT_TAIL@),
        DISCONNECT_HEAD@.last() == '(',
        DISCONNECT_TAIL@[0] == ' ',
        AWAIT_HEAD@.last() == ' ',
        AWAIT_TAIL@[0] == ';',
        free_of_tt("timeout"@),
        free_of_tt("120s"@),
        free_of_tt("15s"@),
        free_of_tt("ssh"@),
        free_of_tt("-o"@),
        free_of_tt("ConnectTimeout=5"@),
        free_of_tt("true"@),
{
    reveal_strlit("set +e; output=$(");
    reveal_strlit(" 2>&1); status=$?; set -e; printf '%s\\n' \"$output\"; if [ \"$status\" -eq 0 ]; then exit 0; fi; if [ \"$status\" -eq 255 ] || [ \"$status\" -eq 124 ]; then case \"$output\" in *'nixos-kexec: entering kexec'*|*'Connection to '*' closed.'*) exit 0 ;; esac; fi; exit \"$status\"");
    reveal_strlit("deadline=$(($(date +%s) + 600)); while :; do if ");
    reveal_strlit("; then break; fi; if [ \"$(date +%s)\" -ge \"$deadline\" ]; then echo 'timed out waiting for installer SSH' >&2; exit 1; fi; sleep 5; done");
    reveal_strlit("timeout");
    reveal_strlit("120s");
    reveal_strlit("15s");
    reveal_strlit("ssh");
    reveal_strlit("-o");
    reveal_strlit("ConnectTimeout=5");
    reveal_strlit("true");
    assert forall|j: int| !#[trigger] dash_tt_at(DISCONNECT_HEAD@, j) by {}
    assert forall|j: int| !#[trigger] dash_tt_at(DISCONNECT_TAIL@, j) by {}
    assert forall|j: int| !#[trigger] dash_tt_at(AWAIT_HEAD@, j) by {}
    assert forall|j: int| !#[trigger] dash_tt_at(AWAIT_TAIL@, j) by {}
    assert forall|j: int| !#[trigger] dash_tt_at("timeout"@, j) by {}
    assert forall|j: int| !#[trigger] dash_tt_at("120s"@, j) by {}
    assert forall|j: int| !#[trigger] dash_tt_at("15s"@, j) by {}
    assert forall|j: int| !#[trigger] dash_tt_at("ssh"@, j) by {}
    assert forall|j: int| !#[trigger] dash_tt_at("-o"@, j) by {}
    assert forall|j: int| !#[trigger] dash_tt_at("ConnectTimeout=5"@, j) by {}
    assert forall|j: int| !#[trigger] dash_tt_at("true"@, j) by {}
}

/// Every word of a list built from free parts.
pub open spec fn all_free(words: Seq<Seq<char>>) -> bool {
    forall|i: int| 0 <= i < words.len() ==> free_of_tt(#[trigger] words[i])
}

proof fn lemma_all_free_concat(a: Seq<Seq<char>>, b: Seq<Seq<char>>)
    requires
        all_free(a),
        all_free(b),
    ensures
        all_free(a + b),
{
    assert forall|i: int| 0 <= i < (a + b).len() implies free_of_tt(#[trigger] (a + b)[i]) by {
        if i < a.len() {
            assert((a + b)[i] == a[i]);
        } else {
            assert((a + b)[i] == b[i - a.len()]);
        }
    }
}

/// The kexec step's loop holds `-tt` only if an SSH option, the target or
/// the remote fragment does.
pub proof fn lemma_disconnect_script_free(c: SshCommand, script: Seq<char>)
    requires
        all_free(c.ssh_options.deep_view()),
        free_of_tt(c.target@),
        free_of_tt(script),
    ensures
        free_of_tt(disconnect_tolerant_script(c, script)),
{
    lemma_loop_literals_free();
    lemma_option_args_free(c.ssh_options.deep_view());
    let head = seq!["timeout"@, "120s"@, "ssh"@];
    let tail = seq![c.target@, script];
    assert(all_free(head));
    assert(all_free(tail));
    assert(all_free(opts(c)));
    lemma_all_free_concat(head, opts(c));
    lemma_all_free_concat(head + opts(c), tail);
    let words = head + opts(c) + tail;
    lemma_shell_line_free(words);
    let line = shell_line(words);
    lemma_concat_free(DISCONNECT_HEAD@, line);
    lemma_concat_free(DISCONNECT_HEAD@ + line, DISCONNECT_TAIL@);
}

/// The wait for SSH holds `-tt` only if an SSH option or the target does.
pub proof fn lemma_await_script_free(c: SshCommand)
    requires
        all_free(c.ssh_options.deep_view()),
        free_of_tt(c.target@),
    ensures
        free_of_tt(await_script(c)),
{
    lemma_loop_literals_free();
    lemma_option_args_free(c.ssh_options.deep_view());
    let head = seq!["timeout"@, "15s"@, "ssh"@];
    let tail = seq!["-o"@, "ConnectTimeout=5"@, c.target@, "true"@];
    assert(all_free(head));
    assert(all_free(tail));
    assert(all_free(opts(c)));
    lemma_all_free_concat(head, opts(c));
    lemma_all_free_concat(head + opts(c), tail);
    let words = head + opts(c) + tail;
    lemma_shell_line_free(words);
    let line = shell_line(words);
    lemma_concat_free(AWAIT_HEAD@, line);
    lemma_concat_free(AWAIT_HEAD@ + line, AWAIT_TAIL@);
}

} // verus!
