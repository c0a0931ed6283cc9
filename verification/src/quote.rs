//! Quoting of values for POSIX shells and for Nix string literals, and
//! percent-encoding of URI query values.
use vstd::prelude::*;
use vstd::string::*;

use crate::text::{chars_of, join, owned, push_char, replace, replace_all, seq_join};

verus! {

// ---------------------------------------------------------------------------
// Shell quoting
// ---------------------------------------------------------------------------

/// ASCII letters and digits.
pub open spec fn is_ascii_alnum(c: char) -> bool {
    ('a' <= c && c <= 'z') || ('A' <= c && c <= 'Z') || ('0' <= c && c <= '9')
}

/// Characters that a shell reads literally outside quotes.
pub open spec fn is_shell_safe(c: char) -> bool {
    is_ascii_alnum(c) || c == '/' || c == '.' || c == '_' || c == '-' || c == ':' || c == '='
        || c == '+' || c == '@' || c == '%' || c == ','
}

pub open spec fn all_shell_safe(s: Seq<char>) -> bool {
    forall|i: int| 0 <= i < s.len() ==> #[trigger] is_shell_safe(s[i])
}

/// The shell word for `s`: `s` itself when every character is safe, else
/// `s` in single quotes with each `'` written as `'"'"'`.
#[verifier::opaque]
pub open spec fn shell_quoted(s: Seq<char>) -> Seq<char> {
    if all_shell_safe(s) {
        s
    } else {
        "'"@ + replace(s, "'"@, "'\"'\"'"@) + "'"@
    }
}

fn char_is_shell_safe(c: char) -> (res: bool)
    ensures
        res == is_shell_safe(c),
{
    ('a' <= c && c <= 'z') || ('A' <= c && c <= 'Z') || ('0' <= c && c <= '9') || c == '/' || c
        == '.' || c == '_' || c == '-' || c == ':' || c == '=' || c == '+' || c == '@' || c == '%'
        || c == ','
}

fn is_all_shell_safe(value: &str) -> (res: bool)
    ensures
        res == all_shell_safe(value@),
{
    let v = chars_of(value);
    let mut i: usize = 0;
    while i < v.len()
        invariant
            v@ == value@,
            0 <= i <= v@.len(),
            forall|j: int| 0 <= j < i ==> #[trigger] is_shell_safe(v@[j]),
        decreases v@.len() - i,
    {
        if !char_is_shell_safe(v[i]) {
            return false;
        }
        i += 1;
    }
    true
}

/// Quotes `value` as one shell word.
pub fn shell_quote(value: &str) -> (res: String)
    ensures
        res@ == shell_quoted(value@),
{
    reveal(shell_quoted);
    if is_all_shell_safe(value) {
        owned(value)
    } else {
        proof {
            reveal_strlit("'");
        }
        let mut res = owned("'");
        let escaped = replace_all(value, "'", "'\"'\"'");
        res.append(escaped.as_str());
        res.append("'");
        res
    }
}

/// The shell words of `argv` joined by single spaces.
pub open spec fn shell_line(argv: Seq<Seq<char>>) -> Seq<char> {
    seq_join(argv.map_values(|a: Seq<char>| shell_quoted(a)), " "@)
}

/// Renders `argv` as one shell command line.
pub fn shell_command(argv: &Vec<String>) -> (res: String)
    ensures
        res@ == shell_line(argv.deep_view()),
{
    let ghost quoted = argv.deep_view().map_values(|a: Seq<char>| shell_quoted(a));
    let mut res = String::new();
    let mut i: usize = 0;
    while i < argv.len()
        invariant
            quoted == argv.deep_view().map_values(|a: Seq<char>| shell_quoted(a)),
            0 <= i <= argv@.len(),
            res@ == seq_join(quoted.take(i as int), " "@),
        decreases argv@.len() - i,
    {
        if i != 0 {
            res.append(" ");
        }
        let word = shell_quote(argv[i].as_str());
        res.append(word.as_str());
        assert(quoted.take(i + 1).drop_last() =~= quoted.take(i as int));
        i += 1;
    }
    assert(quoted.take(argv@.len() as int) =~= quoted);
    res
}

// ---------------------------------------------------------------------------
// SSH options
// ---------------------------------------------------------------------------

/// Each option preceded by `-o`.
pub open spec fn option_args(options: Seq<Seq<char>>) -> Seq<Seq<char>>
    decreases options.len(),
{
    if options.len() == 0 {
        Seq::empty()
    } else {
        option_args(options.drop_last()) + seq!["-o"@, options.last()]
    }
}

/// Appends `-o OPTION` for every option.
pub fn push_option_args(argv: &mut Vec<String>, options: &Vec<String>)
    ensures
        final(argv).deep_view() == old(argv).deep_view() + option_args(options.deep_view()),
{
    let ghost start = argv.deep_view();
    let ghost opts = options.deep_view();
    let mut i: usize = 0;
    assert(opts.take(0) =~= Seq::<Seq<char>>::empty());
    assert(argv.deep_view() =~= start + option_args(opts.take(0)));
    while i < options.len()
        invariant
            opts == options.deep_view(),
            0 <= i <= options@.len(),
            argv.deep_view() == start + option_args(opts.take(i as int)),
        decreases options@.len() - i,
    {
        let ghost before = argv.deep_view();
        argv.push(owned("-o"));
        argv.push(owned(options[i].as_str()));
        assert(argv.deep_view() =~= before + seq!["-o"@, opts[i as int]]);
        assert(opts.take(i + 1).drop_last() =~= opts.take(i as int));
        assert(argv.deep_view() =~= start + option_args(opts.take(i + 1)));
        i += 1;
    }
    assert(opts.take(options@.len() as int) =~= opts);
}

/// `-o OPTION` pairs joined by spaces, as `NIX_SSHOPTS` expects them.
pub fn ssh_options_for_nix(options: &Vec<String>) -> (res: String)
    ensures
        res@ == seq_join(option_args(options.deep_view()), " "@),
{
    let mut args: Vec<String> = Vec::new();
    push_option_args(&mut args, options);
    assert(args.deep_view() =~= option_args(options.deep_view()));
    join(&args, " ")
}

// ---------------------------------------------------------------------------
// Nix string literals
// ---------------------------------------------------------------------------

/// The Nix string literal for `s`: backslashes doubled, then `"` and `${` escaped.
pub open spec fn nix_quoted(s: Seq<char>) -> Seq<char> {
    "\""@ + replace(
        replace(replace(s, "\\"@, "\\\\"@), "\""@, "\\\""@),
        "${"@,
        "\\${"@,
    ) + "\""@
}

/// Renders `value` as a Nix string literal.
pub fn nix_string(value: &str) -> (res: String)
    ensures
        res@ == nix_quoted(value@),
{
    proof {
        reveal_strlit("\\");
        reveal_strlit("\"");
        reveal_strlit("${");
    }
    let a = replace_all(value, "\\", "\\\\");
    let b = replace_all(a.as_str(), "\"", "\\\"");
    let c = replace_all(b.as_str(), "${", "\\${");
    let mut res = owned("\"");
    res.append(c.as_str());
    res.append("\"");
    res
}

/// A Nix list of string literals.
pub open spec fn nix_list_of(values: Seq<Seq<char>>) -> Seq<char> {
    "[ "@ + seq_join(values.map_values(|v: Seq<char>| nix_quoted(v)), " "@) + " ]"@
}

/// Renders `values` as a Nix list of strings.
pub fn nix_list(values: &Vec<String>) -> (res: String)
    ensures
        res@ == nix_list_of(values.deep_view()),
{
    let mut items: Vec<String> = Vec::new();
    let mut i: usize = 0;
    while i < values.len()
        invariant
            0 <= i <= values@.len(),
            items.deep_view() =~= values.deep_view().take(i as int).map_values(
                |v: Seq<char>| nix_quoted(v),
            ),
        decreases values@.len() - i,
    {
        let ghost before = items.deep_view();
        items.push(nix_string(values[i].as_str()));
        assert(items.deep_view() =~= before.push(nix_quoted(values.deep_view()[i as int])));
        assert(values.deep_view().take(i + 1) =~= values.deep_view().take(i as int).push(
            values.deep_view()[i as int],
        ));
        i += 1;
    }
    assert(values.deep_view().take(values@.len() as int) =~= values.deep_view());
    let joined = join(&items, " ");
    let mut res = owned("[ ");
    res.append(joined.as_str());
    res.append(" ]");
    res
}

// ---------------------------------------------------------------------------
// Percent-encoding
// ---------------------------------------------------------------------------

/// Bytes left as they are in a URI query value.
pub open spec fn is_unreserved(b: u8) -> bool {
    (0x30 <= b && b <= 0x39) || (0x41 <= b && b <= 0x5a) || (0x61 <= b && b <= 0x7a) || b == 0x2d
        || b == 0x2e || b == 0x5f || b == 0x7e
}

/// The upper-case hexadecimal digit for `d < 16`.
pub open spec fn hex_digit(d: u8) -> char {
    if d < 10 {
        (d + 0x30) as char
    } else {
        (d + 0x37) as char
    }
}

/// How one byte is written.
pub open spec fn percent_byte(b: u8) -> Seq<char> {
    if is_unreserved(b) {
        seq![b as char]
    } else {
        seq!['%', hex_digit(b / 16), hex_digit(b % 16)]
    }
}

/// Percent-encoding of a byte sequence.
pub open spec fn percent_encoded(bytes: Seq<u8>) -> Seq<char>
    decreases bytes.len(),
{
    if bytes.len() == 0 {
        Seq::empty()
    } else {
        percent_encoded(bytes.drop_last()) + percent_byte(bytes.last())
    }
}

fn byte_is_unreserved(b: u8) -> (res: bool)
    ensures
        res == is_unreserved(b),
{
    (0x30 <= b && b <= 0x39) || (0x41 <= b && b <= 0x5a) || (0x61 <= b && b <= 0x7a) || b == 0x2d
        || b == 0x2e || b == 0x5f || b == 0x7e
}

fn hex(d: u8) -> (c: char)
    requires
        d < 16,
    ensures
        c == hex_digit(d),
{
    if d < 10 {
        (d + 0x30) as char
    } else {
        (d + 0x37) as char
    }
}

/// Percent-encodes the UTF-8 bytes of `value`.
pub fn percent_encode_query_value(value: &str) -> (res: String)
    ensures
        res@ == percent_encoded(value.spec_bytes()),
{
    let bytes = value.as_bytes();
    let mut res = String::new();
    let mut i: usize = 0;
    while i < bytes.len()
        invariant
            bytes@ == value.spec_bytes(),
            0 <= i <= bytes@.len(),
            res@ == percent_encoded(bytes@.take(i as int)),
        decreases bytes@.len() - i,
    {
        let b = bytes[i];
        let ghost before = res@;
        if byte_is_unreserved(b) {
            push_char(&mut res, b as char);
        } else {
            push_char(&mut res, '%');
            push_char(&mut res, hex(b / 16));
            push_char(&mut res, hex(b % 16));
        }
        assert(bytes@.take(i + 1).drop_last() =~= bytes@.take(i as int));
        assert(res@ =~= before + percent_byte(b));
        i += 1;
    }
    assert(bytes@.take(bytes@.len() as int) =~= bytes@);
    res
}

} // verus!
