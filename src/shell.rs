use vstd::prelude::*;
use crate::text::{chars_of, extend_chars, slice_chars, string_from_chars};

verus! {

/// Characters that a POSIX shell takes literally outside quotes.
pub open spec fn is_shell_safe(c: char) -> bool {
    ('a' <= c && c <= 'z') || ('A' <= c && c <= 'Z') || ('0' <= c && c <= '9') || c == '_' || c
        == '.' || c == '/' || c == ':' || c == '=' || c == '@' || c == '-'
}

/// `s` with each single quote written as `'\''`.
pub open spec fn escape_quotes(s: Seq<char>) -> Seq<char>
    decreases s.len(),
{
    if s.len() == 0 {
        Seq::empty()
    } else {
        escape_quotes(s.drop_last()) + if s.last() == '\'' {
            seq!['\'', '\\', '\'', '\'']
        } else {
            seq![s.last()]
        }
    }
}

/// `s` as one shell word: `''` when empty, itself when every character is
/// safe, else single-quoted with its quotes escaped.
pub open spec fn shq(s: Seq<char>) -> Seq<char> {
    if s.len() == 0 {
        seq!['\'', '\'']
    } else if forall|k: int| 0 <= k < s.len() ==> is_shell_safe(#[trigger] s[k]) {
        s
    } else {
        seq!['\''] + escape_quotes(s) + seq!['\'']
    }
}

/// Position of the last `/` of `s`, or -1 when it has none.
pub open spec fn last_slash(s: Seq<char>) -> int
    decreases s.len(),
{
    if s.len() == 0 {
        -1
    } else if s.last() == '/' {
        s.len() - 1
    } else {
        last_slash(s.drop_last())
    }
}

/// The directory part of a remote path: what precedes its last `/`, or `.`.
pub open spec fn parent_dir(path: Seq<char>) -> Seq<char> {
    let i = last_slash(path);
    if 0 <= i {
        path.subrange(0, i)
    } else {
        "."@
    }
}

/// The command that creates the parent directory of `path` and copies
/// standard input into it.
pub open spec fn write_command(path: Seq<char>) -> Seq<char> {
    "mkdir -p "@ + shq(parent_dir(path)) + " && cat > "@ + shq(path)
}

/// The command that appends `line` to `~/.ssh/authorized_keys` unless it is
/// already there, creating the file with private permissions.
pub open spec fn install_command(line: Seq<char>) -> Seq<char> {
    let e = escape_quotes(line);
    "umask 077; mkdir -p ~/.ssh; chmod 700 ~/.ssh; touch ~/.ssh/authorized_keys; chmod 600 ~/.ssh/authorized_keys; grep -qxF '"@
        + e + "' ~/.ssh/authorized_keys || printf '%s\\n' '"@ + e
        + "' >> ~/.ssh/authorized_keys"@
}

/// Whether `s` holds no `c`.
pub open spec fn lacks(s: Seq<char>, c: char) -> bool {
    forall|k: int| 0 <= k < s.len() ==> s[k] != c
}

fn is_safe_char(c: char) -> (r: bool)
    ensures
        r == is_shell_safe(c),
{
    ('a' <= c && c <= 'z') || ('A' <= c && c <= 'Z') || ('0' <= c && c <= '9') || c == '_' || c
        == '.' || c == '/' || c == ':' || c == '=' || c == '@' || c == '-'
}

/// Writes single quotes of `s` as `'\''`.
fn escape_chars(s: &Vec<char>) -> (r: Vec<char>)
    ensures
        r@ == escape_quotes(s@),
{
    let mut out: Vec<char> = Vec::new();
    let mut i: usize = 0;
    while i < s.len()
        invariant
            i <= s@.len(),
            out@ == escape_quotes(s@.subrange(0, i as int)),
        decreases s@.len() - i,
    {
        let c = s[i];
        if c == '\'' {
            out.push('\'');
            out.push('\\');
            out.push('\'');
            out.push('\'');
        } else {
            out.push(c);
        }
        proof {
            let p = s@.subrange(0, i + 1);
            assert(p.drop_last() =~= s@.subrange(0, i as int));
            assert(p.last() == c);
        }
        i += 1;
        assert(out@ =~= escape_quotes(s@.subrange(0, i as int)));
    }
    assert(s@.subrange(0, s@.len() as int) =~= s@);
    out
}

/// Replaces each single quote of `s` by `'\''`.
pub fn escape_single_quotes(s: &str) -> (r: String)
    ensures
        r@ == escape_quotes(s@),
{
    let cs = chars_of(s);
    string_from_chars(&escape_chars(&cs))
}

/// Quotes `s` as one shell word.
pub fn sh_quote(s: &str) -> (r: String)
    ensures
        r@ == shq(s@),
{
    let cs = chars_of(s);
    if cs.len() == 0 {
        return string_from_chars(&vec!['\'', '\'']);
    }
    let mut all_safe = true;
    let mut i: usize = 0;
    while i < cs.len()
        invariant
            i <= cs@.len(),
            all_safe <==> forall|k: int| 0 <= k < i ==> is_shell_safe(#[trigger] cs@[k]),
        decreases cs@.len() - i,
    {
        if !is_safe_char(cs[i]) {
            all_safe = false;
        }
        i += 1;
    }
    if all_safe {
        return string_from_chars(&cs);
    }
    let mut out: Vec<char> = vec!['\''];
    let escaped = escape_chars(&cs);
    extend_chars(&mut out, &escaped);
    out.push('\'');
    assert(out@ =~= seq!['\''] + escape_quotes(s@) + seq!['\'']);
    string_from_chars(&out)
}

/// The directory part of a remote path.
pub fn remote_dir(path: &str) -> (r: String)
    ensures
        r@ == parent_dir(path@),
{
    let cs = chars_of(path);
    let mut i: usize = cs.len();
    assert(cs@.subrange(0, i as int) =~= cs@);
    while i > 0 && cs[i - 1] != '/'
        invariant
            i <= cs@.len(),
            last_slash(cs@) == last_slash(cs@.subrange(0, i as int)),
        decreases i,
    {
        assert(cs@.subrange(0, i as int).drop_last() =~= cs@.subrange(0, i - 1));
        i -= 1;
    }
    if i == 0 {
        String::from_str(".")
    } else {
        string_from_chars(&slice_chars(&cs, 0, i - 1))
    }
}

/// Builds the upload command for `path`.
pub fn write_file_command(path: &str) -> (r: String)
    ensures
        r@ == write_command(path@),
{
    let dir = remote_dir(path);
    let mut cmd = String::from_str("mkdir -p ");
    cmd.append(sh_quote(dir.as_str()).as_str());
    cmd.append(" && cat > ");
    cmd.append(sh_quote(path).as_str());
    cmd
}

/// Builds the remote command that installs `line` into `authorized_keys`
/// at most once.
pub fn install_key_command(line: &str) -> (r: String)
    ensures
        r@ == install_command(line@),
{
    let e = escape_single_quotes(line);
    let mut cmd = String::from_str(
        "umask 077; mkdir -p ~/.ssh; chmod 700 ~/.ssh; touch ~/.ssh/authorized_keys; chmod 600 ~/.ssh/authorized_keys; grep -qxF '",
    );
    cmd.append(e.as_str());
    cmd.append("' ~/.ssh/authorized_keys || printf '%s\\n' '");
    cmd.append(e.as_str());
    cmd.append("' >> ~/.ssh/authorized_keys");
    cmd
}

/// Splits `user@host` on its first `@`; `None` when there is no `@`.
pub fn split_user_at_host(s: &str) -> (r: Option<(String, String)>)
    ensures
        r is None <==> lacks(s@, '@'),
        r matches Some((user, host)) ==> s@ == user@ + seq!['@'] + host@ && lacks(user@, '@'),
{
    let cs = chars_of(s);
    let n = cs.len();
    let mut i: usize = 0;
    while i < n && cs[i] != '@'
        invariant
            n == cs@.len(),
            i <= n,
            lacks(cs@.subrange(0, i as int), '@'),
        decreases n - i,
    {
        i += 1;
        assert(lacks(cs@.subrange(0, i as int), '@')) by {
            assert forall|k: int| 0 <= k < i implies cs@.subrange(0, i as int)[k] != '@' by {
                if k < i - 1 {
                    assert(cs@.subrange(0, i - 1)[k] == cs@[k]);
                }
            }
        }
    }
    if i == n {
        assert(cs@.subrange(0, n as int) =~= cs@);
        return None;
    }
    let user = string_from_chars(&slice_chars(&cs, 0, i));
    let host = string_from_chars(&slice_chars(&cs, i + 1, n));
    assert(s@ =~= user@ + seq!['@'] + host@);
    Some((user, host))
}

} // verus!
