use crate::error::Error;
use crate::text::{
    chars_of, find_char_in, first_index, has_prefix_in, lemma_first_index, lemma_first_index_is,
};
use vstd::string::StrSliceExecFns;
use vstd::string::StringExecFns;
use vstd::prelude::*;

verus! {

/// The prefix of the configuration line that holds the remote-console secret.
pub open spec fn secret_key() -> Seq<char> {
    seq!['r', 'c', 'o', 'n', '_', 'p', 'a', 's', 's', 'w', 'o', 'r', 'd', ' ']
}

/// The end (exclusive) of the line that starts at `i`: the next line feed, or the end.
pub open spec fn line_end(s: Seq<char>, i: int) -> int {
    first_index(s, '\n', i)
}

/// The line that starts at `i`, without its terminator; a carriage return is part
/// of the terminator only when a line feed follows it.
pub open spec fn line_at(s: Seq<char>, i: int) -> Seq<char> {
    let e = line_end(s, i);
    if e < s.len() && e > i && s[e - 1] == '\r' {
        s.subrange(i, e - 1)
    } else {
        s.subrange(i, e)
    }
}

/// What follows the first double quote of `rest`, up to the next double quote or
/// the end; empty when `rest` holds no double quote.
pub open spec fn quoted(rest: Seq<char>) -> Seq<char> {
    let q = first_index(rest, '"', 0);
    if q >= rest.len() {
        Seq::empty()
    } else {
        rest.subrange(q + 1, first_index(rest, '"', q + 1))
    }
}

/// The secret named by the first line, at or after `i`, that begins with the key.
pub open spec fn secret_from(s: Seq<char>, i: int) -> Seq<char>
    decreases s.len() - i,
{
    if i < 0 || i >= s.len() {
        Seq::empty()
    } else {
        let line = line_at(s, i);
        if secret_key().is_prefix_of(line) {
            quoted(line.subrange(secret_key().len() as int, line.len() as int))
        } else if line_end(s, i) < i || line_end(s, i) >= s.len() {
            Seq::empty()
        } else {
            secret_from(s, line_end(s, i) + 1)
        }
    }
}

/// The remote-console secret that a configuration text names: the quoted value on
/// its first `rcon_password ` line, or empty when no line has that key.
pub open spec fn secret_of(config: Seq<char>) -> Seq<char> {
    secret_from(config, 0)
}

/// Whether a line of `s` starts at `i`.
pub open spec fn starts_line(s: Seq<char>, i: int) -> bool {
    0 <= i < s.len() && (i == 0 || s[i - 1] == '\n')
}

/// Whether some line of `s` begins with the key.
pub open spec fn has_key_line(s: Seq<char>) -> bool {
    exists|i: int| starts_line(s, i) && #[trigger] secret_key().is_prefix_of(line_at(s, i))
}

proof fn lemma_secret_from_absent(s: Seq<char>, i: int)
    requires
        !has_key_line(s),
        0 <= i,
        i == 0 || (i <= s.len() && s[i - 1] == '\n'),
    ensures
        secret_from(s, i) == Seq::<char>::empty(),
    decreases s.len() - i,
{
    if i < s.len() {
        assert(starts_line(s, i));
        lemma_first_index(s, '\n', i);
        let e = line_end(s, i);
        if e < s.len() {
            lemma_secret_from_absent(s, e + 1);
        }
    }
}

/// A configuration without a line that begins with the key names the empty secret.
pub proof fn lemma_secret_absent(config: Seq<char>)
    requires
        !has_key_line(config),
    ensures
        secret_of(config) == Seq::<char>::empty(),
{
    lemma_secret_from_absent(config, 0);
}

/// The remote-console secret that the configuration text `config` names: the text
/// between the first two double quotes of its first line that begins with
/// `rcon_password `, or an empty string when no line begins so.
pub fn parse_rcon_password(config: &str) -> (r: String)
    ensures
        r@ == secret_of(config@),
{
    let s = chars_of(config);
    let key = chars_of("rcon_password ");
    proof {
        reveal_strlit("rcon_password ");
        assert(key@ =~= secret_key());
    }
    let n = s.len();
    let mut i: usize = 0;
    while i < n
        invariant
            n == s.len(),
            s@ == config@,
            key@ == secret_key(),
            i <= n,
            secret_of(config@) == secret_from(s@, i as int),
        decreases n - i,
    {
        let e = find_char_in(&s, '\n', i, n);
        proof {
            lemma_first_index_is(s@, '\n', i as int, e as int);
        }
        let le = if e < n && e > i && s[e - 1] == '\r' {
            e - 1
        } else {
            e
        };
        assert(line_at(s@, i as int) == s@.subrange(i as int, le as int));
        if has_prefix_in(&s, i, le, &key) {
            let start = i + key.len();
            let rest = Ghost(s@.subrange(start as int, le as int));
            assert(rest@ =~= line_at(s@, i as int).subrange(
                secret_key().len() as int,
                line_at(s@, i as int).len() as int,
            ));
            let q = find_char_in(&s, '"', start, le);
            proof {
                lemma_first_index_is(rest@, '"', 0, q - start);
            }
            if q == le {
                return String::new();
            }
            let q2 = find_char_in(&s, '"', q + 1, le);
            proof {
                lemma_first_index_is(rest@, '"', q - start + 1, q2 - start);
                assert(quoted(rest@) =~= s@.subrange(q + 1, q2 as int));
            }
            return String::from_str(config.substring_char(q + 1, q2));
        }
        if e >= n {
            return String::new();
        }
        i = e + 1;
    }
    String::new()
}

/// The secret named by a configuration file, given what reading it gave: a read
/// failure is an I/O error; a readable file without the key names the empty secret.
pub fn resolve_secret(config: Result<String, std::io::Error>) -> (r: Result<String, Error>)
    ensures
        config is Ok <==> r is Ok,
        config is Ok ==> r->Ok_0@ == secret_of(config->Ok_0@),
        config is Err ==> r == Err::<String, Error>(Error::Io(config->Err_0)),
{
    match config {
        Ok(text) => Ok(parse_rcon_password(text.as_str())),
        Err(e) => Err(Error::Io(e)),
    }
}

} // verus!
