//! Configuration lookup: the pure core of the `env!` fallback chain.
//!
//! A key is resolved from the process environment first; failing that, from
//! the text of a `.env` file, whose first `KEY=value` line wins. The reads
//! themselves (environment, file) happen outside the library; this module
//! only decides, over the values handed in.

use vstd::prelude::*;
use crate::outbound::{chars_of, chars_to_string};

verus! {

/// A line with any trailing carriage return removed, as a line read from a
/// file with Windows line endings would be.
pub open spec fn strip_cr(line: Seq<char>) -> Seq<char> {
    if line.len() > 0 && line.last() == '\r' {
        line.drop_last()
    } else {
        line
    }
}

/// The value a single line defines for `key`: the rest of the line after
/// `KEY=`, or nothing when the line does not start that way.
pub open spec fn env_line_value(line: Seq<char>, key: Seq<char>) -> Option<Seq<char>> {
    if line.len() > key.len() && line.take(key.len() as int) == key && line[key.len() as int]
        == '=' {
        Some(line.skip(key.len() as int + 1))
    } else {
        None
    }
}

/// Scan `rest` line by line — `cur` holds the current line read so far —
/// and yield the first value defined for `key`.
pub open spec fn dotenv_scan(rest: Seq<char>, cur: Seq<char>, key: Seq<char>) -> Option<Seq<char>>
    decreases rest.len(),
{
    if rest.len() == 0 {
        env_line_value(strip_cr(cur), key)
    } else if rest[0] == '\n' {
        match env_line_value(strip_cr(cur), key) {
            Some(value) => Some(value),
            None => dotenv_scan(rest.drop_first(), Seq::empty(), key),
        }
    } else {
        dotenv_scan(rest.drop_first(), cur.push(rest[0]), key)
    }
}

/// The value the `.env` text `content` defines for `key`: the first line
/// `KEY=value` wins, later lines are shadowed.
pub open spec fn dotenv_value_spec(content: Seq<char>, key: Seq<char>) -> Option<Seq<char>> {
    dotenv_scan(content, Seq::empty(), key)
}

/// Why a key could not be resolved.
#[derive(Debug)]
pub enum EnvError {
    /// The `.env` text was there but defines no non-empty value for the key.
    MissingKey,
    /// Neither the process environment nor any `.env` text was available.
    NoSource,
}

/// The value one line defines for `key`, with a trailing carriage return
/// stripped first.
fn line_value(line: &Vec<char>, key: &Vec<char>) -> (value: Option<Vec<char>>)
    ensures
        match value {
            Some(v) => env_line_value(strip_cr(line@), key@) == Some(v@),
            None => env_line_value(strip_cr(line@), key@) is None,
        },
{
    let mut end = line.len();
    if end > 0 && line[end - 1] == '\r' {
        end = end - 1;
    }
    proof {
        assert(line@.take(end as int) =~= strip_cr(line@));
    }
    if end <= key.len() {
        return None;
    }
    let mut j: usize = 0;
    while j < key.len()
        invariant
            j <= key@.len(),
            key@.len() < end <= line@.len(),
            forall|m: int| 0 <= m < j ==> line@[m] == key@[m],
        decreases key@.len() - j,
    {
        if line[j] != key[j] {
            proof {
                assert(strip_cr(line@).take(key@.len() as int)[j as int] != key@[j as int]);
            }
            return None;
        }
        j += 1;
    }
    if line[key.len()] != '=' {
        return None;
    }
    proof {
        assert(strip_cr(line@).take(key@.len() as int) =~= key@);
    }
    let mut value: Vec<char> = Vec::new();
    let mut m: usize = key.len() + 1;
    while m < end
        invariant
            key@.len() + 1 <= m <= end <= line@.len(),
            value@ == line@.subrange(key@.len() as int + 1, m as int),
        decreases end - m,
    {
        value.push(line[m]);
        proof {
            assert(value@ =~= line@.subrange(key@.len() as int + 1, m + 1));
        }
        m += 1;
    }
    proof {
        assert(value@ =~= strip_cr(line@).skip(key@.len() as int + 1));
    }
    Some(value)
}

/// The value `content` — the text of a `.env` file — defines for `key`.
pub fn dotenv_value(content: &str, key: &str) -> (value: Option<String>)
    ensures
        match value {
            Some(v) => dotenv_value_spec(content@, key@) == Some(v@),
            None => dotenv_value_spec(content@, key@) is None,
        },
{
    let text = chars_of(content);
    let key_chars = chars_of(key);
    let mut cur: Vec<char> = Vec::new();
    let mut i: usize = 0;
    proof {
        assert(text@.skip(0) =~= text@);
        assert(cur@ =~= Seq::<char>::empty());
    }
    while i < text.len()
        invariant
            i <= text@.len(),
            text@ == content@,
            key_chars@ == key@,
            dotenv_scan(text@.skip(i as int), cur@, key@) == dotenv_value_spec(content@, key@),
        decreases text@.len() - i,
    {
        let c = text[i];
        proof {
            assert(text@.skip(i as int)[0] == text@[i as int]);
            assert(text@.skip(i as int).drop_first() =~= text@.skip(i + 1));
        }
        if c == '\n' {
            match line_value(&cur, &key_chars) {
                Some(v) => {
                    return Some(chars_to_string(&v));
                },
                None => {
                    cur = Vec::new();
                },
            }
        } else {
            cur.push(c);
        }
        i += 1;
    }
    proof {
        assert(text@.skip(text@.len() as int) =~= Seq::<char>::empty());
    }
    match line_value(&cur, &key_chars) {
        Some(v) => Some(chars_to_string(&v)),
        None => None,
    }
}

/// Resolve a configuration key: a process-environment value wins outright;
/// otherwise the first non-empty value the `.env` text defines for the key;
/// an empty or absent value is an error, and so is having no `.env` text at
/// all.
pub fn resolve_env(key: &str, process: Option<String>, dotenv: Option<&str>) -> (resolved: Result<
    String,
    EnvError,
>)
    ensures
        match process {
            Some(value) => resolved == Ok::<String, EnvError>(value),
            None => match dotenv {
                Some(content) => match dotenv_value_spec(content@, key@) {
                    Some(found) => if found.len() > 0 {
                        resolved matches Ok(value) && value@ == found
                    } else {
                        resolved matches Err(e) && e is MissingKey
                    },
                    None => resolved matches Err(e) && e is MissingKey,
                },
                None => resolved matches Err(e) && e is NoSource,
            },
        },
{
    match process {
        Some(value) => Ok(value),
        None => match dotenv {
            Some(content) => match dotenv_value(content, key) {
                Some(value) => {
                    if value.as_str().is_empty() {
                        Err(EnvError::MissingKey)
                    } else {
                        Ok(value)
                    }
                },
                None => Err(EnvError::MissingKey),
            },
            None => Err(EnvError::NoSource),
        },
    }
}

} // verus!
