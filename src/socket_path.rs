use vstd::prelude::*;

use crate::model::{first_where, is_first_where, lemma_first_where_at, none_where};

verus! {

/// Seconds to wait before listing the runtime directory again while the
/// socket has not appeared.
pub const RETRY_INTERVAL_SECS: u64 = 1;

/// Directory searched when the environment names no runtime directory.
pub open spec fn fallback_runtime_dir() -> Seq<char> {
    "/tmp"@
}

/// `m` occurs in `s` as a run of consecutive characters.
pub open spec fn has_infix(s: Seq<char>, m: Seq<char>) -> bool {
    exists|i: int| 0 <= i && i + m.len() <= s.len() && #[trigger] s.subrange(i, i + m.len()) == m
}

/// Holds of a directory entry that is the compositor's socket: its path
/// contains the compositor's name.
pub open spec fn socket_pred() -> spec_fn(String) -> bool {
    |p: String| has_infix(p@, "niri"@)
}

/// The directory to search for the socket: the value of the runtime-directory
/// variable where it is set, else the fallback.
pub fn runtime_dir(var: Option<String>) -> (r: String)
    ensures
        r@ == match var {
            Some(v) => v@,
            None => fallback_runtime_dir(),
        },
{
    match var {
        Some(v) => v,
        None => "/tmp".to_owned(),
    }
}

/// `m` occurs in `s` at position `i`.
fn infix_at(s: &str, m: &str, i: usize) -> (r: bool)
    requires
        i + m@.len() <= s@.len(),
        s@.len() <= usize::MAX,
    ensures
        r == (s@.subrange(i as int, i + m@.len()) == m@),
{
    let len = m.unicode_len();
    let mut j: usize = 0;
    while j < len
        invariant
            len == m@.len(),
            i + m@.len() <= s@.len(),
            s@.len() <= usize::MAX,
            0 <= j <= len,
            forall|k: int| 0 <= k < j ==> s@[i + k] == m@[k],
        decreases len - j,
    {
        if s.get_char(i + j) != m.get_char(j) {
            assert(s@.subrange(i as int, i + m@.len())[j as int] != m@[j as int]);
            return false;
        }
        j = j + 1;
    }
    assert(s@.subrange(i as int, i + m@.len()) =~= m@);
    true
}

/// Whether `m` occurs in `s`.
pub fn contains_infix(s: &str, m: &str) -> (r: bool)
    ensures
        r == has_infix(s@, m@),
{
    let n = s.unicode_len();
    let len = m.unicode_len();
    if len > n {
        return false;
    }
    let last = n - len;
    let mut i: usize = 0;
    loop
        invariant
            n == s@.len(),
            len == m@.len(),
            last == n - len,
            0 <= i <= last,
            forall|k: int| 0 <= k < i ==> #[trigger] s@.subrange(k, k + len) != m@,
        decreases last - i,
    {
        if infix_at(s, m, i) {
            return true;
        }
        if i == last {
            return false;
        }
        i = i + 1;
    }
}

/// The first of `entries` (paths of a directory's entries) that is the
/// compositor's socket, if any is. The caller lists the directory again and
/// again until this answers.
pub fn first_socket_path(entries: &[String]) -> (r: Option<String>)
    ensures
        r == first_where(entries@, socket_pred()),
{
    let mut i: usize = 0;
    while i < entries.len()
        invariant
            0 <= i <= entries@.len(),
            forall|j: int| 0 <= j < i ==> !socket_pred()(#[trigger] entries@[j]),
        decreases entries@.len() - i,
    {
        if contains_infix(entries[i].as_str(), "niri") {
            proof {
                lemma_first_where_at(entries@, socket_pred(), i as int);
            }
            return Some(entries[i].clone());
        }
        i = i + 1;
    }
    assert(none_where(entries@, socket_pred()));
    assert(!exists|k: int| is_first_where(entries@, socket_pred(), k));
    None
}

} // verus!
