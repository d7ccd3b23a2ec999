//! The launcher's environment variables, read from the values they hold.
//!
//! Each function takes the value of its variable (`None` where it is not
//! set) and treats an empty value as an absent one.
use vstd::prelude::*;

use crate::item::opt_view;

verus! {

/// A value, where an empty one counts as absent.
pub open spec fn present(value: Option<Seq<char>>) -> Option<Seq<char>> {
    match value {
        Some(s) => if s.len() > 0 {
            Some(s)
        } else {
            None
        },
        None => None,
    }
}

/// The value, or `None` where it is absent or empty.
pub fn non_empty(value: Option<String>) -> (r: Option<String>)
    ensures
        opt_view(r) == present(opt_view(value)),
{
    match value {
        Some(s) => if s.as_str().unicode_len() > 0 {
            Some(s)
        } else {
            None
        },
        None => None,
    }
}

pub open spec fn is_digit(c: char) -> bool {
    '0' <= c && c <= '9'
}

pub open spec fn all_digits(s: Seq<char>) -> bool {
    forall|i: int| 0 <= i < s.len() ==> is_digit(#[trigger] s[i])
}

/// The number that the decimal digits `s` write.
pub open spec fn digits_value(s: Seq<char>) -> nat
    decreases s.len(),
{
    if s.len() == 0 {
        0
    } else {
        digits_value(s.drop_last()) * 10 + (s.last() as nat - '0' as nat) as nat
    }
}

/// A `u32` written in decimal, with an optional leading `+`, as Rust's
/// standard library reads it.
pub open spec fn parsed_u32(s: Seq<char>) -> Option<u32> {
    let d = if s.len() > 0 && s[0] == '+' {
        s.drop_first()
    } else {
        s
    };
    if d.len() > 0 && all_digits(d) && digits_value(d) <= u32::MAX {
        Some(digits_value(d) as u32)
    } else {
        None
    }
}

proof fn lemma_prefix_value_le(s: Seq<char>, k: int)
    requires
        all_digits(s),
        0 <= k <= s.len(),
    ensures
        digits_value(s.take(k)) <= digits_value(s),
    decreases s.len(),
{
    if k == s.len() {
        assert(s.take(k) =~= s);
    } else {
        let t = s.drop_last();
        assert(s.take(k) =~= t.take(k));
        assert(all_digits(t)) by {
            assert forall|i: int| 0 <= i < t.len() implies is_digit(#[trigger] t[i]) by {
                assert(t[i] == s[i]);
            }
        }
        lemma_prefix_value_le(t, k);
    }
}

/// Reads a `u32` written in decimal.
pub fn parse_u32(s: &str) -> (r: Option<u32>)
    ensures
        r == parsed_u32(s@),
{
    let n = s.unicode_len();
    let mut start: usize = 0;
    if n > 0 && s.get_char(0) == '+' {
        start = 1;
    }
    let ghost d = s@.subrange(start as int, n as int);
    proof {
        if n > 0 && s@[0] == '+' {
            assert(d =~= s@.drop_first());
        } else {
            assert(d =~= s@);
        }
    }
    if start == n {
        return None;
    }
    let mut i: usize = start;
    while i < n
        invariant
            start <= i <= n,
            n == s@.len(),
            d == s@.subrange(start as int, n as int),
            d == (if s@.len() > 0 && s@[0] == '+' {
                s@.drop_first()
            } else {
                s@
            }),
            forall|j: int| start <= j < i ==> is_digit(#[trigger] s@[j]),
        decreases n - i,
    {
        if !('0' <= s.get_char(i) && s.get_char(i) <= '9') {
            proof {
                assert(d[i - start] == s@[i as int]);
                assert(!is_digit(d[i - start]));
                assert(!all_digits(d));
            }
            return None;
        }
        i = i + 1;
    }
    assert(all_digits(d)) by {
        assert forall|j: int| 0 <= j < d.len() implies is_digit(#[trigger] d[j]) by {
            assert(d[j] == s@[start + j]);
        }
    }
    let mut value: u64 = 0;
    let mut i: usize = start;
    while i < n
        invariant
            start <= i <= n,
            n == s@.len(),
            d == s@.subrange(start as int, n as int),
            d == (if s@.len() > 0 && s@[0] == '+' {
                s@.drop_first()
            } else {
                s@
            }),
            all_digits(d),
            value == digits_value(s@.subrange(start as int, i as int)),
            value <= u32::MAX,
        decreases n - i,
    {
        let c = s.get_char(i);
        proof {
            assert(d[i - start] == c);
            assert(s@.subrange(start as int, i as int + 1).drop_last() =~= s@.subrange(start as int, i as int));
            assert(s@.subrange(start as int, i as int + 1).last() == c);
            assert(is_digit(c));
        }
        value = value * 10 + (c as u64 - '0' as u64);
        i = i + 1;
        assert(value == digits_value(s@.subrange(start as int, i as int)));
        if value > 4294967295 {
            proof {
                assert(s@.subrange(start as int, i as int) =~= d.take(i - start));
                lemma_prefix_value_le(d, i - start);
                assert(digits_value(d) > u32::MAX);
            }
            return None;
        }
    }
    proof {
        assert(s@.subrange(start as int, n as int) =~= d);
    }
    Some(value as u32)
}

/// Whether the launcher's debug panel is open: the value of `alfred_debug`
/// is `1`.
pub fn is_debug(alfred_debug: Option<String>) -> (r: bool)
    ensures
        r == (opt_view(alfred_debug) == Some("1"@)),
{
    match alfred_debug {
        Some(s) => {
            let n = s.as_str().unicode_len();
            proof {
                reveal_strlit("1");
            }
            if n == 1 && s.as_str().get_char(0) == '1' {
                proof {
                    assert(s@ =~= "1"@);
                }
                true
            } else {
                false
            }
        },
        None => false,
    }
}

/// The location of the launcher's preferences, from `alfred_preferences`.
pub fn preferences(alfred_preferences: Option<String>) -> (r: Option<String>)
    ensures
        opt_view(r) == present(opt_view(alfred_preferences)),
{
    non_empty(alfred_preferences)
}

/// The running launcher's version, from `alfred_version`.
pub fn version(alfred_version: Option<String>) -> (r: Option<String>)
    ensures
        opt_view(r) == present(opt_view(alfred_version)),
{
    non_empty(alfred_version)
}

/// The running launcher's build number, from `alfred_version_build`: `None`
/// where it is absent, empty or not a `u32`.
pub fn version_build(alfred_version_build: Option<String>) -> (r: Option<u32>)
    ensures
        r == match alfred_version_build {
            Some(s) => parsed_u32(s@),
            None => None,
        },
{
    match alfred_version_build {
        Some(s) => parse_u32(s.as_str()),
        None => None,
    }
}

/// The bundle identifier of the running workflow, from
/// `alfred_workflow_bundleid`.
pub fn workflow_bundle_id(alfred_workflow_bundleid: Option<String>) -> (r: Option<String>)
    ensures
        opt_view(r) == present(opt_view(alfred_workflow_bundleid)),
{
    non_empty(alfred_workflow_bundleid)
}

/// The name of the running workflow, from `alfred_workflow_name`.
pub fn workflow_name(alfred_workflow_name: Option<String>) -> (r: Option<String>)
    ensures
        opt_view(r) == present(opt_view(alfred_workflow_name)),
{
    non_empty(alfred_workflow_name)
}

/// The unique identifier of the running workflow, from `alfred_workflow_uid`.
pub fn workflow_uid(alfred_workflow_uid: Option<String>) -> (r: Option<String>)
    ensures
        opt_view(r) == present(opt_view(alfred_workflow_uid)),
{
    non_empty(alfred_workflow_uid)
}

/// The version of the running workflow, from `alfred_workflow_version`.
pub fn workflow_version(alfred_workflow_version: Option<String>) -> (r: Option<String>)
    ensures
        opt_view(r) == present(opt_view(alfred_workflow_version)),
{
    non_empty(alfred_workflow_version)
}

/// The directory for the workflow's volatile data, from
/// `alfred_workflow_cache`.
pub fn workflow_cache(alfred_workflow_cache: Option<String>) -> (r: Option<String>)
    ensures
        opt_view(r) == present(opt_view(alfred_workflow_cache)),
{
    non_empty(alfred_workflow_cache)
}

/// The directory for the workflow's lasting data, from
/// `alfred_workflow_data`.
pub fn workflow_data(alfred_workflow_data: Option<String>) -> (r: Option<String>)
    ensures
        opt_view(r) == present(opt_view(alfred_workflow_data)),
{
    non_empty(alfred_workflow_data)
}

} // verus!
