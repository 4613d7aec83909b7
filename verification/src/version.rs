//! The OS version check: parses a dotted version string and decides whether
//! the version is acceptable.
//!
//! The string is split on `'.'` into components. Walking left to right, a
//! numeric major component of at most 13 passes at once; a major component of
//! exactly 14 defers to the minor component, which passes only when it is at
//! most 3; any larger major fails. A component that is not a plain decimal
//! number — and an absent one — fails as unparseable.

use vstd::prelude::*;

use crate::error::Error;
use crate::error::ErrorModel;
use crate::error::result_model;

verus! {

/// Whether `c` is a decimal digit.
pub open spec fn is_digit(c: char) -> bool {
    '0' as u32 <= c as u32 && c as u32 <= '9' as u32
}

/// The numeric value of the digit `c`.
pub open spec fn digit_val(c: char) -> nat {
    (c as int - '0' as int) as nat
}

/// Whether `s` is a non-empty run of decimal digits, i.e. parses as a
/// non-negative integer.
pub open spec fn is_numeric(s: Seq<char>) -> bool {
    s.len() > 0 && forall|i: int| 0 <= i < s.len() ==> is_digit(s[i])
}

/// The non-negative integer that the digit run `s` denotes.
pub open spec fn num_val(s: Seq<char>) -> nat
    decreases s.len(),
{
    if s.len() == 0 {
        0
    } else {
        10 * num_val(s.drop_last()) + digit_val(s.last())
    }
}

/// The index of the first `'.'` in `s` at or after `from`; `s.len()` when
/// there is none.
pub open spec fn dot_after(s: Seq<char>, from: int) -> int
    decreases s.len() - from,
{
    if from < 0 || from >= s.len() {
        s.len() as int
    } else if s[from] == '.' {
        from
    } else {
        dot_after(s, from + 1)
    }
}

/// Where the major component of `s` ends: the first `'.'`, or the end of the
/// string.
pub open spec fn major_end(s: Seq<char>) -> int {
    dot_after(s, 0)
}

/// The major component of `s`: everything before the first `'.'`.
pub open spec fn major_comp(s: Seq<char>) -> Seq<char> {
    s.subrange(0, major_end(s))
}

/// Where the minor component of `s` ends: the first `'.'` after the major
/// component, or the end of the string.
pub open spec fn minor_end(s: Seq<char>) -> int {
    dot_after(s, major_end(s) + 1)
}

/// The minor component of `s`: everything between the first `'.'` and the
/// second one. Meaningful only when the string has a first `'.'`.
pub open spec fn minor_comp(s: Seq<char>) -> Seq<char> {
    s.subrange(major_end(s) + 1, minor_end(s))
}

/// The verdict of the version check on the version string `s`, following
/// the walk described above.
pub open spec fn version_result(s: Seq<char>) -> Result<(), ErrorModel> {
    if !is_numeric(major_comp(s)) {
        Err(ErrorModel::ParseOsVersion)
    } else if num_val(major_comp(s)) <= 13 {
        Ok(())
    } else if num_val(major_comp(s)) > 14 {
        Err(ErrorModel::NotPosix)
    } else if major_end(s) == s.len() {
        // a major component of 14 with no minor component after it
        Err(ErrorModel::ParseOsVersion)
    } else if !is_numeric(minor_comp(s)) {
        Err(ErrorModel::ParseOsVersion)
    } else if num_val(minor_comp(s)) <= 3 {
        Ok(())
    } else {
        Err(ErrorModel::NotPosix)
    }
}

/// `dot_after(s, from)` is the least dot position at or after `from`: it is
/// characterized by any `d` with no dot in `[from, d)` that either is a dot
/// or is the end of the string.
proof fn lemma_dot_after_characterization(s: Seq<char>, from: int, d: int)
    requires
        0 <= from <= d <= s.len(),
        forall|i: int| from <= i < d ==> s[i] != '.',
        d == s.len() || s[d] == '.',
    ensures
        dot_after(s, from) == d,
    decreases d - from,
{
    if from < d {
        lemma_dot_after_characterization(s, from + 1, d);
    }
}

/// Appending a digit multiplies the value by ten and adds the digit.
proof fn lemma_num_val_push(q: Seq<char>, c: char)
    ensures
        num_val(q.push(c)) == 10 * num_val(q) + digit_val(c),
{
    assert(q.push(c).drop_last() =~= q);
}

/// Finds the first `'.'` in `s` at or after `from`, or the end of the string.
fn find_dot(s: &str, from: usize) -> (d: usize)
    requires
        from as int <= s@.len(),
    ensures
        d == dot_after(s@, from as int),
        from <= d,
        d as int <= s@.len(),
{
    let n = s.unicode_len();
    let mut d = from;
    while d < n && s.get_char(d) != '.'
        invariant
            from <= d <= n,
            n == s@.len(),
            forall|i: int| from as int <= i < d as int ==> s@[i] != '.',
        decreases n - d,
    {
        d = d + 1;
    }
    proof {
        lemma_dot_after_characterization(s@, from as int, d as int);
    }
    d
}

/// Reads the component `s[from..to]` as a non-negative integer. Returns
/// `None` when the component is empty or holds a non-digit. Values of 100 or
/// more — far beyond every threshold the check compares against — are
/// reported as some value of at least 100.
fn parse_component(s: &str, from: usize, to: usize) -> (r: Option<u32>)
    requires
        from <= to,
        to as int <= s@.len(),
    ensures
        ({
            let comp = s@.subrange(from as int, to as int);
            match r {
                None => !is_numeric(comp),
                Some(v) => is_numeric(comp) && if num_val(comp) < 100 {
                    v == num_val(comp)
                } else {
                    v >= 100
                },
            }
        }),
{
    if from == to {
        return None;
    }
    let mut i = from;
    let mut val: u32 = 0;
    while i < to
        invariant
            from <= i <= to,
            to as int <= s@.len(),
            forall|j: int| from as int <= j < i as int ==> is_digit(s@[j]),
            val <= 999,
            ({
                let pre = s@.subrange(from as int, i as int);
                if num_val(pre) < 100 {
                    val == num_val(pre)
                } else {
                    val >= 100
                }
            }),
        decreases to - i,
    {
        let c = s.get_char(i);
        let u = c as u32;
        if u < '0' as u32 || u > '9' as u32 {
            proof {
                let comp = s@.subrange(from as int, to as int);
                assert(comp[i as int - from as int] == s@[i as int]);
                assert(!is_digit(comp[i as int - from as int]));
            }
            return None;
        }
        let d = u - '0' as u32;
        if val < 100 {
            val = val * 10 + d;
        }
        proof {
            let pre = s@.subrange(from as int, i as int);
            assert(s@.subrange(from as int, i as int + 1) =~= pre.push(s@[i as int]));
            lemma_num_val_push(pre, s@[i as int]);
        }
        i = i + 1;
    }
    assert(s@.subrange(from as int, to as int).len() > 0);
    Some(val)
}

/// Decides whether the version string `ver` names an acceptable OS version:
/// a major version of at most 13, or 14 with a minor version of at most 3.
/// Returns `Error::NotPosix` for every newer version and
/// `Error::ParseOsVersion` where the walk meets a component that is not a
/// non-negative integer.
pub fn check_posix(ver: &str) -> (r: Result<(), Error>)
    ensures
        result_model(r) == version_result(ver@),
{
    let d0 = find_dot(ver, 0);
    match parse_component(ver, 0, d0) {
        None => Err(Error::ParseOsVersion),
        Some(major) => {
            if major <= 13 {
                Ok(())
            } else if major > 14 {
                Err(Error::NotPosix)
            } else if d0 == ver.unicode_len() {
                Err(Error::ParseOsVersion)
            } else {
                let d1 = find_dot(ver, d0 + 1);
                match parse_component(ver, d0 + 1, d1) {
                    None => Err(Error::ParseOsVersion),
                    Some(minor) => {
                        if minor <= 3 {
                            Ok(())
                        } else {
                            Err(Error::NotPosix)
                        }
                    },
                }
            }
        },
    }
}

/// Every version string whose major component is numeric with value at most
/// 13 passes the version check, whatever follows the first `'.'`.
pub proof fn lemma_low_major_passes(s: Seq<char>)
    requires
        is_numeric(major_comp(s)),
        num_val(major_comp(s)) <= 13,
    ensures
        version_result(s) is Ok,
{
}

} // verus!
