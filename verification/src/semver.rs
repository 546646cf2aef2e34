//! Dotted version strings: splitting into numeric components and the
//! outdatedness comparison.
//!
//! Only the first two dot-separated groups of a version string ever take part
//! in a comparison; a third (patch) group is ignored. A group that is empty,
//! holds a non-digit, or does not fit in a `u64` contributes no component, so
//! a malformed version yields fewer than two components — and a version whose
//! component count differs from two is judged outdated regardless of the
//! numeric values (a deliberate rule; see `spec_outdated`).
use vstd::prelude::*;

verus! {

pub open spec fn is_digit(c: char) -> bool {
    '0' <= c && c <= '9'
}

pub open spec fn digit_val(c: char) -> int {
    c as int - '0' as int
}

pub open spec fn all_digits(s: Seq<char>) -> bool {
    forall|i: int| 0 <= i < s.len() ==> is_digit(#[trigger] s[i])
}

/// The numeric value of a digit string, most significant digit first.
pub open spec fn str_to_int(s: Seq<char>) -> int
    decreases s.len(),
{
    if s.len() == 0 {
        0
    } else {
        str_to_int(s.drop_last()) * 10 + digit_val(s.last())
    }
}

/// The component a single dot-separated group contributes: its numeric value
/// if the group is a non-empty digit string whose value fits in a `u64`,
/// nothing otherwise.
pub open spec fn parse_group(s: Seq<char>) -> Option<u64> {
    if s.len() > 0 && all_digits(s) && str_to_int(s) <= u64::MAX {
        Some(str_to_int(s) as u64)
    } else {
        None
    }
}

/// Position of the first `'.'` at or after `from`, or the length if none.
pub open spec fn first_dot_from(s: Seq<char>, from: int) -> int
    recommends
        0 <= from <= s.len(),
    decreases s.len() - from when 0 <= from <= s.len()
{
    if from >= s.len() {
        s.len() as int
    } else if s[from] == '.' {
        from
    } else {
        first_dot_from(s, from + 1)
    }
}

pub open spec fn opt_to_seq(o: Option<u64>) -> Seq<u64> {
    match o {
        Some(v) => seq![v],
        None => Seq::<u64>::empty(),
    }
}

/// The components of a version string: the parsed values of its first two
/// dot-separated groups, in order, unparsable groups contributing nothing.
pub open spec fn version_parts(s: Seq<char>) -> Seq<u64> {
    let d1 = first_dot_from(s, 0);
    if d1 == s.len() {
        opt_to_seq(parse_group(s))
    } else {
        let d2 = first_dot_from(s, d1 + 1);
        opt_to_seq(parse_group(s.subrange(0, d1))) + opt_to_seq(
            parse_group(s.subrange(d1 + 1, d2)),
        )
    }
}

proof fn lemma_str_to_int_nonneg(s: Seq<char>)
    requires
        all_digits(s),
    ensures
        str_to_int(s) >= 0,
    decreases s.len(),
{
    if s.len() > 0 {
        assert(all_digits(s.drop_last()));
        lemma_str_to_int_nonneg(s.drop_last());
    }
}

/// A digit string is worth at least as much as any of its prefixes.
proof fn lemma_str_to_int_prefix_le(s: Seq<char>, i: int)
    requires
        all_digits(s),
        0 <= i <= s.len(),
    ensures
        str_to_int(s.subrange(0, i)) <= str_to_int(s),
    decreases s.len() - i,
{
    if i == s.len() {
        assert(s.subrange(0, i) =~= s);
    } else {
        let t = s.subrange(0, i + 1);
        assert(all_digits(t));
        assert(t.drop_last() =~= s.subrange(0, i));
        lemma_str_to_int_nonneg(t.drop_last());
        assert(str_to_int(t) == str_to_int(s.subrange(0, i)) * 10 + digit_val(t.last()));
        assert(str_to_int(s.subrange(0, i)) <= str_to_int(t));
        lemma_str_to_int_prefix_le(s, i + 1);
    }
}

/// Finds the first `'.'` at or after `from`.
fn find_dot(s: &str, from: usize, n: usize) -> (r: usize)
    requires
        n == s@.len(),
        from <= n,
    ensures
        from <= r <= n,
        r == first_dot_from(s@, from as int),
{
    let mut i: usize = from;
    while i < n
        invariant
            n == s@.len(),
            from <= i <= n,
            first_dot_from(s@, from as int) == first_dot_from(s@, i as int),
        decreases n - i,
    {
        if s.get_char(i) == '.' {
            return i;
        }
        i += 1;
    }
    n
}

/// Parses the group `s[from..to]` as one version component.
fn parse_group_exec(s: &str, from: usize, to: usize) -> (r: Option<u64>)
    requires
        from <= to <= s@.len(),
    ensures
        r == parse_group(s@.subrange(from as int, to as int)),
{
    let ghost g = s@.subrange(from as int, to as int);
    if from == to {
        return None;
    }
    let mut i: usize = from;
    let mut val: u64 = 0;
    while i < to
        invariant
            from <= i <= to <= s@.len(),
            g == s@.subrange(from as int, to as int),
            all_digits(s@.subrange(from as int, i as int)),
            val == str_to_int(s@.subrange(from as int, i as int)),
        decreases to - i,
    {
        let c = s.get_char(i);
        if c < '0' || c > '9' {
            assert(!all_digits(g)) by {
                assert(g[i - from] == s@[i as int]);
            }
            return None;
        }
        let d: u64 = (c as u32 - '0' as u32) as u64;
        proof {
            assert(s@.subrange(from as int, i + 1).drop_last() =~= s@.subrange(
                from as int,
                i as int,
            ));
            assert(all_digits(s@.subrange(from as int, i + 1)));
        }
        let next = match val.checked_mul(10) {
            Some(v) => v.checked_add(d),
            None => None,
        };
        match next {
            Some(v) => {
                val = v;
            },
            None => {
                proof {
                    assert(str_to_int(s@.subrange(from as int, i + 1)) > u64::MAX);
                    if all_digits(g) {
                        lemma_str_to_int_prefix_le(g, i + 1 - from);
                        assert(g.subrange(0, i + 1 - from) =~= s@.subrange(from as int, i + 1));
                    }
                }
                return None;
            },
        }
        i += 1;
    }
    assert(g =~= s@.subrange(from as int, to as int));
    Some(val)
}

/// Splits a dotted version string into its numeric components; only the
/// first two dot-separated groups are considered.
pub fn semver_split(version: &str) -> (r: Vec<u64>)
    ensures
        r@ == version_parts(version@),
{
    let n: usize = version.unicode_len();
    let mut parts: Vec<u64> = Vec::new();
    let d1 = find_dot(version, 0, n);
    match parse_group_exec(version, 0, d1) {
        Some(v) => parts.push(v),
        None => (),
    }
    if d1 < n {
        let d2 = find_dot(version, d1 + 1, n);
        match parse_group_exec(version, d1 + 1, d2) {
            Some(v) => parts.push(v),
            None => (),
        }
    } else {
        assert(version@.subrange(0, n as int) =~= version@);
    }
    assert(parts@ =~= version_parts(version@));
    parts
}

/// The comparison rule, kept deliberately strict: a log version is outdated
/// when its component count differs from two, or its leading component is
/// behind the latest's, or the leading components tie and the second is
/// behind.
pub open spec fn spec_outdated(log_parts: Seq<u64>, latest_parts: Seq<u64>) -> bool {
    ||| log_parts.len() != 2
    ||| log_parts[0] < latest_parts[0]
    ||| (log_parts[0] == latest_parts[0] && log_parts[1] < latest_parts[1])
}

/// Decides outdatedness over split versions. The latest version must offer
/// the two components the comparison reads whenever the log version has
/// exactly two.
pub fn is_outdated(log_parts: &Vec<u64>, latest_parts: &Vec<u64>) -> (r: bool)
    requires
        log_parts@.len() == 2 ==> latest_parts@.len() >= 2,
    ensures
        r == spec_outdated(log_parts@, latest_parts@),
{
    if log_parts.len() != 2 {
        true
    } else if log_parts[0] < latest_parts[0] {
        true
    } else {
        log_parts[0] == latest_parts[0] && log_parts[1] < latest_parts[1]
    }
}

} // verus!
