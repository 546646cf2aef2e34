//! Plain-text primitives the detector rules are built on: substring
//! containment and a newline-to-comma join, both specified over `Seq<char>`.
use vstd::prelude::*;

verus! {

/// The pattern `pat` occurs in `text` starting at character position `i`.
pub open spec fn contains_at(text: Seq<char>, pat: Seq<char>, i: int) -> bool {
    &&& 0 <= i
    &&& i + pat.len() <= text.len()
    &&& text.subrange(i, i + pat.len()) == pat
}

/// The pattern `pat` occurs somewhere in `text`.
pub open spec fn contains_str(text: Seq<char>, pat: Seq<char>) -> bool {
    exists|i: int| contains_at(text, pat, i)
}

/// Whether `pat` occurs at position `i` of `text`, by direct comparison.
fn match_at(text: &str, pat: &str, i: usize, n: usize, m: usize) -> (r: bool)
    requires
        n == text@.len(),
        m == pat@.len(),
        i + m <= n,
    ensures
        r == contains_at(text@, pat@, i as int),
{
    let mut j: usize = 0;
    while j < m
        invariant
            n == text@.len(),
            m == pat@.len(),
            i + m <= n,
            j <= m,
            forall|l: int| 0 <= l < j ==> text@[i + l] == pat@[l],
        decreases m - j,
    {
        if text.get_char(i + j) != pat.get_char(j) {
            assert(text@.subrange(i as int, i + m) != pat@) by {
                assert(text@.subrange(i as int, i + m)[j as int] == text@[i + j]);
            }
            return false;
        }
        j += 1;
    }
    assert(text@.subrange(i as int, i + m) =~= pat@);
    true
}

/// Substring search: does `text` contain `pat`?
pub fn find_sub(text: &str, pat: &str) -> (r: bool)
    ensures
        r == contains_str(text@, pat@),
{
    let n: usize = text.unicode_len();
    let m: usize = pat.unicode_len();
    if m > n {
        assert(!contains_str(text@, pat@)) by {
            assert(forall|i: int| !contains_at(text@, pat@, i));
        }
        return false;
    }
    if m == 0 {
        assert(contains_at(text@, pat@, 0)) by {
            assert(text@.subrange(0, 0) =~= pat@);
        }
        return true;
    }
    let mut i: usize = 0;
    while i <= n - m
        invariant
            n == text@.len(),
            m == pat@.len(),
            0 < m <= n,
            i <= n - m + 1,
            forall|k: int| 0 <= k < i ==> !contains_at(text@, pat@, k),
        decreases n - i,
    {
        if match_at(text, pat, i, n, m) {
            return true;
        }
        i += 1;
    }
    assert(!contains_str(text@, pat@)) by {
        assert(forall|k: int| contains_at(text@, pat@, k) ==> 0 <= k < i);
    }
    false
}

/// The text with every newline replaced by a comma and a space: the shape a
/// list of lines takes when re-joined as one comma-separated enumeration.
pub open spec fn spec_join_lines(s: Seq<char>) -> Seq<char>
    decreases s.len(),
{
    if s.len() == 0 {
        Seq::<char>::empty()
    } else if s[0] == '\n' {
        ", "@ + spec_join_lines(s.drop_first())
    } else {
        seq![s[0]] + spec_join_lines(s.drop_first())
    }
}

proof fn lemma_join_lines_push(s: Seq<char>, c: char)
    ensures
        spec_join_lines(s.push(c)) == spec_join_lines(s) + (if c == '\n' {
            ", "@
        } else {
            seq![c]
        }),
    decreases s.len(),
{
    let tail: Seq<char> = if c == '\n' { ", "@ } else { seq![c] };
    if s.len() == 0 {
        assert(s.push(c)[0] == c);
        assert(s.push(c).drop_first() =~= Seq::<char>::empty());
        assert(spec_join_lines(s.push(c)) == tail + spec_join_lines(Seq::<char>::empty()));
        assert(tail + Seq::<char>::empty() =~= tail);
        assert(s =~= Seq::<char>::empty());
        assert(Seq::<char>::empty() + tail =~= tail);
    } else {
        assert(s.push(c).drop_first() =~= s.drop_first().push(c));
        assert(s.push(c)[0] == s[0]);
        lemma_join_lines_push(s.drop_first(), c);
        let h: Seq<char> = if s[0] == '\n' { ", "@ } else { seq![s[0]] };
        assert(spec_join_lines(s) == h + spec_join_lines(s.drop_first()));
        assert(spec_join_lines(s.push(c)) == h + spec_join_lines(s.drop_first().push(c)));
        assert(h + (spec_join_lines(s.drop_first()) + tail) =~= (h + spec_join_lines(
            s.drop_first(),
        )) + tail);
    }
}

/// Splits the text on newlines and re-joins the pieces with `", "`.
pub fn join_lines(s: &str) -> (r: String)
    ensures
        r@ == spec_join_lines(s@),
{
    let n: usize = s.unicode_len();
    let mut r = String::new();
    let mut i: usize = 0;
    while i < n
        invariant
            n == s@.len(),
            i <= n,
            r@ == spec_join_lines(s@.subrange(0, i as int)),
        decreases n - i,
    {
        let c = s.get_char(i);
        if c == '\n' {
            r.append(", ");
        } else {
            let piece = s.substring_char(i, i + 1);
            assert(piece@ =~= seq![s@[i as int]]);
            r.append(piece);
        }
        proof {
            assert(s@.subrange(0, i + 1) =~= s@.subrange(0, i as int).push(s@[i as int]));
            lemma_join_lines_push(s@.subrange(0, i as int), s@[i as int]);
        }
        i += 1;
    }
    assert(s@.subrange(0, n as int) =~= s@);
    r
}

} // verus!
