//! Parsing of the configured allowed-origin list: a comma-separated
//! value, each entry stripped of surrounding ASCII whitespace, empty
//! entries dropped. The serving layer turns the entries into header
//! values; which origins are sent is decided here.

use vstd::prelude::*;

verus! {

/// ASCII whitespace as it may surround an origin entry.
pub open spec fn is_space(c: char) -> bool {
    c == ' ' || c == '\t' || c == '\r' || c == '\n'
}

/// `s` without leading and trailing whitespace.
pub open spec fn spec_trim(s: Seq<char>) -> Seq<char>
    decreases s.len(),
{
    if s.len() > 0 && is_space(s.first()) {
        spec_trim(s.drop_first())
    } else if s.len() > 0 && is_space(s.last()) {
        spec_trim(s.drop_last())
    } else {
        s
    }
}

/// `s` split at every separator, as `str::split` does it: empty input
/// gives one empty piece, and a trailing separator a trailing empty piece.
pub open spec fn spec_split(s: Seq<char>, sep: char) -> Seq<Seq<char>>
    decreases s.len(),
{
    if s.len() == 0 {
        seq![Seq::<char>::empty()]
    } else if s.last() == sep {
        spec_split(s.drop_last(), sep).push(Seq::<char>::empty())
    } else {
        let p = spec_split(s.drop_last(), sep);
        p.update(p.len() - 1, p.last().push(s.last()))
    }
}

/// The pieces trimmed, with the empty ones dropped.
pub open spec fn spec_trimmed_nonempty(pieces: Seq<Seq<char>>) -> Seq<Seq<char>>
    decreases pieces.len(),
{
    if pieces.len() == 0 {
        Seq::empty()
    } else if spec_trim(pieces.last()).len() > 0 {
        spec_trimmed_nonempty(pieces.drop_last()).push(spec_trim(pieces.last()))
    } else {
        spec_trimmed_nonempty(pieces.drop_last())
    }
}

/// The origin entries of a comma-separated configuration value.
pub open spec fn spec_origin_list(s: Seq<char>) -> Seq<Seq<char>> {
    spec_trimmed_nonempty(spec_split(s, ','))
}

/// Splitting never yields an empty piece list.
proof fn lemma_split_nonempty(s: Seq<char>, sep: char)
    ensures
        spec_split(s, sep).len() >= 1,
    decreases s.len(),
{
    if s.len() > 0 {
        lemma_split_nonempty(s.drop_last(), sep);
    }
}

/// Trimming a piece whose surrounding whitespace sits at indices
/// `[lo, a)` and `[b, hi)` of `s` leaves exactly `s[a .. b)`.
proof fn lemma_trim_bounds(s: Seq<char>, lo: int, hi: int, a: int, b: int)
    requires
        0 <= lo <= a <= b <= hi <= s.len(),
        forall|k: int| lo <= k < a ==> is_space(#[trigger] s[k]),
        forall|k: int| b <= k < hi ==> is_space(#[trigger] s[k]),
        a < b ==> !is_space(s[a]) && !is_space(s[b - 1]),
    ensures
        spec_trim(s.subrange(lo, hi)) == s.subrange(a, b),
    decreases hi - lo,
{
    let piece = s.subrange(lo, hi);
    if lo < a {
        assert(is_space(piece.first()));
        assert(piece.drop_first() =~= s.subrange(lo + 1, hi));
        lemma_trim_bounds(s, lo + 1, hi, a, b);
    } else if a == b {
        if lo < hi {
            assert(is_space(piece.first()));
            assert(piece.drop_first() =~= s.subrange(lo + 1, hi));
            lemma_trim_bounds(s, lo + 1, hi, lo + 1, lo + 1);
            assert(s.subrange(lo + 1, lo + 1) =~= s.subrange(a, b));
        } else {
            assert(piece =~= s.subrange(a, b));
        }
    } else if b < hi {
        assert(!is_space(piece.first()));
        assert(is_space(piece.last()));
        assert(piece.drop_last() =~= s.subrange(lo, hi - 1));
        lemma_trim_bounds(s, lo, hi - 1, a, b);
    } else {
        assert(!is_space(piece.first()));
        assert(!is_space(piece.last()));
        assert(piece =~= s.subrange(a, b));
    }
}

/// Trims `value[lo .. hi)` and returns it when anything is left.
fn trimmed_piece(value: &str, lo: usize, hi: usize) -> (r: Option<String>)
    requires
        lo <= hi <= value@.len(),
    ensures
        match r {
            Some(t) => t@ == spec_trim(value@.subrange(lo as int, hi as int)) && t@.len() > 0,
            None => spec_trim(value@.subrange(lo as int, hi as int)).len() == 0,
        },
{
    let mut a: usize = lo;
    let mut b: usize = hi;
    while a < b && is_space_char(value.get_char(a))
        invariant
            lo <= a <= b <= hi <= value@.len(),
            forall|k: int| lo <= k < a ==> is_space(#[trigger] value@[k]),
            b == hi,
        decreases b - a,
    {
        a = a + 1;
    }
    while b > a && is_space_char(value.get_char(b - 1))
        invariant
            lo <= a <= b <= hi <= value@.len(),
            forall|k: int| lo <= k < a ==> is_space(#[trigger] value@[k]),
            forall|k: int| b <= k < hi ==> is_space(#[trigger] value@[k]),
            a < b ==> !is_space(value@[a as int]),
        decreases b - a,
    {
        b = b - 1;
    }
    proof {
        lemma_trim_bounds(value@, lo as int, hi as int, a as int, b as int);
    }
    if a < b {
        Some(String::from_str(value.substring_char(a, b)))
    } else {
        None
    }
}

/// Whether a character is ASCII whitespace.
fn is_space_char(c: char) -> (r: bool)
    ensures
        r == is_space(c),
{
    c == ' ' || c == '\t' || c == '\r' || c == '\n'
}

/// Splits a comma-separated allowed-origin value into its entries, each
/// stripped of surrounding ASCII whitespace, empty entries dropped; an
/// empty or all-whitespace value yields no entries.
pub fn split_origins(value: &str) -> (r: Vec<String>)
    ensures
        r.deep_view() == spec_origin_list(value@),
{
    let mut r: Vec<String> = Vec::new();
    let len: usize = value.unicode_len();
    let mut start: usize = 0;
    let mut i: usize = 0;
    while i < len
        invariant
            0 <= start <= i <= len,
            len == value@.len(),
            spec_split(value@.take(i as int), ',').last() =~= value@.subrange(
                start as int,
                i as int,
            ),
            r.deep_view() == spec_trimmed_nonempty(
                spec_split(value@.take(i as int), ',').drop_last(),
            ),
        decreases len - i,
    {
        let ghost parts = spec_split(value@.take(i as int), ',');
        let ghost parts1 = spec_split(value@.take(i + 1), ',');
        proof {
            lemma_split_nonempty(value@.take(i as int), ',');
            assert(value@.take(i + 1).drop_last() =~= value@.take(i as int));
            assert(value@.take(i + 1).last() == value@[i as int]);
        }
        if value.get_char(i) == ',' {
            proof {
                assert(parts1 =~= parts.push(Seq::<char>::empty()));
                assert(parts1.drop_last() =~= parts);
                assert(parts =~= parts.drop_last().push(parts.last()));
            }
            match trimmed_piece(value, start, i) {
                Some(t) => {
                    r.push(t);
                },
                None => {},
            }
            proof {
                assert(r.deep_view() =~= spec_trimmed_nonempty(parts1.drop_last()));
            }
            start = i + 1;
            i = i + 1;
            proof {
                assert(parts1.last() =~= value@.subrange(start as int, i as int));
            }
        } else {
            proof {
                let updated = parts.update(parts.len() - 1, parts.last().push(value@[i as int]));
                assert(parts1 =~= updated);
                assert(parts1.last() =~= value@.subrange(start as int, i + 1));
                assert(parts1.drop_last() =~= parts.drop_last());
            }
            i = i + 1;
        }
    }
    let ghost parts = spec_split(value@, ',');
    proof {
        lemma_split_nonempty(value@, ',');
        assert(value@.take(len as int) =~= value@);
        assert(parts =~= parts.drop_last().push(parts.last()));
    }
    match trimmed_piece(value, start, len) {
        Some(t) => {
            r.push(t);
        },
        None => {},
    }
    proof {
        assert(r.deep_view() =~= spec_origin_list(value@));
    }
    r
}

} // verus!
