//! Text helpers: joining, copying, comparing and trimming.
use vstd::prelude::*;

verus! {

/// The parts in order, with `separator` between neighbours.
pub open spec fn joined(parts: Seq<Seq<char>>, separator: Seq<char>) -> Seq<char>
    decreases parts.len(),
{
    if parts.len() == 0 {
        Seq::empty()
    } else if parts.len() == 1 {
        parts[0]
    } else {
        joined(parts.drop_last(), separator) + separator + parts.last()
    }
}

/// Joins `parts` with `separator` between neighbours.
pub fn join(parts: &Vec<String>, separator: &str) -> (r: String)
    ensures
        r@ == joined(parts.deep_view(), separator@),
{
    let mut r = String::new();
    let ghost all = parts.deep_view();
    for i in 0..parts.len()
        invariant
            all == parts.deep_view(),
            r@ == joined(all.take(i as int), separator@),
    {
        assert(all.take(i + 1).drop_last() =~= all.take(i as int));
        if i > 0 {
            r.append(separator);
        }
        r.append(parts[i].as_str());
        assert(i == 0 ==> r@ =~= all[0]);
    }
    assert(all.take(parts.len() as int) =~= all);
    r
}

/// A copy of `strings`.
pub fn copy_strings(strings: &Vec<String>) -> (r: Vec<String>)
    ensures
        r.deep_view() == strings.deep_view(),
{
    let r = strings.clone();
    assert(r.deep_view() =~= strings.deep_view());
    r
}

/// Whether `text` reads `expected`.
pub fn reads(text: &String, expected: &str) -> (r: bool)
    ensures
        r == (text@ == expected@),
{
    *text == expected.to_owned()
}

/// The Unicode property `White_Space`.
pub open spec fn is_white_space(c: char) -> bool {
    ||| '\u{9}' <= c <= '\u{d}'
    ||| c == ' '
    ||| c == '\u{85}'
    ||| c == '\u{a0}'
    ||| c == '\u{1680}'
    ||| '\u{2000}' <= c <= '\u{200a}'
    ||| c == '\u{2028}'
    ||| c == '\u{2029}'
    ||| c == '\u{202f}'
    ||| c == '\u{205f}'
    ||| c == '\u{3000}'
}

/// `s` without the white space it starts with.
pub open spec fn trimmed_start(s: Seq<char>) -> Seq<char>
    decreases s.len(),
{
    if s.len() > 0 && is_white_space(s.first()) {
        trimmed_start(s.drop_first())
    } else {
        s
    }
}

/// `s` without the white space it ends with.
pub open spec fn trimmed_end(s: Seq<char>) -> Seq<char>
    decreases s.len(),
{
    if s.len() > 0 && is_white_space(s.last()) {
        trimmed_end(s.drop_last())
    } else {
        s
    }
}

/// `s` without the white space at either end.
pub open spec fn trimmed(s: Seq<char>) -> Seq<char> {
    trimmed_end(trimmed_start(s))
}

/// `str::trim` of the standard library: it returns the slice without leading and trailing
/// characters of the Unicode property `White_Space`.
pub assume_specification[ str::trim ](s: &str) -> (r: &str)
    ensures
        r@ == trimmed(s@),
;

proof fn lemma_trimmed_start(s: Seq<char>)
    ensures
        trimmed_start(s).len() > 0 ==> !is_white_space(trimmed_start(s).first()),
    decreases s.len(),
{
    if s.len() > 0 && is_white_space(s.first()) {
        lemma_trimmed_start(s.drop_first());
    }
}

proof fn lemma_trimmed_end(s: Seq<char>)
    ensures
        trimmed_end(s).len() > 0 ==> !is_white_space(trimmed_end(s).last()),
        trimmed_end(s).len() <= s.len(),
        trimmed_end(s) == s.take(trimmed_end(s).len() as int),
    decreases s.len(),
{
    if s.len() > 0 && is_white_space(s.last()) {
        lemma_trimmed_end(s.drop_last());
    }
    assert(trimmed_end(s) =~= s.take(trimmed_end(s).len() as int));
}

/// Trimmed text neither starts nor ends with white space, and trimming it again changes nothing.
pub proof fn law_trimming_is_idempotent(s: Seq<char>)
    ensures
        trimmed(s).len() > 0 ==> !is_white_space(trimmed(s).first()) && !is_white_space(
            trimmed(s).last(),
        ),
        trimmed(trimmed(s)) == trimmed(s),
{
    lemma_trimmed_start(s);
    lemma_trimmed_end(trimmed_start(s));
}

/// Joining nothing gives nothing, and joining one part gives that part.
pub proof fn law_joining_one_part_keeps_it(part: Seq<char>, separator: Seq<char>)
    ensures
        joined(Seq::empty(), separator).len() == 0,
        joined(seq![part], separator) == part,
{
}

/// Wherever a list of parts is split, joining it is joining both pieces and putting one separator
/// between them.
pub proof fn law_joining_splits_anywhere(
    left: Seq<Seq<char>>,
    right: Seq<Seq<char>>,
    separator: Seq<char>,
)
    requires
        left.len() > 0,
        right.len() > 0,
    ensures
        joined(left + right, separator) == joined(left, separator) + separator + joined(
            right,
            separator,
        ),
    decreases right.len(),
{
    if right.len() == 1 {
        assert((left + right).drop_last() =~= left);
    } else {
        law_joining_splits_anywhere(left, right.drop_last(), separator);
        assert((left + right).drop_last() =~= left + right.drop_last());
        assert(joined(left + right, separator) =~= joined(left, separator) + separator + joined(
            right,
            separator,
        ));
    }
}

proof fn lemma_trimmed_start_skips(s: Seq<char>)
    ensures
        trimmed_start(s).len() <= s.len(),
        trimmed_start(s) == s.skip(s.len() - trimmed_start(s).len()),
        forall|k: int|
            0 <= k < s.len() - trimmed_start(s).len() ==> is_white_space(#[trigger] s[k]),
    decreases s.len(),
{
    if s.len() > 0 && is_white_space(s.first()) {
        lemma_trimmed_start_skips(s.drop_first());
        assert forall|k: int| 0 <= k < s.len() - trimmed_start(s).len() implies is_white_space(
            #[trigger] s[k],
        ) by {
            if k > 0 {
                assert(s[k] == s.drop_first()[k - 1]);
            }
        }
    }
    assert(trimmed_start(s) =~= s.skip(s.len() - trimmed_start(s).len()));
}

proof fn lemma_trimmed_end_drops(s: Seq<char>)
    ensures
        trimmed_end(s).len() <= s.len(),
        forall|k: int| trimmed_end(s).len() <= k < s.len() ==> is_white_space(#[trigger] s[k]),
    decreases s.len(),
{
    if s.len() > 0 && is_white_space(s.last()) {
        lemma_trimmed_end_drops(s.drop_last());
        assert forall|k: int| trimmed_end(s).len() <= k < s.len() implies is_white_space(
            #[trigger] s[k],
        ) by {
            if k < s.len() - 1 {
                assert(s[k] == s.drop_last()[k]);
            }
        }
    }
}

/// Trimmed text is a stretch of the text, everything around that stretch is white space, and
/// nothing is left only where there was nothing else.
pub proof fn law_trimming_takes_white_space_only(s: Seq<char>)
    ensures
        exists|i: int, j: int|
            {
                &&& 0 <= i <= j <= s.len()
                &&& trimmed(s) == #[trigger] s.subrange(i, j)
                &&& forall|k: int|
                    0 <= k < i || j <= k < s.len() ==> is_white_space(#[trigger] s[k])
            },
        trimmed(s).len() == 0 <==> forall|k: int|
            0 <= k < s.len() ==> is_white_space(#[trigger] s[k]),
{
    let t = trimmed_start(s);
    let i = s.len() - t.len();
    let j = i + trimmed(s).len();
    lemma_trimmed_start_skips(s);
    lemma_trimmed_end(t);
    lemma_trimmed_end_drops(t);
    law_trimming_is_idempotent(s);
    assert(trimmed(s) =~= s.subrange(i, j));
    assert forall|k: int| 0 <= k < i || j <= k < s.len() implies is_white_space(
        #[trigger] s[k],
    ) by {
        if k >= j {
            assert(s[k] == t[k - i]);
        }
    }
    if trimmed(s).len() > 0 {
        assert(!is_white_space(s[i]));
    }
}

} // verus!
