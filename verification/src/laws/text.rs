//! What the functions on text do.

use crate::text::{
    appended, chars_of, decimal, join, lowercase, same_text, split_on, string_of, strip_leading,
    strip_trailing, trim, white_space,
};
use vstd::prelude::*;

verus! {

/// A text without the separator is one piece, and splitting two texts that a separator stands
/// between is splitting the one and then the other.
pub proof fn law_text_is_split_at_every_separator(
    first: &str,
    second: &str,
    both: &str,
    sep: char,
    of_first: Vec<String>,
    of_second: Vec<String>,
    of_both: Vec<String>,
)
    requires
        both@ == first@.push(sep) + second@,
        call_ensures(split_on, (first, sep), of_first),
        call_ensures(split_on, (second, sep), of_second),
        call_ensures(split_on, (both, sep), of_both),
    ensures
        of_both@.len() == of_first@.len() + of_second@.len(),
        forall|i: int|
            0 <= i < of_first@.len() ==> (#[trigger] of_both@[i])@ == of_first@[i]@,
        forall|i: int|
            0 <= i < of_second@.len() ==> of_both@[of_first@.len() + i]@ == (
            #[trigger] of_second@[i])@,
        !first@.contains(sep) ==> of_first@.len() == 1 && of_first@[0]@ == first@,
{
    crate::text::lemma_pieces_concat(first@, sep, second@);
    let a = crate::text::views(of_first@);
    let b = crate::text::views(of_second@);
    let c = crate::text::views(of_both@);
    assert(c == a + b);
    assert(a.len() == of_first@.len() && b.len() == of_second@.len() && c.len() == of_both@.len());
    assert forall|i: int| 0 <= i < of_first@.len() implies (#[trigger] of_both@[i])@
        == of_first@[i]@ by {
        assert(c[i] == of_both@[i]@);
        assert(a[i] == of_first@[i]@);
    }
    assert forall|i: int| 0 <= i < of_second@.len() implies of_both@[of_first@.len() + i]@ == (
    #[trigger] of_second@[i])@ by {
        assert(c[of_first@.len() + i] == of_both@[of_first@.len() + i]@);
        assert(b[i] == of_second@[i]@);
    }
    if !first@.contains(sep) {
        crate::text::lemma_one_piece(first@, sep);
        assert(a[0] == of_first@[0]@);
    }
}

/// White space is what Unicode says it is.
pub proof fn law_white_space_is_that_of_unicode(c: char, yes: bool)
    requires
        call_ensures(white_space, (c,), yes),
    ensures
        yes <==> {
            ||| 0x9 <= c as u32 <= 0xd
            ||| c as u32 == 0x20
            ||| c as u32 == 0x85
            ||| c as u32 == 0xa0
            ||| c as u32 == 0x1680
            ||| 0x2000 <= c as u32 <= 0x200a
            ||| c as u32 == 0x2028
            ||| c as u32 == 0x2029
            ||| c as u32 == 0x202f
            ||| c as u32 == 0x205f
            ||| c as u32 == 0x3000
        },
{
}

/// What is cut off at the start.
proof fn lemma_trimmed_start(s: Seq<char>) -> (from: int)
    ensures
        0 <= from <= s.len(),
        crate::text::trimmed_start(s) == s.subrange(from, s.len() as int),
        forall|k: int| 0 <= k < from ==> crate::text::is_white_space(#[trigger] s[k]),
        from < s.len() ==> !crate::text::is_white_space(s[from]),
    decreases s.len(),
{
    if s.len() > 0 && crate::text::is_white_space(s.first()) {
        let rest = s.drop_first();
        let from = lemma_trimmed_start(rest);
        assert(rest.subrange(from, rest.len() as int) =~= s.subrange(from + 1, s.len() as int));
        assert forall|k: int| 0 <= k < from + 1 implies crate::text::is_white_space(
            #[trigger] s[k],
        ) by {
            if k > 0 {
                assert(rest[k - 1] == s[k]);
            }
        }
        if from + 1 < s.len() {
            assert(rest[from] == s[from + 1]);
        }
        from + 1
    } else {
        assert(s.subrange(0, s.len() as int) =~= s);
        0
    }
}

/// What is cut off at the end.
proof fn lemma_trimmed_end(s: Seq<char>) -> (to: int)
    ensures
        0 <= to <= s.len(),
        crate::text::trimmed_end(s) == s.subrange(0, to),
        forall|k: int| to <= k < s.len() ==> crate::text::is_white_space(#[trigger] s[k]),
        to > 0 ==> !crate::text::is_white_space(s[to - 1]),
    decreases s.len(),
{
    if s.len() > 0 && crate::text::is_white_space(s.last()) {
        let rest = s.drop_last();
        let to = lemma_trimmed_end(rest);
        assert(rest.subrange(0, to) =~= s.subrange(0, to));
        assert forall|k: int| to <= k < s.len() implies crate::text::is_white_space(
            #[trigger] s[k],
        ) by {
            if k < rest.len() {
                assert(rest[k] == s[k]);
            }
        }
        if to > 0 {
            assert(rest[to - 1] == s[to - 1]);
        }
        to
    } else {
        assert(s.subrange(0, s.len() as int) =~= s);
        s.len() as int
    }
}

/// Trimming takes white space, and all of it, from both ends, and nothing else.
pub proof fn law_trim_takes_white_space_from_both_ends(s: &str, out: String)
    requires
        call_ensures(trim, (s,), out),
    ensures
        exists|i: int, j: int|
            0 <= i <= j <= s@.len() && out@ == #[trigger] s@.subrange(i, j) && (forall|k: int|
                0 <= k < i || j <= k < s@.len() ==> crate::text::is_white_space(#[trigger] s@[k])),
        out@.len() > 0 ==> !crate::text::is_white_space(out@.first())
            && !crate::text::is_white_space(out@.last()),
{
    let i = lemma_trimmed_start(s@);
    let kept = s@.subrange(i, s@.len() as int);
    let n = lemma_trimmed_end(kept);
    let j = i + n;
    assert(kept.subrange(0, n) =~= s@.subrange(i, j));
    assert forall|k: int| 0 <= k < i || j <= k < s@.len() implies crate::text::is_white_space(
        #[trigger] s@[k],
    ) by {
        if k >= j {
            assert(kept[k - i] == s@[k]);
        }
    }
    if out@.len() > 0 {
        assert(out@.first() == s@[i]);
        assert(out@.last() == kept[n - 1]);
    }
}

/// A number below ten is its digit, and any other is what stands for its tenth part with the last
/// digit behind it.
pub proof fn law_numbers_are_written_in_decimal(n: u64, out: String, tenth: String)
    requires
        call_ensures(decimal, (n,), out),
        call_ensures(decimal, ((n / 10) as u64,), tenth),
    ensures
        n < 10 ==> out@.len() == 1,
        n >= 10 ==> out@.drop_last() == tenth@,
        out@.len() > 0,
        out@.last() as u32 == 48 + n % 10,
{
    assert(out@.len() > 0);
    let d = n % 10;
    assert(crate::text::digit(d as nat) as u32 == 48 + d);
    if n >= 10 {
        assert(out@.drop_last() =~= tenth@);
    }
}

/// Lower-casing changes the letters from A to Z into those from a to z, and nothing else.
pub proof fn law_letters_are_lowered_one_by_one(
    chars: Vec<char>,
    from: usize,
    to: usize,
    out: String,
)
    requires
        from <= to <= chars@.len(),
        call_ensures(lowercase, (&chars, from, to), out),
    ensures
        out@.len() == to - from,
        forall|i: int|
            0 <= i < out@.len() ==> (#[trigger] out@[i]) as u32 == if 65 <= chars@[from + i] as u32
                <= 90 {
                chars@[from + i] as u32 + 32
            } else {
                chars@[from + i] as int
            },
{
    let part = chars@.subrange(from as int, to as int);
    assert forall|i: int| 0 <= i < out@.len() implies (#[trigger] out@[i]) as u32 == if 65
        <= chars@[from + i] as u32 <= 90 {
        chars@[from + i] as u32 + 32
    } else {
        chars@[from + i] as int
    } by {
        assert(part[i] == chars@[from + i]);
        assert(out@[i] == crate::text::ascii_lower(part[i]));
    }
}

/// Joining nothing gives nothing, joining one text gives that text, and joining two lists that are
/// not empty is joining each, with the separator between.
pub proof fn law_texts_are_joined_with_the_separator_between(
    first: Vec<String>,
    second: Vec<String>,
    both: Vec<String>,
    sep: &str,
    of_first: String,
    of_second: String,
    of_both: String,
)
    requires
        both@ == first@ + second@,
        call_ensures(join, (&first, sep), of_first),
        call_ensures(join, (&second, sep), of_second),
        call_ensures(join, (&both, sep), of_both),
    ensures
        first@.len() == 0 ==> of_first@.len() == 0,
        first@.len() == 1 ==> of_first@ == first@[0]@,
        first@.len() > 0 && second@.len() > 0 ==> of_both@ == of_first@ + sep@ + of_second@,
{
    let a = crate::text::views(first@);
    let b = crate::text::views(second@);
    assert(crate::text::views(both@) =~= a + b);
    assert(a.len() == first@.len() && b.len() == second@.len());
    if a.len() > 0 && b.len() > 0 {
        crate::text::lemma_joined_concat(a, b, sep@);
    }
    if a.len() == 1 {
        assert(a[0] == first@[0]@);
    }
}

/// What is cut off at the end of a text.
proof fn lemma_cut_off(s: Seq<char>, c: char)
    ensures
        ({
            let out = crate::text::without_trailing(s, c);
            &&& out.len() <= s.len()
            &&& out == s.take(out.len() as int)
            &&& forall|k: int| out.len() <= k < s.len() ==> #[trigger] s[k] == c
        }),
    decreases s.len(),
{
    let out = crate::text::without_trailing(s, c);
    if s.len() > 0 && s.last() == c {
        let rest = s.drop_last();
        lemma_cut_off(rest, c);
        assert(rest.take(out.len() as int) =~= s.take(out.len() as int));
        assert forall|k: int| out.len() <= k < s.len() implies #[trigger] s[k] == c by {
            if k < rest.len() {
                assert(rest[k] == s[k]);
            }
        }
    } else {
        assert(s.take(s.len() as int) =~= s);
    }
}

/// Stripping the end takes the given character, as often as it stands there, and nothing else.
pub proof fn law_the_end_is_stripped_of_one_character(s: &str, c: char, out: String)
    requires
        call_ensures(strip_trailing, (s, c), out),
    ensures
        out@.len() <= s@.len(),
        out@ == s@.take(out@.len() as int),
        forall|k: int| out@.len() <= k < s@.len() ==> #[trigger] s@[k] == c,
        out@.len() > 0 ==> out@.last() != c,
{
    lemma_cut_off(s@, c);
    crate::text::lemma_without_trailing(s@, c);
}

/// Stripping the start takes the given prefix as often as it stands there, and nothing else.
pub proof fn law_the_start_is_stripped_of_a_prefix(
    s: &str,
    rest: &str,
    prefix: &str,
    out: String,
    of_rest: String,
)
    requires
        call_ensures(strip_leading, (s, prefix), out),
        call_ensures(strip_leading, (rest, prefix), of_rest),
    ensures
        prefix@.len() == 0 ==> out@ == s@,
        !prefix@.is_prefix_of(s@) ==> out@ == s@,
        prefix@.len() > 0 && s@ == prefix@ + rest@ ==> out@ == of_rest@,
{
    if prefix@.len() > 0 && s@ == prefix@ + rest@ {
        assert(s@.subrange(0, prefix@.len() as int) =~= prefix@);
        assert(s@.skip(prefix@.len() as int) =~= rest@);
    }
}

/// The small functions on text do what their names say.
pub proof fn law_texts_are_taken_as_they_are(
    a: &str,
    b: &str,
    chars: Vec<char>,
    from: usize,
    to: usize,
    same: bool,
    both: String,
    part: String,
)
    requires
        call_ensures(same_text, (a, b), same),
        call_ensures(appended, (a, b), both),
        call_ensures(chars_of, (a,), chars),
        from <= to <= chars@.len(),
        call_ensures(string_of, (&chars, from, to), part),
    ensures
        same <==> a@ == b@,
        both@ == a@ + b@,
        chars@ == a@,
        part@ == a@.subrange(from as int, to as int),
{
}

} // verus!
