//! Text operations of the standard library that the resolver and the numeric
//! preparation rest on, each with the contract it is used under.

use vstd::prelude::*;
use vstd::string::*;

verus! {

/// Whether `c` has the Unicode property `White_Space`.
pub open spec fn is_white_space(c: char) -> bool {
    let u = c as u32;
    ||| 0x0009 <= u <= 0x000D
    ||| u == 0x0020
    ||| u == 0x0085
    ||| u == 0x00A0
    ||| u == 0x1680
    ||| 0x2000 <= u <= 0x200A
    ||| u == 0x2028
    ||| u == 0x2029
    ||| u == 0x202F
    ||| u == 0x205F
    ||| u == 0x3000
}

/// `s` without its leading white space.
pub open spec fn trim_start(s: Seq<char>) -> Seq<char>
    decreases s.len(),
{
    if s.len() > 0 && is_white_space(s.first()) {
        trim_start(s.drop_first())
    } else {
        s
    }
}

/// `s` without its trailing white space.
pub open spec fn trim_end(s: Seq<char>) -> Seq<char>
    decreases s.len(),
{
    if s.len() > 0 && is_white_space(s.last()) {
        trim_end(s.drop_last())
    } else {
        s
    }
}

/// `s` without its leading and trailing white space.
pub open spec fn trimmed(s: Seq<char>) -> Seq<char> {
    trim_end(trim_start(s))
}

/// Whether `needle` stands in `haystack` at position `i`, character for
/// character.
pub open spec fn occurs_at(haystack: Seq<char>, needle: Seq<char>, i: int) -> bool {
    &&& 0 <= i
    &&& i + needle.len() <= haystack.len()
    &&& haystack.subrange(i, i + needle.len()) == needle
}

/// Whether `needle` occurs in `haystack` as a contiguous run of characters.
/// The empty text occurs in every text.
pub open spec fn contains_text(haystack: Seq<char>, needle: Seq<char>) -> bool {
    exists|i: int| occurs_at(haystack, needle, i)
}

/// The lowercase form of a text as `str::to_lowercase` computes it: the
/// Unicode lowercase mapping, which depends on the characters alone.
pub uninterp spec fn lowercase(s: Seq<char>) -> Seq<char>;

/// `s` with every occurrence of the character `from` replaced by the text `to`.
pub open spec fn replace_each(s: Seq<char>, from: char, to: Seq<char>) -> Seq<char>
    decreases s.len(),
{
    if s.len() == 0 {
        Seq::empty()
    } else if s.first() == from {
        to + replace_each(s.drop_first(), from, to)
    } else {
        seq![s.first()] + replace_each(s.drop_first(), from, to)
    }
}

/// `s` with every occurrence of the character `from` replaced by the
/// character `to`.
pub open spec fn replace_one_for_one(s: Seq<char>, from: char, to: char) -> Seq<char> {
    s.map_values(
        |c: char|
            if c == from {
                to
            } else {
                c
            },
    )
}

/// Whether `s` holds nothing but white space; the empty text does.
pub open spec fn is_blank(s: Seq<char>) -> bool {
    forall|i: int| 0 <= i < s.len() ==> is_white_space(#[trigger] s[i])
}

/// Specifies `str::trim`, which returns the text without its leading and
/// trailing white space, white space being the characters with the Unicode
/// property `White_Space`.
pub assume_specification[ str::trim ](s: &str) -> (r: &str)
    ensures
        r@ == trimmed(s@),
;

/// Specifies `str::to_lowercase`, which returns the lowercase form of a text.
/// The contract gives that form a name and says no more of it.
pub assume_specification[ str::to_lowercase ](s: &str) -> (r: String)
    ensures
        r@ == lowercase(s@),
;

/// Specifies `==` on `str`, which holds of two texts with the same characters.
pub assume_specification[ <str as PartialEq>::eq ](a: &str, b: &str) -> (r: bool)
    ensures
        r == (a@ == b@),
;

/// Calls `str::contains` with a text as the pattern, which says whether the
/// pattern occurs in the text as a contiguous part.
#[verifier::external_body]
pub(crate) fn contains(haystack: &str, needle: &str) -> (r: bool)
    ensures
        r == contains_text(haystack@, needle@),
{
    haystack.contains(needle)
}

/// Calls `str::replace` with a character as the pattern, which returns the
/// text with each occurrence of that character replaced by `to`.
#[verifier::external_body]
pub(crate) fn replace_char(s: &str, from: char, to: &str) -> (r: String)
    ensures
        r@ == replace_each(s@, from, to@),
{
    s.replace(from, to)
}

/// Whether `c` counts as white space.
pub fn is_space(c: char) -> (r: bool)
    ensures
        r == is_white_space(c),
{
    let u: u32 = c as u32;
    if u <= 0x0020 {
        (0x0009 <= u && u <= 0x000D) || u == 0x0020
    } else if u <= 0x1680 {
        u == 0x0085 || u == 0x00A0 || u == 0x1680
    } else if u <= 0x200A {
        0x2000 <= u
    } else {
        u == 0x2028 || u == 0x2029 || u == 0x202F || u == 0x205F || u == 0x3000
    }
}

/// Trimming at the start removes a blank prefix, and what is left does not
/// start with white space.
pub proof fn lemma_trim_start(s: Seq<char>)
    ensures
        trim_start(s).len() <= s.len(),
        trim_start(s) == s.skip(s.len() - trim_start(s).len()),
        is_blank(s.take(s.len() - trim_start(s).len())),
        trim_start(s).len() > 0 ==> !is_white_space(trim_start(s).first()),
    decreases s.len(),
{
    if s.len() > 0 && is_white_space(s.first()) {
        let rest = s.drop_first();
        lemma_trim_start(rest);
        let k = rest.len() - trim_start(rest).len();
        assert(rest.skip(k) =~= s.skip(k + 1));
        assert forall|i: int| 0 <= i < k + 1 implies is_white_space(#[trigger] s.take(k + 1)[i]) by {
            if i > 0 {
                assert(s.take(k + 1)[i] == rest.take(k)[i - 1]);
            }
        }
    } else {
        assert(s.skip(0) =~= s);
    }
}

/// Trimming at the end removes a blank suffix, and what is left does not end
/// with white space.
pub proof fn lemma_trim_end(s: Seq<char>)
    ensures
        trim_end(s).len() <= s.len(),
        trim_end(s) == s.take(trim_end(s).len() as int),
        is_blank(s.skip(trim_end(s).len() as int)),
        trim_end(s).len() > 0 ==> !is_white_space(trim_end(s).last()),
    decreases s.len(),
{
    if s.len() > 0 && is_white_space(s.last()) {
        let rest = s.drop_last();
        lemma_trim_end(rest);
        let k = trim_end(rest).len() as int;
        assert(rest.take(k) =~= s.take(k));
        assert forall|i: int| 0 <= i < s.len() - k implies is_white_space(#[trigger] s.skip(k)[i]) by {
            if i < s.len() - k - 1 {
                assert(s.skip(k)[i] == rest.skip(k)[i]);
            }
        }
    } else {
        assert(s.take(s.len() as int) =~= s);
    }
}

/// A text trims to nothing exactly when it is blank.
pub proof fn lemma_blank_trims_to_nothing(s: Seq<char>)
    ensures
        trimmed(s).len() == 0 <==> is_blank(s),
{
    let t = trim_start(s);
    lemma_trim_start(s);
    lemma_trim_end(t);
    let k = s.len() - t.len();
    if is_blank(s) {
        if t.len() > 0 {
            assert(t.first() == s[k]);
        }
    }
    if trimmed(s).len() == 0 {
        assert(t.skip(0) =~= t);
        assert forall|i: int| 0 <= i < s.len() implies is_white_space(#[trigger] s[i]) by {
            if i < k {
                assert(s.take(k)[i] == s[i]);
            } else {
                assert(t[i - k] == s[i]);
            }
        }
    }
}

/// Replacing a character by a text of one character changes the text one for
/// one.
pub proof fn lemma_replace_each_by_one(s: Seq<char>, from: char, to: char)
    ensures
        replace_each(s, from, seq![to]) == replace_one_for_one(s, from, to),
    decreases s.len(),
{
    if s.len() > 0 {
        lemma_replace_each_by_one(s.drop_first(), from, to);
        assert(replace_one_for_one(s, from, to) =~= seq![replace_one_for_one(s, from, to)[0]]
            + replace_one_for_one(s.drop_first(), from, to));
    } else {
        assert(replace_one_for_one(s, from, to) =~= Seq::<char>::empty());
    }
}

/// Replacing one character that is no white space by another commutes with
/// trimming.
pub proof fn lemma_trim_after_replace(s: Seq<char>, from: char, to: char)
    requires
        !is_white_space(from),
        !is_white_space(to),
    ensures
        trimmed(replace_one_for_one(s, from, to)) == replace_one_for_one(trimmed(s), from, to),
{
    lemma_trim_start_after_replace(s, from, to);
    lemma_trim_end_after_replace(trim_start(s), from, to);
}

proof fn lemma_trim_start_after_replace(s: Seq<char>, from: char, to: char)
    requires
        !is_white_space(from),
        !is_white_space(to),
    ensures
        trim_start(replace_one_for_one(s, from, to)) == replace_one_for_one(
            trim_start(s),
            from,
            to,
        ),
    decreases s.len(),
{
    let r = replace_one_for_one(s, from, to);
    if s.len() > 0 && is_white_space(s.first()) {
        lemma_trim_start_after_replace(s.drop_first(), from, to);
        assert(r.drop_first() =~= replace_one_for_one(s.drop_first(), from, to));
    }
}

proof fn lemma_trim_end_after_replace(s: Seq<char>, from: char, to: char)
    requires
        !is_white_space(from),
        !is_white_space(to),
    ensures
        trim_end(replace_one_for_one(s, from, to)) == replace_one_for_one(trim_end(s), from, to),
    decreases s.len(),
{
    let r = replace_one_for_one(s, from, to);
    if s.len() > 0 && is_white_space(s.last()) {
        lemma_trim_end_after_replace(s.drop_last(), from, to);
        assert(r.drop_last() =~= replace_one_for_one(s.drop_last(), from, to));
    }
}

/// Trimming a text a second time changes nothing.
pub proof fn lemma_trimmed_is_stable(s: Seq<char>)
    ensures
        trimmed(trimmed(s)) == trimmed(s),
{
    let t = trim_start(s);
    let u = trim_end(t);
    lemma_trim_start(s);
    lemma_trim_end(t);
    if u.len() > 0 {
        assert(u.first() == t.first());
        lemma_trim_start(u);
    }
    lemma_trim_end(u);
}

} // verus!
