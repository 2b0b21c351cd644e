//! URL slugs: lower-cased words of ASCII letters and digits joined by single hyphens.

use vstd::prelude::*;

verus! {

/// The lower-case form that `str::to_lowercase` gives to a text.
pub uninterp spec fn lowercase_of(text: Seq<char>) -> Seq<char>;

/// Whether a character may stand in a slug as itself: a lower-case ASCII
/// letter or a digit.
pub open spec fn is_slug_char(c: char) -> bool {
    ('a' <= c && c <= 'z') || ('0' <= c && c <= '9')
}

/// The character with an ASCII capital folded to its small letter; every
/// other character is itself.
pub open spec fn fold_ascii(c: char) -> char {
    if 'A' <= c && c <= 'Z' {
        ((c as u8 + 32) as u8) as char
    } else {
        c
    }
}

/// The text with ASCII capitals folded to small letters and every run of
/// characters that are then no ASCII letter or digit replaced by one hyphen.
pub open spec fn hyphenate(text: Seq<char>) -> Seq<char>
    decreases text.len(),
{
    if text.len() == 0 {
        Seq::empty()
    } else {
        let before = hyphenate(text.drop_last());
        let c = fold_ascii(text.last());
        if is_slug_char(c) {
            before.push(c)
        } else if before.len() > 0 && before.last() == '-' {
            before
        } else {
            before.push('-')
        }
    }
}

/// The text without the hyphens at its end.
pub open spec fn trim_end(text: Seq<char>) -> Seq<char>
    decreases text.len(),
{
    if text.len() > 0 && text.last() == '-' {
        trim_end(text.drop_last())
    } else {
        text
    }
}

/// The text without the hyphens at its start.
pub open spec fn trim_start(text: Seq<char>) -> Seq<char>
    decreases text.len(),
{
    if text.len() > 0 && text.first() == '-' {
        trim_start(text.drop_first())
    } else {
        text
    }
}

/// The slug of a text whose letters outside ASCII have been lower-cased
/// already: ASCII capitals are folded, runs of other characters become one
/// hyphen, and no hyphen stays at either end.
pub open spec fn slug_of(text: Seq<char>) -> Seq<char> {
    trim_start(trim_end(hyphenate(text)))
}

/// Whether a text holds only lower-case ASCII letters, digits and hyphens,
/// and no two hyphens in a row.
pub open spec fn is_tidy(text: Seq<char>) -> bool {
    &&& forall|i: int| 0 <= i < text.len() ==> is_slug_char(#[trigger] text[i]) || text[i] == '-'
    &&& forall|i: int|
        0 <= i < text.len() - 1 ==> !(#[trigger] text[i] == '-' && text[i + 1] == '-')
}

/// Whether a text has the shape of a slug: only lower-case ASCII letters,
/// digits and single hyphens, and no hyphen at either end.
pub open spec fn is_slug(text: Seq<char>) -> bool {
    &&& is_tidy(text)
    &&& text.len() > 0 ==> text.first() != '-' && text.last() != '-'
}

/// Calls `str::to_lowercase`: the result is the lower-case form of the text.
#[verifier::external_body]
fn lowercase(text: &str) -> (r: String)
    ensures
        r@ == lowercase_of(text@),
{
    text.to_lowercase()
}

/// `String::push` appends the character to the end of the string.
pub assume_specification[ String::push ](s: &mut String, ch: char)
    ensures
        final(s)@ == old(s)@.push(ch),
;

/// Whether `c` is a lower-case ASCII letter or a digit.
fn slug_char(c: char) -> (r: bool)
    ensures
        r == is_slug_char(c),
{
    ('a' <= c && c <= 'z') || ('0' <= c && c <= '9')
}

/// The character with an ASCII capital folded to its small letter.
fn folded(c: char) -> (r: char)
    ensures
        r == fold_ascii(c),
{
    if 'A' <= c && c <= 'Z' {
        ((c as u8 + 32) as u8) as char
    } else {
        c
    }
}

/// The characters of `text` with ASCII capitals folded and every run of
/// other characters than ASCII letters and digits replaced by one hyphen.
fn hyphenated(text: &str) -> (r: Vec<char>)
    ensures
        r@ == hyphenate(text@),
{
    let mut buf: Vec<char> = Vec::new();
    let mut prev_hyphen = false;
    for ch in it: text.chars()
        invariant
            it.seq() == text@,
            buf@ == hyphenate(text@.subrange(0, it.index() as int)),
            prev_hyphen == (buf@.len() > 0 && buf@.last() == '-'),
    {
        proof {
            let next = text@.subrange(0, it.index() + 1);
            assert(next.drop_last() == text@.subrange(0, it.index() as int));
            assert(next.last() == ch);
        }
        let c = folded(ch);
        if slug_char(c) {
            buf.push(c);
            prev_hyphen = false;
        } else if !prev_hyphen {
            buf.push('-');
            prev_hyphen = true;
        }
    }
    proof {
        assert(text@.subrange(0, text@.len() as int) == text@);
    }
    buf
}

/// Hyphens that close a text can be dropped before its end is trimmed.
proof fn lemma_trim_end_prefix(text: Seq<char>, e: int)
    requires
        0 <= e <= text.len(),
        forall|j: int| e <= j < text.len() ==> text[j] == '-',
    ensures
        trim_end(text) == trim_end(text.subrange(0, e)),
    decreases text.len() - e,
{
    if e < text.len() {
        assert(text.drop_last().subrange(0, e) == text.subrange(0, e));
        lemma_trim_end_prefix(text.drop_last(), e);
    } else {
        assert(text.subrange(0, e) == text);
    }
}

/// Hyphens that open a text can be dropped before its start is trimmed.
proof fn lemma_trim_start_suffix(text: Seq<char>, b: int)
    requires
        0 <= b <= text.len(),
        forall|j: int| 0 <= j < b ==> text[j] == '-',
    ensures
        trim_start(text) == trim_start(text.subrange(b, text.len() as int)),
    decreases b,
{
    if b > 0 {
        assert(text.drop_first().subrange(b - 1, text.len() - 1) == text.subrange(
            b,
            text.len() as int,
        ));
        lemma_trim_start_suffix(text.drop_first(), b - 1);
    } else {
        assert(text.subrange(0, text.len() as int) == text);
    }
}

/// Hyphenating leaves only letters, digits and single hyphens.
proof fn lemma_hyphenate_tidy(text: Seq<char>)
    ensures
        is_tidy(hyphenate(text)),
    decreases text.len(),
{
    if text.len() > 0 {
        lemma_hyphenate_tidy(text.drop_last());
    }
}

/// Taking hyphens off the end keeps a text tidy and leaves none at the end.
proof fn lemma_trim_end_tidy(text: Seq<char>)
    requires
        is_tidy(text),
    ensures
        is_tidy(trim_end(text)),
        trim_end(text).len() > 0 ==> trim_end(text).last() != '-',
    decreases text.len(),
{
    if text.len() > 0 && text.last() == '-' {
        lemma_trim_end_tidy(text.drop_last());
    }
}

/// Taking hyphens off the start keeps a text tidy, leaves none at the
/// start, and leaves the end as it was.
proof fn lemma_trim_start_tidy(text: Seq<char>)
    requires
        is_tidy(text),
        text.len() > 0 ==> text.last() != '-',
    ensures
        is_slug(trim_start(text)),
    decreases text.len(),
{
    if text.len() > 0 && text.first() == '-' {
        let rest = text.drop_first();
        assert forall|i: int| 0 <= i < rest.len() - 1 implies !(#[trigger] rest[i] == '-' && rest[i
            + 1] == '-') by {
            assert(rest[i] == text[i + 1]);
        }
        lemma_trim_start_tidy(rest);
    }
}

/// Every slug has the shape of one: only lower-case ASCII letters, digits
/// and single hyphens, with no hyphen at either end. No capital remains.
pub proof fn lemma_slug_shape(text: Seq<char>)
    ensures
        is_slug(slug_of(text)),
{
    lemma_hyphenate_tidy(text);
    lemma_trim_end_tidy(hyphenate(text));
    lemma_trim_start_tidy(trim_end(hyphenate(text)));
}

/// Hyphenating a tidy text changes nothing.
proof fn lemma_hyphenate_fixes_tidy(text: Seq<char>)
    requires
        is_tidy(text),
    ensures
        hyphenate(text) == text,
    decreases text.len(),
{
    if text.len() > 0 {
        let before = text.drop_last();
        assert forall|i: int| 0 <= i < before.len() - 1 implies !(#[trigger] before[i] == '-'
            && before[i + 1] == '-') by {
            assert(before[i] == text[i]);
        }
        lemma_hyphenate_fixes_tidy(before);
        if before.len() > 0 {
            assert(before.last() == text[text.len() - 2]);
        }
        assert(before.push(text.last()) == text);
    }
}

/// A slug is its own slug: making slugs is idempotent.
pub proof fn lemma_slug_fixed_point(text: Seq<char>)
    requires
        is_slug(text),
    ensures
        slug_of(text) == text,
{
    lemma_hyphenate_fixes_tidy(text);
}

/// The slug of a text whose letters outside ASCII have been lower-cased
/// already. ASCII capitals that remain are folded here, so the slug holds
/// none, whatever the text.
pub fn slug_from_lowercase(text: &str) -> (r: String)
    ensures
        r@ == slug_of(text@),
        is_slug(r@),
{
    proof {
        lemma_slug_shape(text@);
    }
    let buf = hyphenated(text);
    let mut e: usize = buf.len();
    while e > 0 && buf[e - 1] == '-'
        invariant
            e <= buf.len(),
            forall|j: int| e <= j < buf.len() ==> buf@[j] == '-',
        decreases e,
    {
        e -= 1;
    }
    let mut b: usize = 0;
    while b < e && buf[b] == '-'
        invariant
            b <= e <= buf.len(),
            forall|j: int| 0 <= j < b ==> buf@[j] == '-',
        decreases e - b,
    {
        b += 1;
    }
    let mut out = String::new();
    let mut k: usize = b;
    while k < e
        invariant
            b <= k <= e <= buf.len(),
            out@ == buf@.subrange(b as int, k as int),
        decreases e - k,
    {
        out.push(buf[k]);
        proof {
            assert(buf@.subrange(b as int, k + 1) == buf@.subrange(b as int, k as int).push(
                buf@[k as int],
            ));
        }
        k += 1;
    }
    proof {
        let ended = buf@.subrange(0, e as int);
        lemma_trim_end_prefix(buf@, e as int);
        assert(trim_end(ended) == ended);
        lemma_trim_start_suffix(ended, b as int);
        assert(ended.subrange(b as int, e as int) == buf@.subrange(b as int, e as int));
        assert(trim_start(out@) == out@);
    }
    out
}

/// The slug of a text: its lower-case form, with every run of characters
/// that are no ASCII letter or digit turned into one hyphen, and no hyphen
/// at either end. Whatever the lower-casing leaves, the slug holds only
/// lower-case ASCII letters, digits and single hyphens.
pub fn slugify(input: &str) -> (r: String)
    ensures
        r@ == slug_of(lowercase_of(input@)),
        is_slug(r@),
{
    let lowered = lowercase(input);
    slug_from_lowercase(lowered.as_str())
}

} // verus!
