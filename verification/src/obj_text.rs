//! Reading the text of a mesh file: lines, words, numbers.

use vstd::prelude::*;

verus! {

/// A stretch of the text, from `start` up to but not including `end`.
#[derive(Clone, Copy, Debug, PartialEq, Eq, Structural)]
pub struct Span {
    pub start: usize,
    pub end: usize,
}

impl Span {
    /// The span lies within a text of `len` bytes.
    pub open spec fn within(self, len: int) -> bool {
        self.start <= self.end <= len
    }

    /// The bytes the span covers.
    pub open spec fn of(self, text: Seq<u8>) -> Seq<u8> {
        text.subrange(self.start as int, self.end as int)
    }
}

/// Blank, tab, line feed, vertical tab, form feed or carriage return.
pub open spec fn is_space(b: u8) -> bool {
    b == 32 || (9 <= b && b <= 13)
}

/// A decimal digit.
pub open spec fn is_digit(b: u8) -> bool {
    48 <= b && b <= 57
}

/// Executable form of [`is_space`].
pub fn space(b: u8) -> (yes: bool)
    ensures
        yes == is_space(b),
{
    b == 32 || (9 <= b && b <= 13)
}

/// The end of the line that contains position `i`: the position of the next
/// line feed, or the end of the text.
pub open spec fn line_end(text: Seq<u8>, i: int) -> int
    decreases text.len() - i,
{
    if i >= text.len() {
        text.len() as int
    } else if text[i] == 10 {
        i
    } else {
        line_end(text, i + 1)
    }
}

/// The words of `text` between `i` and `limit`, where `open` is the start
/// of a word that began before `i` and has not ended yet. Words are the
/// longest stretches free of white space.
pub open spec fn words_from(text: Seq<u8>, i: int, limit: int, open: Option<int>) -> Seq<Span>
    decreases limit - i,
{
    if i >= limit {
        match open {
            Some(s) => seq![Span { start: s as usize, end: limit as usize }],
            None => Seq::empty(),
        }
    } else if is_space(text[i]) {
        match open {
            Some(s) => seq![Span { start: s as usize, end: i as usize }] + words_from(
                text,
                i + 1,
                limit,
                None,
            ),
            None => words_from(text, i + 1, limit, None),
        }
    } else {
        words_from(
            text,
            i + 1,
            limit,
            if open is Some {
                open
            } else {
                Some(i)
            },
        )
    }
}

/// The words of `text` between `start` and `limit`.
pub open spec fn words(text: Seq<u8>, start: int, limit: int) -> Seq<Span> {
    words_from(text, start, limit, None)
}

/// The fields of `text` between `i` and `limit` when the field that is
/// being read began at `start`. Fields are separated by slashes and may be
/// empty.
pub open spec fn fields_from(text: Seq<u8>, i: int, limit: int, start: int) -> Seq<Span>
    decreases limit - i,
{
    if i >= limit {
        seq![Span { start: start as usize, end: limit as usize }]
    } else if text[i] == 47 {
        seq![Span { start: start as usize, end: i as usize }] + fields_from(
            text,
            i + 1,
            limit,
            i + 1,
        )
    } else {
        fields_from(text, i + 1, limit, start)
    }
}

/// The fields of a word.
pub open spec fn fields(text: Seq<u8>, word: Span) -> Seq<Span> {
    fields_from(text, word.start as int, word.end as int, word.start as int)
}

/// The number written by the digits between `start` and `end`.
pub open spec fn digits_value(text: Seq<u8>, start: int, end: int) -> nat
    decreases end - start,
{
    if end <= start {
        0
    } else {
        digits_value(text, start, end - 1) * 10 + (text[end - 1] - 48) as nat
    }
}

/// Everything between `start` and `end` is a digit.
pub open spec fn all_digits(text: Seq<u8>, start: int, end: int) -> bool {
    forall|k: int| start <= k < end ==> is_digit(#[trigger] text[k])
}

/// Where the digits of a number begin: after its plus sign, if it has one.
pub open spec fn digits_start(text: Seq<u8>, span: Span) -> int {
    if span.start < span.end && text[span.start as int] == 43 {
        span.start + 1
    } else {
        span.start as int
    }
}

/// The number a span writes, if it writes one no larger than `max`: an
/// optional plus sign followed by at least one digit and nothing else.
pub open spec fn number_at(text: Seq<u8>, span: Span, max: u64) -> Option<u64> {
    let first = digits_start(text, span);
    if first < span.end && all_digits(text, first, span.end as int) && digits_value(
        text,
        first,
        span.end as int,
    ) <= max {
        Some(digits_value(text, first, span.end as int) as u64)
    } else {
        None
    }
}

/// The line that contains `i` ends at or after `i`, within the text, at a
/// line feed or at the end of the text, and holds no line feed before.
pub proof fn lemma_line_end(text: Seq<u8>, i: int)
    requires
        0 <= i <= text.len(),
    ensures
        i <= line_end(text, i) <= text.len(),
        line_end(text, i) < text.len() ==> text[line_end(text, i)] == 10,
        forall|k: int| i <= k < line_end(text, i) ==> #[trigger] text[k] != 10,
    decreases text.len() - i,
{
    if i < text.len() && text[i] != 10 {
        lemma_line_end(text, i + 1);
    }
}

/// The span is not empty and lies between `low` and `limit`.
pub open spec fn is_word_in(w: Span, low: int, limit: int) -> bool {
    low <= w.start < w.end <= limit
}

/// The span lies between `low` and `limit`.
pub open spec fn is_field_in(f: Span, low: int, limit: int) -> bool {
    low <= f.start <= f.end <= limit
}

/// Words lie within the stretch they were taken from and are not empty.
pub proof fn lemma_words_within(text: Seq<u8>, i: int, limit: int, open: Option<int>)
    requires
        0 <= i <= limit <= text.len(),
        limit <= usize::MAX,
        open matches Some(s) ==> 0 <= s < i,
    ensures
        forall|k: int|
            0 <= k < words_from(text, i, limit, open).len() ==> is_word_in(
                #[trigger] words_from(text, i, limit, open)[k],
                match open {
                    Some(s) => s,
                    None => i,
                },
                limit,
            ),
    decreases limit - i,
{
    let all = words_from(text, i, limit, open);
    let low = match open {
        Some(s) => s,
        None => i,
    };
    if i >= limit {
        assert forall|k: int| 0 <= k < all.len() implies is_word_in(#[trigger] all[k], low, limit) by {
            assert(open is Some);
            assert(all[0] == Span { start: open.unwrap() as usize, end: limit as usize });
        }
    } else if is_space(text[i]) {
        lemma_words_within(text, i + 1, limit, None);
        let rest = words_from(text, i + 1, limit, None);
        assert forall|k: int| 0 <= k < all.len() implies is_word_in(#[trigger] all[k], low, limit) by {
            match open {
                Some(s) => {
                    if k > 0 {
                        assert(all[k] == rest[k - 1]);
                        assert(is_word_in(rest[k - 1], i + 1, limit));
                    }
                },
                None => {
                    assert(all[k] == rest[k]);
                    assert(is_word_in(rest[k], i + 1, limit));
                },
            }
        }
    } else {
        let next = if open is Some {
            open
        } else {
            Some(i)
        };
        lemma_words_within(text, i + 1, limit, next);
        let rest = words_from(text, i + 1, limit, next);
        assert(all == rest);
        assert forall|k: int| 0 <= k < all.len() implies is_word_in(#[trigger] all[k], low, limit) by {
            assert(is_word_in(rest[k], low, limit));
        }
    }
}

/// Fields lie within the word they were taken from, and there is at least
/// one.
pub proof fn lemma_fields_within(text: Seq<u8>, i: int, limit: int, start: int)
    requires
        0 <= start <= i <= limit <= text.len(),
        limit <= usize::MAX,
    ensures
        fields_from(text, i, limit, start).len() >= 1,
        forall|k: int|
            0 <= k < fields_from(text, i, limit, start).len() ==> is_field_in(
                #[trigger] fields_from(text, i, limit, start)[k],
                start,
                limit,
            ),
    decreases limit - i,
{
    let all = fields_from(text, i, limit, start);
    if i >= limit {
    } else if text[i] == 47 {
        lemma_fields_within(text, i + 1, limit, i + 1);
        let rest = fields_from(text, i + 1, limit, i + 1);
        assert forall|k: int| 0 <= k < all.len() implies is_field_in(#[trigger] all[k], start, limit) by {
            if k > 0 {
                assert(all[k] == rest[k - 1]);
                assert(is_field_in(rest[k - 1], i + 1, limit));
            }
        }
    } else {
        lemma_fields_within(text, i + 1, limit, start);
    }
}

/// Splits the text between `start` and `limit` into words. A stretch that
/// does not lie within the text has no words.
pub fn split_words(text: &[u8], start: usize, limit: usize) -> (found: Vec<Span>)
    ensures
        found@ == if start <= limit <= text@.len() {
            words(text@, start as int, limit as int)
        } else {
            Seq::empty()
        },
        forall|k: int| 0 <= k < found@.len() ==> is_word_in(#[trigger] found@[k], start as int, limit as int),
{
    let mut found: Vec<Span> = Vec::new();
    if start > limit || limit > text.len() {
        return found;
    }
    let mut open: Option<usize> = None;
    let mut i: usize = start;
    while i < limit
        invariant
            start <= i <= limit <= text@.len(),
            open matches Some(s) ==> start <= s < i,
            words(text@, start as int, limit as int) == found@ + words_from(
                text@,
                i as int,
                limit as int,
                match open {
                    Some(s) => Some(s as int),
                    None => None,
                },
            ),
        decreases limit - i,
    {
        let ghost before = found@;
        let ghost ahead = match open {
            Some(s) => Some(s as int),
            None => None::<int>,
        };
        if space(text[i]) {
            match open {
                Some(s) => {
                    found.push(Span { start: s, end: i });
                    proof {
                        let rest = words_from(text@, i + 1, limit as int, None);
                        assert(before + (seq![Span { start: s, end: i }] + rest) =~= found@ + rest);
                    }
                    open = None;
                },
                None => {},
            }
        } else {
            if open.is_none() {
                open = Some(i);
            }
        }
        i += 1;
    }
    match open {
        Some(s) => {
            proof {
                let last = seq![Span { start: s, end: limit }];
                assert(found@ + last =~= found@.push(Span { start: s, end: limit }));
            }
            found.push(Span { start: s, end: limit });
        },
        None => {
            assert(found@ + Seq::<Span>::empty() =~= found@);
        },
    }
    proof {
        lemma_words_within(text@, start as int, limit as int, None);
    }
    found
}

/// Splits a word into its fields. A word that does not lie within the text
/// has no fields; every other word has at least one.
pub fn split_fields(text: &[u8], word: Span) -> (found: Vec<Span>)
    ensures
        found@ == if word.within(text@.len() as int) {
            fields(text@, word)
        } else {
            Seq::empty()
        },
        word.within(text@.len() as int) ==> found@.len() >= 1,
        forall|k: int|
            0 <= k < found@.len() ==> is_field_in(
                #[trigger] found@[k],
                word.start as int,
                word.end as int,
            ),
{
    let mut found: Vec<Span> = Vec::new();
    if word.start > word.end || word.end > text.len() {
        return found;
    }
    let mut start: usize = word.start;
    let mut i: usize = word.start;
    while i < word.end
        invariant
            word.start <= start <= i <= word.end <= text@.len(),
            fields(text@, word) == found@ + fields_from(
                text@,
                i as int,
                word.end as int,
                start as int,
            ),
        decreases word.end - i,
    {
        if text[i] == 47 {
            let ghost before = found@;
            found.push(Span { start, end: i });
            proof {
                let rest = fields_from(text@, i + 1, word.end as int, i + 1);
                assert(before + (seq![Span { start, end: i }] + rest) =~= found@ + rest);
            }
            start = i + 1;
        }
        i += 1;
    }
    proof {
        let last = seq![Span { start, end: word.end }];
        assert(found@ + last =~= found@.push(Span { start, end: word.end }));
        lemma_fields_within(text@, word.start as int, word.end as int, word.start as int);
    }
    found.push(Span { start, end: word.end });
    found
}

/// Whether the span lies within the text and covers exactly the bytes of
/// `word`.
pub fn token_is(text: &[u8], span: Span, word: &[u8]) -> (same: bool)
    ensures
        same == (span.within(text@.len() as int) && span.of(text@) == word@),
{
    if span.start > span.end || span.end > text.len() {
        return false;
    }
    if span.end - span.start != word.len() {
        return false;
    }
    let mut k: usize = 0;
    while k < word.len()
        invariant
            k <= word@.len(),
            span.within(text@.len() as int),
            span.end - span.start == word@.len(),
            forall|j: int| 0 <= j < k ==> text@[span.start + j] == word@[j],
        decreases word@.len() - k,
    {
        if text[span.start + k] != word[k] {
            assert(span.of(text@)[k as int] != word@[k as int]);
            return false;
        }
        k += 1;
    }
    assert(span.of(text@) =~= word@);
    true
}

/// More digits never write a smaller number.
pub proof fn lemma_digits_value_grows(text: Seq<u8>, start: int, mid: int, end: int)
    requires
        0 <= start <= mid <= end <= text.len(),
        all_digits(text, start, end),
    ensures
        digits_value(text, start, mid) <= digits_value(text, start, end),
    decreases end - mid,
{
    if mid < end {
        lemma_digits_value_grows(text, start, mid, end - 1);
        assert(is_digit(text[end - 1]));
    }
}

/// Reads the number a span writes, if the span lies within the text and
/// writes a number no larger than `max`.
pub fn parse_number(text: &[u8], span: Span, max: u64) -> (value: Option<u64>)
    ensures
        value == if span.within(text@.len() as int) {
            number_at(text@, span, max)
        } else {
            None
        },
{
    if span.start > span.end || span.end > text.len() {
        return None;
    }
    let first: usize = if span.start < span.end && text[span.start] == 43 {
        span.start + 1
    } else {
        span.start
    };
    if first >= span.end {
        return None;
    }
    let mut value: u64 = 0;
    let mut i: usize = first;
    while i < span.end
        invariant
            first <= i <= span.end <= text@.len(),
            first == digits_start(text@, span),
            all_digits(text@, first as int, i as int),
            value == digits_value(text@, first as int, i as int),
            value <= max,
        decreases span.end - i,
    {
        let b = text[i];
        if !(48 <= b && b <= 57) {
            assert(!is_digit(text@[i as int]));
            return None;
        }
        let digit: u64 = (b - 48) as u64;
        if digit > max || value > (max - digit) / 10 {
            proof {
                assert(value * 10 + digit > max);
                assert(digits_value(text@, first as int, i + 1) > max);
                if all_digits(text@, first as int, span.end as int) {
                    lemma_digits_value_grows(text@, first as int, i + 1, span.end as int);
                }
            }
            return None;
        }
        value = value * 10 + digit;
        i += 1;
    }
    Some(value)
}

} // verus!
