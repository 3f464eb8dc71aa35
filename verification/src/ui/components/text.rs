//! Lines of text: how many a text has, and how a text is broken into lines
//! that fit a width.

use vstd::prelude::*;
use vstd::string::{StrSliceExecFns, StringExecFns};

verus! {

broadcast use vstd::string::group_string_axioms;

/// How many line feeds `text` holds.
pub open spec fn newline_count(text: Seq<char>) -> nat
    decreases text.len(),
{
    if text.len() == 0 {
        0
    } else {
        newline_count(text.drop_last()) + if text.last() == '\n' {
            1nat
        } else {
            0nat
        }
    }
}

/// How many lines `text` has. Each line feed ends a line; what follows the last
/// line feed is one more line unless it is empty. An empty text has no line.
pub open spec fn line_count(text: Seq<char>) -> nat {
    newline_count(text) + if text.len() > 0 && text.last() != '\n' {
        1nat
    } else {
        0nat
    }
}

/// A text holds no more line feeds than characters.
pub proof fn lemma_newline_count_bound(text: Seq<char>)
    ensures
        newline_count(text) <= text.len(),
    decreases text.len(),
{
    if text.len() > 0 {
        lemma_newline_count_bound(text.drop_last());
    }
}

/// Counts the lines of `text`.
pub fn count_lines(text: &str) -> (count: usize)
    ensures
        count == line_count(text@),
{
    let length = text.unicode_len();
    let mut newlines: usize = 0;
    let mut open_line = false;
    for c in it: text.chars()
        invariant
            length == text@.len(),
            it.seq() == text@,
            newlines == newline_count(text@.take(it.index() as int)),
            open_line == (it.index() > 0 && text@[it.index() - 1] != '\n'),
    {
        proof {
            let seen = text@.take(it.index() + 1);
            assert(seen.drop_last() =~= text@.take(it.index() as int));
            lemma_newline_count_bound(seen);
        }
        if c == '\n' {
            newlines += 1;
            open_line = false;
        } else {
            open_line = true;
        }
    }
    proof {
        assert(text@.take(text@.len() as int) =~= text@);
        if text@.len() > 0 {
            lemma_newline_count_bound(text@.drop_last());
        }
    }
    if open_line {
        newlines + 1
    } else {
        newlines
    }
}

/// Whether two strings hold the same characters.
///
/// Compares with `==` of `str`, which the standard library documents as
/// equality of the two texts.
#[verifier::external_body]
pub(crate) fn str_eq(a: &str, b: &str) -> (same: bool)
    ensures
        same == (a@ == b@),
{
    a == b
}

/// Appends one character to a string.
///
/// Calls `String::push`, which the standard library documents as appending
/// the given character to the end of the string.
#[verifier::external_body]
pub(crate) fn push_char(text: &mut String, c: char)
    ensures
        final(text)@ == old(text)@.push(c),
{
    text.push(c)
}

/// `text` with `c` put in before its character number `at`.
pub fn with_char_at(text: &str, at: usize, c: char) -> (longer: String)
    requires
        at <= text@.len(),
    ensures
        longer@ == text@.insert(at as int, c),
{
    let length = text.unicode_len();
    let mut longer = text.substring_char(0, at).to_owned();
    push_char(&mut longer, c);
    longer.append(text.substring_char(at, length));
    assert(longer@ =~= text@.insert(at as int, c));
    longer
}

/// `text` without its character number `at`.
pub fn without_char_at(text: &str, at: usize) -> (shorter: String)
    requires
        at < text@.len(),
    ensures
        shorter@ == text@.remove(at as int),
{
    let length = text.unicode_len();
    let mut shorter = text.substring_char(0, at).to_owned();
    shorter.append(text.substring_char(at + 1, length));
    assert(shorter@ =~= text@.remove(at as int));
    shorter
}

/// `a` stands before `b` in the order of strings: at the first place where
/// the two differ, `a` has the character with the smaller code point, or `a`
/// ends there and `b` goes on.
pub open spec fn text_less(a: Seq<char>, b: Seq<char>) -> bool
    decreases a.len(),
{
    if b.len() == 0 {
        false
    } else if a.len() == 0 {
        true
    } else if a[0] != b[0] {
        (a[0] as int) < (b[0] as int)
    } else {
        text_less(a.drop_first(), b.drop_first())
    }
}

/// No text stands before itself.
pub proof fn lemma_text_less_irreflexive(a: Seq<char>)
    ensures
        !text_less(a, a),
    decreases a.len(),
{
    if a.len() > 0 {
        lemma_text_less_irreflexive(a.drop_first());
    }
}

/// What stands before a text stands before everything that the text stands
/// before.
pub proof fn lemma_text_less_transitive(a: Seq<char>, b: Seq<char>, c: Seq<char>)
    requires
        text_less(a, b),
        text_less(b, c),
    ensures
        text_less(a, c),
    decreases a.len(),
{
    if a.len() > 0 && a[0] == b[0] && b[0] == c[0] {
        lemma_text_less_transitive(a.drop_first(), b.drop_first(), c.drop_first());
    }
}

/// Of two texts that differ, one stands before the other.
pub proof fn lemma_text_less_total(a: Seq<char>, b: Seq<char>)
    ensures
        text_less(a, b) || a == b || text_less(b, a),
    decreases a.len(),
{
    if a.len() > 0 && b.len() > 0 && a[0] == b[0] {
        lemma_text_less_total(a.drop_first(), b.drop_first());
        if a.drop_first() == b.drop_first() {
            assert(a =~= seq![a[0]] + a.drop_first());
            assert(b =~= seq![b[0]] + b.drop_first());
        }
    } else if a.len() == 0 && b.len() == 0 {
        assert(a =~= b);
    }
}

/// Whether `a` stands before `b` in the order of strings.
///
/// Compares with `<` of `str`, which the standard library documents as the
/// lexicographic order by byte values, and says of it that it orders code
/// points by their positions in the code charts.
#[verifier::external_body]
pub(crate) fn str_less(a: &str, b: &str) -> (less: bool)
    ensures
        less == text_less(a@, b@),
{
    a < b
}

/// `prefix` stands at the start of `text`.
pub open spec fn is_prefix(prefix: Seq<char>, text: Seq<char>) -> bool {
    prefix.len() <= text.len() && text.take(prefix.len() as int) == prefix
}

/// Whether `text` starts with `prefix`.
///
/// Calls `str::starts_with` with a string as the pattern, which the standard
/// library documents as true exactly when the pattern matches a prefix of the
/// text.
#[verifier::external_body]
pub(crate) fn starts_with(text: &str, prefix: &str) -> (starts: bool)
    ensures
        starts == is_prefix(prefix@, text@),
{
    text.starts_with(prefix)
}

/// `part` stands somewhere in `text`.
pub open spec fn has_part(text: Seq<char>, part: Seq<char>) -> bool {
    exists|i: int|
        0 <= i <= text.len() - part.len() && #[trigger] text.subrange(i, i + part.len()) == part
}

/// Whether `part` stands somewhere in `text`.
///
/// Calls `str::contains` with a string as the pattern, which the standard
/// library documents as true exactly when the pattern matches a part of the
/// text.
#[verifier::external_body]
pub(crate) fn contains_text(text: &str, part: &str) -> (found: bool)
    ensures
        found == has_part(text@, part@),
{
    text.contains(part)
}

/// Whether `c` is white space as `char::is_whitespace` sees it: whether it
/// has the property White_Space of Unicode.
pub uninterp spec fn is_white_space(c: char) -> bool;

/// Calls `char::is_whitespace`, which depends on the character alone; the
/// contract gives the answer its name.
#[verifier::external_body]
pub(crate) fn char_is_whitespace(c: char) -> (white: bool)
    ensures
        white == is_white_space(c),
{
    c.is_whitespace()
}

/// `text` in lower case, as `str::to_lowercase` makes it by the rules of
/// Unicode.
pub uninterp spec fn lowercase_of(text: Seq<char>) -> Seq<char>;

/// Calls `str::to_lowercase`, whose result depends on the text alone; the
/// contract gives that result its name.
#[verifier::external_body]
pub(crate) fn to_lowercase(text: &str) -> (lower: String)
    ensures
        lower@ == lowercase_of(text@),
{
    text.to_lowercase()
}

/// How many characters of `text` are left when the white space at its end is
/// taken away.
pub open spec fn trimmed_len(text: Seq<char>) -> int
    decreases text.len(),
{
    if text.len() == 0 {
        0
    } else if is_white_space(text.last()) {
        trimmed_len(text.drop_last())
    } else {
        text.len() as int
    }
}

/// Where the last run of characters without white space begins in `text`: at
/// the end of `text` where `text` ends in white space.
pub open spec fn last_run_start(text: Seq<char>) -> int
    decreases text.len(),
{
    if text.len() == 0 {
        0
    } else if is_white_space(text.last()) {
        text.len() as int
    } else {
        last_run_start(text.drop_last())
    }
}

/// The last word of `text`: the last run of characters without white space.
/// It is empty where `text` holds nothing but white space.
pub open spec fn last_word(text: Seq<char>) -> Seq<char> {
    let end = trimmed_len(text);
    text.subrange(last_run_start(text.take(end)), end)
}

/// The last word among the first `upto` characters of `text`, see `last_word`.
pub fn last_word_before(text: &str, upto: usize) -> (word: String)
    requires
        upto <= text@.len(),
    ensures
        word@ == last_word(text@.take(upto as int)),
{
    let ghost head = text@.take(upto as int);
    let mut end: usize = upto;
    let mut at_word = false;
    assert(head.take(upto as int) =~= head);
    while end > 0 && !at_word
        invariant
            end <= upto <= text@.len(),
            head == text@.take(upto as int),
            trimmed_len(head) == trimmed_len(head.take(end as int)),
            at_word ==> end > 0 && !is_white_space(head[end - 1]),
        decreases end + if at_word { 0int } else { 1int },
    {
        assert(head.take(end as int).drop_last() =~= head.take(end - 1));
        if char_is_whitespace(text.get_char(end - 1)) {
            end -= 1;
        } else {
            at_word = true;
        }
    }
    let ghost run = head.take(end as int);
    let mut start: usize = end;
    let mut at_start = false;
    assert(run.take(end as int) =~= run);
    while start > 0 && !at_start
        invariant
            start <= end <= upto <= text@.len(),
            head == text@.take(upto as int),
            run == head.take(end as int),
            last_run_start(run) == if at_start {
                start as int
            } else {
                last_run_start(run.take(start as int))
            },
        decreases start + if at_start { 0int } else { 1int },
    {
        assert(run.take(start as int).drop_last() =~= run.take(start - 1));
        if char_is_whitespace(text.get_char(start - 1)) {
            at_start = true;
        } else {
            start -= 1;
        }
    }
    let word = text.substring_char(start, end).to_owned();
    assert(word@ =~= head.subrange(start as int, end as int));
    word
}

/// `text` without the white space at its start.
pub open spec fn skip_white(text: Seq<char>) -> Seq<char>
    decreases text.len(),
{
    if text.len() > 0 && is_white_space(text[0]) {
        skip_white(text.drop_first())
    } else {
        text
    }
}

/// How many characters stand at the start of `text` before the first white
/// space.
pub open spec fn word_len(text: Seq<char>) -> int
    decreases text.len(),
{
    if text.len() == 0 || is_white_space(text[0]) {
        0
    } else {
        1 + word_len(text.drop_first())
    }
}

/// The first word of `text`: what stands between the white space at its
/// start and the next white space. It is empty where `text` has no word.
pub open spec fn first_word(text: Seq<char>) -> Seq<char> {
    skip_white(text).take(word_len(skip_white(text)))
}

/// What follows the first word of `text`.
pub open spec fn after_first_word(text: Seq<char>) -> Seq<char> {
    skip_white(text).skip(word_len(skip_white(text)))
}

/// The second word of `text`; empty where `text` has one word at most.
pub open spec fn second_word(text: Seq<char>) -> Seq<char> {
    first_word(after_first_word(text))
}

/// The places between which the first word of what follows the place `from`
/// of `text` stands.
fn word_bounds(text: &str, from: usize) -> (bounds: (usize, usize))
    requires
        from <= text@.len(),
    ensures
        from <= bounds.0 <= bounds.1 <= text@.len(),
        skip_white(text@.skip(from as int)) == text@.skip(bounds.0 as int),
        bounds.1 - bounds.0 == word_len(text@.skip(bounds.0 as int)),
{
    let length = text.unicode_len();
    let mut start: usize = from;
    let mut in_word = false;
    while start < length && !in_word
        invariant
            from <= start <= length,
            length == text@.len(),
            skip_white(text@.skip(from as int)) == skip_white(text@.skip(start as int)),
            in_word ==> start < length && !is_white_space(text@[start as int]),
        decreases length - start + if in_word { 0int } else { 1int },
    {
        assert(text@.skip(start as int).drop_first() =~= text@.skip(start + 1));
        assert(text@.skip(start as int)[0] == text@[start as int]);
        if char_is_whitespace(text.get_char(start)) {
            start += 1;
        } else {
            in_word = true;
        }
    }
    proof {
        if start < length {
            assert(text@.skip(start as int)[0] == text@[start as int]);
        }
    }
    let mut end: usize = start;
    let mut at_end = false;
    while end < length && !at_end
        invariant
            start <= end <= length,
            length == text@.len(),
            word_len(text@.skip(start as int)) == (end - start) + if at_end {
                0
            } else {
                word_len(text@.skip(end as int))
            },
        decreases length - end + if at_end { 0int } else { 1int },
    {
        assert(text@.skip(end as int).drop_first() =~= text@.skip(end + 1));
        assert(text@.skip(end as int)[0] == text@[end as int]);
        if char_is_whitespace(text.get_char(end)) {
            at_end = true;
        } else {
            end += 1;
        }
    }
    (start, end)
}

/// The first word of `text`, see `first_word`.
pub fn first_word_of(text: &str) -> (word: String)
    ensures
        word@ == first_word(text@),
{
    assert(text@.skip(0) =~= text@);
    let (start, end) = word_bounds(text, 0);
    let word = text.substring_char(start, end).to_owned();
    assert(word@ =~= text@.skip(start as int).take(end - start));
    word
}

/// The second word of `text`, see `second_word`.
pub fn second_word_of(text: &str) -> (word: String)
    ensures
        word@ == second_word(text@),
{
    assert(text@.skip(0) =~= text@);
    let (first_start, first_end) = word_bounds(text, 0);
    assert(text@.skip(first_start as int).skip(first_end - first_start) =~= text@.skip(
        first_end as int,
    ));
    let (start, end) = word_bounds(text, first_end);
    let word = text.substring_char(start, end).to_owned();
    assert(word@ =~= text@.skip(start as int).take(end - start));
    word
}

/// The character that stands for a digit below ten.
pub open spec fn digit_char(digit: nat) -> char {
    if digit == 0 {
        '0'
    } else if digit == 1 {
        '1'
    } else if digit == 2 {
        '2'
    } else if digit == 3 {
        '3'
    } else if digit == 4 {
        '4'
    } else if digit == 5 {
        '5'
    } else if digit == 6 {
        '6'
    } else if digit == 7 {
        '7'
    } else if digit == 8 {
        '8'
    } else {
        '9'
    }
}

/// A number written in digits to the base ten, without leading zeros.
pub open spec fn decimal(number: nat) -> Seq<char>
    decreases number,
{
    if number < 10 {
        seq![digit_char(number)]
    } else {
        decimal(number / 10).push(digit_char(number % 10))
    }
}

/// The character that stands for a digit below ten, see `digit_char`.
fn digit(value: u128) -> (c: char)
    requires
        value < 10,
    ensures
        c == digit_char(value as nat),
{
    if value == 0 {
        '0'
    } else if value == 1 {
        '1'
    } else if value == 2 {
        '2'
    } else if value == 3 {
        '3'
    } else if value == 4 {
        '4'
    } else if value == 5 {
        '5'
    } else if value == 6 {
        '6'
    } else if value == 7 {
        '7'
    } else if value == 8 {
        '8'
    } else {
        '9'
    }
}

/// `number` written in digits, see `decimal`.
pub fn decimal_text(number: u128) -> (text: String)
    ensures
        text@ == decimal(number as nat),
    decreases number,
{
    if number < 10 {
        let mut text = String::new();
        push_char(&mut text, digit(number));
        assert(text@ =~= seq![digit_char(number as nat)]);
        text
    } else {
        let mut text = decimal_text(number / 10);
        push_char(&mut text, digit(number % 10));
        text
    }
}

/// A number of rows as a `u16`: numbers above 65535 become 65535.
pub open spec fn clamp_rows(rows: int) -> u16 {
    if rows > 65535 {
        65535u16
    } else if rows < 0 {
        0u16
    } else {
        rows as u16
    }
}

/// The columns left for text in an area `width` columns wide after `padding`
/// columns of borders and indentation: one column at least.
pub open spec fn text_columns(width: u16, padding: u16) -> nat {
    if width > padding {
        (width - padding) as nat
    } else {
        1
    }
}

/// The columns left for text, see `text_columns`.
pub fn columns_for_text(width: u16, padding: u16) -> (columns: usize)
    ensures
        columns == text_columns(width, padding),
{
    if width > padding {
        (width - padding) as usize
    } else {
        1
    }
}

/// A count of rows as a `u16`, see `clamp_rows`.
pub fn rows_from_count(count: usize) -> (rows: u16)
    ensures
        rows == clamp_rows(count as int),
{
    if count > 65535 {
        65535
    } else {
        count as u16
    }
}

/// The text that `textwrap::fill` makes of `text` for lines of `width` columns:
/// the same words, with a line feed wherever a line was broken.
pub uninterp spec fn filled_text(text: Seq<char>, width: nat) -> Seq<char>;

/// Calls `textwrap::fill` with a plain width, which stands for the crate's
/// default options. The crate wraps every text at every width without failing,
/// and what it returns depends on the text and the width alone; the contract
/// gives that result its name and claims nothing more of it.
#[verifier::external_body]
pub(crate) fn fill(text: &str, width: usize) -> (filled: String)
    ensures
        filled@ == filled_text(text@, width as nat),
{
    textwrap::fill(text, width)
}

/// How many lines `text` takes once it is wrapped to `width` columns.
pub fn wrapped_line_count(text: &str, width: usize) -> (count: usize)
    ensures
        count == line_count(filled_text(text@, width as nat)),
{
    let filled = fill(text, width);
    count_lines(filled.as_str())
}

} // verus!
