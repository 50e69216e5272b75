//! Scanning of text as sequences of characters: whitespace, trimming,
//! splitting into fields and lines, and decimal numbers.
//!
//! Everything here is stated over `Seq<char>`, the view of a `&str` or a
//! `String`, and works on `Vec<char>` at run time.

use vstd::prelude::*;

verus! {

/// Whether `c` is white space: one of the code points that Unicode classes
/// as `White_Space`.
pub open spec fn is_space(c: char) -> bool {
    let code = c as u32;
    ||| 0x09 <= code <= 0x0d
    ||| code == 0x20
    ||| code == 0x85
    ||| code == 0xa0
    ||| code == 0x1680
    ||| 0x2000 <= code <= 0x200a
    ||| code == 0x2028
    ||| code == 0x2029
    ||| code == 0x202f
    ||| code == 0x205f
    ||| code == 0x3000
}

/// Whether `c` is white space.
pub fn is_whitespace(c: char) -> (space: bool)
    ensures
        space == is_space(c),
{
    let code: u32 = c as u32;
    (0x09 <= code && code <= 0x0d) || code == 0x20 || code == 0x85 || code == 0xa0 || code
        == 0x1680 || (0x2000 <= code && code <= 0x200a) || code == 0x2028 || code == 0x2029
        || code == 0x202f || code == 0x205f || code == 0x3000
}

/// The views of the elements of a sequence of character vectors.
pub open spec fn views(pieces: Seq<Vec<char>>) -> Seq<Seq<char>> {
    Seq::new(pieces.len(), |i: int| pieces[i]@)
}

/// `s` without its leading white space.
pub open spec fn trimmed_start(s: Seq<char>) -> Seq<char>
    decreases s.len(),
{
    if s.len() > 0 && is_space(s[0]) {
        trimmed_start(s.drop_first())
    } else {
        s
    }
}

/// `s` without its trailing white space.
pub open spec fn trimmed_end(s: Seq<char>) -> Seq<char>
    decreases s.len(),
{
    if s.len() > 0 && is_space(s.last()) {
        trimmed_end(s.drop_last())
    } else {
        s
    }
}

/// `s` without its leading and trailing white space.
pub open spec fn trimmed(s: Seq<char>) -> Seq<char> {
    trimmed_end(trimmed_start(s))
}

/// The fields of `s`: its maximal runs of characters that are not white
/// space, in order. A text of white space alone has no fields.
pub open spec fn fields(s: Seq<char>) -> Seq<Seq<char>>
    decreases s.len(),
{
    if s.len() == 0 {
        Seq::empty()
    } else {
        let before = fields(s.drop_last());
        if is_space(s.last()) {
            before
        } else if s.len() >= 2 && !is_space(s[s.len() - 2]) {
            before.drop_last().push(before.last().push(s.last()))
        } else {
            before.push(seq![s.last()])
        }
    }
}

/// Whether `word` is a run of one or more characters none of which is white
/// space.
pub open spec fn is_word(word: Seq<char>) -> bool {
    word.len() > 0 && forall|j: int| 0 <= j < word.len() ==> !is_space(#[trigger] word[j])
}

/// Every field of a text is a word, and a text that does not end in white
/// space has a last field.
pub proof fn law_fields_are_words(s: Seq<char>)
    ensures
        forall|i: int| 0 <= i < fields(s).len() ==> is_word(#[trigger] fields(s)[i]),
        s.len() > 0 && !is_space(s.last()) ==> fields(s).len() > 0,
    decreases s.len(),
{
    if s.len() > 0 {
        let shorter = s.drop_last();
        let before = fields(shorter);
        law_fields_are_words(shorter);
        if !is_space(s.last()) {
            if s.len() >= 2 && !is_space(s[s.len() - 2]) {
                assert(shorter.last() == s[s.len() - 2]);
                let grown = before.last().push(s.last());
                assert(is_word(before.last()));
                assert forall|j: int| 0 <= j < grown.len() implies !is_space(
                    #[trigger] grown[j],
                ) by {
                    if j < before.last().len() {
                        assert(grown[j] == before.last()[j]);
                    }
                }
                assert forall|i: int| 0 <= i < fields(s).len() implies is_word(
                    #[trigger] fields(s)[i],
                ) by {
                    if i < before.len() - 1 {
                        assert(fields(s)[i] == before[i]);
                    }
                }
            } else {
                assert(is_word(seq![s.last()]));
                assert forall|i: int| 0 <= i < fields(s).len() implies is_word(
                    #[trigger] fields(s)[i],
                ) by {
                    if i < before.len() {
                        assert(fields(s)[i] == before[i]);
                    }
                }
            }
        }
    }
}

/// The characters of `s`.
pub fn chars_of(s: &str) -> (chars: Vec<char>)
    ensures
        chars@ == s@,
{
    let mut chars: Vec<char> = Vec::new();
    for c in it: s.chars()
        invariant
            it.seq() == s@,
            chars@ == s@.take(it.index() as int),
    {
        chars.push(c);
        assert(s@.take(it.index() + 1) =~= s@.take(it.index() as int).push(c));
    }
    assert(s@.take(s@.len() as int) =~= s@);
    chars
}

/// Collects characters into a `String` with `String::from_iter`, which
/// yields the string made of exactly those characters in that order.
#[verifier::external_body]
pub(crate) fn string_of(chars: &Vec<char>) -> (s: String)
    ensures
        s@ == chars@,
{
    String::from_iter(chars.iter())
}

/// A copy of the characters of `s` from index `from` up to, not including,
/// index `to`.
pub fn slice_of(s: &Vec<char>, from: usize, to: usize) -> (piece: Vec<char>)
    requires
        from <= to <= s@.len(),
    ensures
        piece@ == s@.subrange(from as int, to as int),
{
    let mut piece: Vec<char> = Vec::new();
    let mut i: usize = from;
    while i < to
        invariant
            from <= i <= to <= s@.len(),
            piece@ == s@.subrange(from as int, i as int),
        decreases to - i,
    {
        piece.push(s[i]);
        assert(s@.subrange(from as int, i + 1) =~= s@.subrange(from as int, i as int).push(
            s@[i as int],
        ));
        i = i + 1;
    }
    piece
}

/// Trimming the start of a text that begins with `n` characters of white
/// space is trimming the start of what follows them.
proof fn lemma_trimmed_start_skip(s: Seq<char>, n: int)
    requires
        0 <= n <= s.len(),
        forall|j: int| 0 <= j < n ==> is_space(s[j]),
    ensures
        trimmed_start(s) == trimmed_start(s.skip(n)),
    decreases n,
{
    if n > 0 {
        let rest = s.drop_first();
        assert forall|j: int| 0 <= j < n - 1 implies is_space(rest[j]) by {
            assert(rest[j] == s[j + 1]);
        }
        lemma_trimmed_start_skip(rest, n - 1);
        assert(rest.skip(n - 1) =~= s.skip(n));
    } else {
        assert(s.skip(0) =~= s);
    }
}

/// Trimming the end of a text that ends with white space from index `n` on
/// is trimming the end of what precedes it.
proof fn lemma_trimmed_end_take(s: Seq<char>, n: int)
    requires
        0 <= n <= s.len(),
        forall|j: int| n <= j < s.len() ==> is_space(s[j]),
    ensures
        trimmed_end(s) == trimmed_end(s.take(n)),
    decreases s.len() - n,
{
    if n < s.len() {
        let rest = s.drop_last();
        lemma_trimmed_end_take(rest, n);
        assert(rest.take(n) =~= s.take(n));
    } else {
        assert(s.take(n) =~= s);
    }
}

/// `s` without its leading and trailing white space.
pub fn trim(s: &Vec<char>) -> (t: Vec<char>)
    ensures
        t@ == trimmed(s@),
{
    let len: usize = s.len();
    let mut start: usize = 0;
    while start < len && is_whitespace(s[start])
        invariant
            len == s@.len(),
            start <= len,
            forall|j: int| 0 <= j < start ==> is_space(s@[j]),
        decreases len - start,
    {
        start = start + 1;
    }
    let mut end: usize = len;
    while end > start && is_whitespace(s[end - 1])
        invariant
            len == s@.len(),
            start <= end <= len,
            forall|j: int| end <= j < len ==> is_space(s@[j]),
        decreases end,
    {
        end = end - 1;
    }
    proof {
        let tail = s@.skip(start as int);
        lemma_trimmed_start_skip(s@, start as int);
        assert(trimmed_start(tail) == tail);
        let kept = end - start;
        assert forall|j: int| kept <= j < tail.len() implies is_space(tail[j]) by {
            assert(tail[j] == s@[j + start]);
        }
        lemma_trimmed_end_take(tail, kept);
        assert(tail.take(kept) =~= s@.subrange(start as int, end as int));
        if kept > 0 {
            assert(tail.take(kept).last() == s@[end - 1]);
        }
        assert(trimmed_end(tail.take(kept)) == tail.take(kept));
    }
    slice_of(s, start, end)
}

/// The fields of `s`: its maximal runs of characters that are not white
/// space, in order.
pub fn split_whitespace(s: &Vec<char>) -> (pieces: Vec<Vec<char>>)
    ensures
        views(pieces@) == fields(s@),
{
    let len: usize = s.len();
    let mut pieces: Vec<Vec<char>> = Vec::new();
    let mut current: Vec<char> = Vec::new();
    let mut i: usize = 0;
    assert(views(pieces@) =~= fields(s@.take(0)));
    while i < len
        invariant
            len == s@.len(),
            i <= len,
            current@.len() > 0 <==> (i > 0 && !is_space(s@[i - 1])),
            fields(s@.take(i as int)) == if current@.len() > 0 {
                views(pieces@).push(current@)
            } else {
                views(pieces@)
            },
        decreases len - i,
    {
        let c: char = s[i];
        proof {
            let next = s@.take(i + 1);
            assert(next.drop_last() =~= s@.take(i as int));
            assert(next.last() == c);
            if i > 0 {
                assert(next[next.len() - 2] == s@[i - 1]);
            }
        }
        if is_whitespace(c) {
            if current.len() > 0 {
                let ghost before = views(pieces@);
                let ghost word = current@;
                pieces.push(current);
                current = Vec::new();
                assert(views(pieces@) =~= before.push(word));
            }
        } else {
            let ghost word = current@;
            current.push(c);
            proof {
                let shown = views(pieces@);
                if word.len() > 0 {
                    assert(shown.push(word).drop_last() =~= shown);
                } else {
                    assert(current@ =~= seq![c]);
                }
            }
        }
        i = i + 1;
    }
    assert(s@.take(len as int) =~= s@);
    if current.len() > 0 {
        let ghost before = views(pieces@);
        let ghost word = current@;
        pieces.push(current);
        assert(views(pieces@) =~= before.push(word));
    }
    pieces
}


/// The pieces of `s` between occurrences of `separator`; there is always one
/// piece more than there are separators, and pieces may be empty.
pub open spec fn split_on(s: Seq<char>, separator: char) -> Seq<Seq<char>>
    decreases s.len(),
{
    if s.len() == 0 {
        seq![Seq::empty()]
    } else {
        let before = split_on(s.drop_last(), separator);
        if s.last() == separator {
            before.push(Seq::empty())
        } else {
            before.drop_last().push(before.last().push(s.last()))
        }
    }
}

/// `s` without one trailing carriage return, if it ends with one.
pub open spec fn without_carriage_return(s: Seq<char>) -> Seq<char> {
    if s.len() > 0 && s.last() == '\r' {
        s.drop_last()
    } else {
        s
    }
}

/// The lines of `s`. A line ends at a line feed; a carriage return directly
/// before that line feed belongs to the line ending. What follows the last
/// line feed is a line of its own unless it is empty.
pub open spec fn lines_of(s: Seq<char>) -> Seq<Seq<char>> {
    let pieces = split_on(s, '\n');
    let ended = pieces.drop_last().map_values(|line: Seq<char>| without_carriage_return(line));
    if pieces.last().len() == 0 {
        ended
    } else {
        ended.push(pieces.last())
    }
}

/// Whether `c` is one of the decimal digits `0` to `9`.
pub open spec fn is_digit(c: char) -> bool {
    0x30 <= c as u32 <= 0x39
}

/// Whether every character of `s` is a decimal digit.
pub open spec fn all_digits(s: Seq<char>) -> bool {
    forall|i: int| 0 <= i < s.len() ==> is_digit(#[trigger] s[i])
}

/// The number that a sequence of decimal digits denotes; 0 for the empty
/// sequence.
pub open spec fn digits_value(s: Seq<char>) -> nat
    decreases s.len(),
{
    if s.len() == 0 {
        0
    } else {
        digits_value(s.drop_last()) * 10 + (s.last() as u32 - 0x30) as nat
    }
}

/// `s` without one leading plus sign, if it begins with one.
pub open spec fn without_plus(s: Seq<char>) -> Seq<char> {
    if s.len() > 0 && s[0] == '+' {
        s.drop_first()
    } else {
        s
    }
}

/// The natural number that `s` denotes in decimal: an optional plus sign,
/// then one or more decimal digits and nothing else. `None` for any other
/// text.
pub open spec fn decimal(s: Seq<char>) -> Option<nat> {
    let digits = without_plus(s);
    if digits.len() > 0 && all_digits(digits) {
        Some(digits_value(digits))
    } else {
        None
    }
}

/// The `u64` that `s` denotes in decimal, if it denotes a number that fits.
pub open spec fn decimal_u64(s: Seq<char>) -> Option<u64> {
    match decimal(s) {
        Some(value) => if value <= u64::MAX {
            Some(value as u64)
        } else {
            None
        },
        None => None,
    }
}

/// The `usize` that `s` denotes in decimal, if it denotes a number that fits.
pub open spec fn decimal_usize(s: Seq<char>) -> Option<usize> {
    match decimal(s) {
        Some(value) => if value <= usize::MAX {
            Some(value as usize)
        } else {
            None
        },
        None => None,
    }
}

/// The truth value that `s` spells: exactly `true` or exactly `false`.
pub open spec fn boolean(s: Seq<char>) -> Option<bool> {
    if s == seq!['t', 'r', 'u', 'e'] {
        Some(true)
    } else if s == seq!['f', 'a', 'l', 's', 'e'] {
        Some(false)
    } else {
        None
    }
}

/// Whether `s` begins with `prefix`.
pub open spec fn has_prefix(s: Seq<char>, prefix: Seq<char>) -> bool {
    prefix.len() <= s.len() && s.take(prefix.len() as int) == prefix
}

/// The pieces of `s` between occurrences of `separator`.
pub fn split_char(s: &Vec<char>, separator: char) -> (pieces: Vec<Vec<char>>)
    ensures
        views(pieces@) == split_on(s@, separator),
        pieces@.len() >= 1,
{
    let len: usize = s.len();
    let mut pieces: Vec<Vec<char>> = Vec::new();
    let mut current: Vec<char> = Vec::new();
    let mut i: usize = 0;
    assert(views(pieces@).push(current@) =~= split_on(s@.take(0), separator));
    while i < len
        invariant
            len == s@.len(),
            i <= len,
            split_on(s@.take(i as int), separator) == views(pieces@).push(current@),
        decreases len - i,
    {
        let c: char = s[i];
        let ghost shown = views(pieces@);
        let ghost word = current@;
        proof {
            let next = s@.take(i + 1);
            assert(next.drop_last() =~= s@.take(i as int));
            assert(next.last() == c);
            assert(shown.push(word).drop_last() =~= shown);
        }
        if c == separator {
            pieces.push(current);
            current = Vec::new();
            assert(views(pieces@) =~= shown.push(word));
        } else {
            current.push(c);
        }
        i = i + 1;
    }
    assert(s@.take(len as int) =~= s@);
    let ghost shown = views(pieces@);
    let ghost word = current@;
    pieces.push(current);
    assert(views(pieces@) =~= shown.push(word));
    pieces
}

/// The lines of `s`.
pub fn lines(s: &Vec<char>) -> (result: Vec<Vec<char>>)
    ensures
        views(result@) == lines_of(s@),
{
    let pieces = split_char(s, '\n');
    let count: usize = pieces.len();
    let ghost ended = views(pieces@).drop_last().map_values(
        |line: Seq<char>| without_carriage_return(line),
    );
    let mut result: Vec<Vec<char>> = Vec::new();
    let mut i: usize = 0;
    while i < count - 1
        invariant
            count == pieces@.len(),
            count >= 1,
            i <= count - 1,
            views(result@) == ended.take(i as int),
            ended == views(pieces@).drop_last().map_values(
                |line: Seq<char>| without_carriage_return(line),
            ),
        decreases count - i,
    {
        let piece = &pieces[i];
        let n: usize = piece.len();
        let line = if n > 0 && piece[n - 1] == '\r' {
            slice_of(piece, 0, n - 1)
        } else {
            slice_of(piece, 0, n)
        };
        proof {
            assert(piece@.subrange(0, n as int) =~= piece@);
            assert(views(pieces@).drop_last()[i as int] == piece@);
            assert(line@ == ended[i as int]);
        }
        let ghost before = views(result@);
        result.push(line);
        assert(views(result@) =~= before.push(ended[i as int]));
        assert(ended.take(i + 1) =~= ended.take(i as int).push(ended[i as int]));
        i = i + 1;
    }
    assert(ended.take(count - 1) =~= ended);
    let last = &pieces[count - 1];
    assert(views(pieces@).last() == last@);
    if last.len() > 0 {
        let n: usize = last.len();
        let line = slice_of(last, 0, n);
        assert(last@.subrange(0, n as int) =~= last@);
        let ghost before = views(result@);
        result.push(line);
        assert(views(result@) =~= before.push(last@));
    }
    result
}

/// The value of a prefix of a digit sequence is at most the value of the
/// whole sequence.
proof fn lemma_digits_value_grows(s: Seq<char>, n: int)
    requires
        0 <= n <= s.len(),
    ensures
        digits_value(s.take(n)) <= digits_value(s),
    decreases s.len() - n,
{
    if n < s.len() {
        let shorter = s.drop_last();
        lemma_digits_value_grows(shorter, n);
        assert(shorter.take(n) =~= s.take(n));
        assert(digits_value(shorter) <= digits_value(shorter) * 10) by (nonlinear_arith);
    } else {
        assert(s.take(n) =~= s);
    }
}

/// The `u64` that `s` denotes in decimal: an optional plus sign, then one or
/// more decimal digits, with a value of at most `u64::MAX`.
pub fn parse_u64(s: &Vec<char>) -> (value: Option<u64>)
    ensures
        value == decimal_u64(s@),
{
    let len: usize = s.len();
    let start: usize = if len > 0 && s[0] == '+' {
        1
    } else {
        0
    };
    let ghost digits = without_plus(s@);
    assert(digits =~= s@.skip(start as int));
    if start == len {
        return None;
    }
    let mut total: u64 = 0;
    let mut i: usize = start;
    while i < len
        invariant
            len == s@.len(),
            start <= i <= len,
            digits == s@.skip(start as int),
            digits == without_plus(s@),
            all_digits(digits.take(i - start)),
            total == digits_value(digits.take(i - start)),
        decreases len - i,
    {
        let c: char = s[i];
        let code: u32 = c as u32;
        let ghost seen = digits.take(i - start);
        let ghost next = digits.take(i - start + 1);
        proof {
            assert(digits[i - start] == c);
            assert(next.drop_last() =~= seen);
            assert(next.last() == c);
        }
        if code < 0x30 || code > 0x39 {
            assert(!is_digit(digits[i - start]));
            return None;
        }
        let digit: u64 = (code - 0x30) as u64;
        proof {
            assert forall|j: int| 0 <= j < next.len() implies is_digit(#[trigger] next[j]) by {
                if j < seen.len() {
                    assert(next[j] == seen[j]);
                }
            }
            lemma_digits_value_grows(digits, i - start + 1);
            assert(digits_value(next) == total * 10 + digit);
        }
        if total > (u64::MAX - digit) / 10 {
            proof {
                assert(total * 10 + digit > u64::MAX) by (nonlinear_arith)
                    requires
                        total > (u64::MAX - digit) / 10,
                        0 <= digit <= 9,
                ;
                if all_digits(digits) {
                    assert(digits_value(digits) > u64::MAX);
                }
            }
            return None;
        }
        assert(total * 10 + digit <= u64::MAX) by (nonlinear_arith)
            requires
                total <= (u64::MAX - digit) / 10,
                0 <= digit <= 9,
        ;
        total = total * 10 + digit;
        i = i + 1;
    }
    assert(digits.take(len - start) =~= digits);
    Some(total)
}

/// The `usize` that `s` denotes in decimal, if it denotes one.
pub fn parse_usize(s: &Vec<char>) -> (value: Option<usize>)
    ensures
        value == decimal_usize(s@),
{
    match parse_u64(s) {
        Some(wide) => {
            if wide <= usize::MAX as u64 {
                Some(wide as usize)
            } else {
                None
            }
        },
        None => None,
    }
}

/// The truth value that `s` spells: exactly `true` or exactly `false`.
pub fn parse_bool(s: &Vec<char>) -> (value: Option<bool>)
    ensures
        value == boolean(s@),
{
    if s.len() == 4 && s[0] == 't' && s[1] == 'r' && s[2] == 'u' && s[3] == 'e' {
        assert(s@ =~= seq!['t', 'r', 'u', 'e']);
        Some(true)
    } else if s.len() == 5 && s[0] == 'f' && s[1] == 'a' && s[2] == 'l' && s[3] == 's' && s[4]
        == 'e' {
        assert(s@ =~= seq!['f', 'a', 'l', 's', 'e']);
        Some(false)
    } else {
        proof {
            let t = seq!['t', 'r', 'u', 'e'];
            let f = seq!['f', 'a', 'l', 's', 'e'];
            if s@ == t {
                assert(s@.len() == 4 && s@[0] == t[0] && s@[1] == t[1] && s@[2] == t[2] && s@[3]
                    == t[3]);
            }
            if s@ == f {
                assert(s@.len() == 5 && s@[0] == f[0] && s@[1] == f[1] && s@[2] == f[2] && s@[3]
                    == f[3] && s@[4] == f[4]);
            }
        }
        None
    }
}

/// Whether `s` begins with `prefix`.
pub fn starts_with(s: &Vec<char>, prefix: &Vec<char>) -> (found: bool)
    ensures
        found == has_prefix(s@, prefix@),
{
    let n: usize = prefix.len();
    if n > s.len() {
        return false;
    }
    let mut i: usize = 0;
    while i < n
        invariant
            n == prefix@.len(),
            n <= s@.len(),
            i <= n,
            s@.take(i as int) == prefix@.take(i as int),
        decreases n - i,
    {
        if s[i] != prefix[i] {
            proof {
                if s@.take(n as int) == prefix@ {
                    assert(s@.take(n as int)[i as int] == prefix@[i as int]);
                }
            }
            return false;
        }
        assert(s@.take(i + 1) =~= s@.take(i as int).push(s@[i as int]));
        assert(prefix@.take(i + 1) =~= prefix@.take(i as int).push(prefix@[i as int]));
        i = i + 1;
    }
    assert(prefix@.take(n as int) =~= prefix@);
    true
}

/// Whether `c` occurs in `s`.
pub fn contains_char(s: &Vec<char>, c: char) -> (found: bool)
    ensures
        found == s@.contains(c),
{
    let mut i: usize = 0;
    while i < s.len()
        invariant
            i <= s@.len(),
            forall|j: int| 0 <= j < i ==> s@[j] != c,
        decreases s@.len() - i,
    {
        if s[i] == c {
            return true;
        }
        i = i + 1;
    }
    false
}

/// The concatenation of `head` and `tail` as a `String`.
pub fn joined(head: &str, tail: &Vec<char>) -> (s: String)
    ensures
        s@ == head@ + tail@,
{
    let mut chars = chars_of(head);
    let mut i: usize = 0;
    while i < tail.len()
        invariant
            i <= tail@.len(),
            chars@ == head@ + tail@.take(i as int),
        decreases tail@.len() - i,
    {
        chars.push(tail[i]);
        assert(head@ + tail@.take(i + 1) =~= (head@ + tail@.take(i as int)).push(tail@[i as int]));
        i = i + 1;
    }
    assert(tail@.take(tail@.len() as int) =~= tail@);
    string_of(&chars)
}

/// Whether `a` and `b` hold the same characters.
pub fn same_chars(a: &Vec<char>, b: &Vec<char>) -> (same: bool)
    ensures
        same == (a@ == b@),
{
    if a.len() != b.len() {
        return false;
    }
    let mut i: usize = 0;
    while i < a.len()
        invariant
            a@.len() == b@.len(),
            i <= a@.len(),
            forall|j: int| 0 <= j < i ==> a@[j] == b@[j],
        decreases a@.len() - i,
    {
        if a[i] != b[i] {
            return false;
        }
        i = i + 1;
    }
    assert(a@ =~= b@);
    true
}

} // verus!
