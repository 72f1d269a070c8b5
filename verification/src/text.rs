//! Text as sequences of characters: trimming, splitting, joining, numbers.
use vstd::prelude::*;

verus! {

/// The characters with the Unicode property `White_Space`.
pub open spec fn is_space(c: char) -> bool {
    let n = c as u32;
    ||| 0x9 <= n <= 0xd
    ||| n == 0x20
    ||| n == 0x85
    ||| n == 0xa0
    ||| n == 0x1680
    ||| 0x2000 <= n <= 0x200a
    ||| n == 0x2028
    ||| n == 0x2029
    ||| n == 0x202f
    ||| n == 0x205f
    ||| n == 0x3000
}

/// Tells whether a character is white space.
pub fn is_space_char(c: char) -> (result: bool)
    ensures
        result == is_space(c),
{
    let n: u32 = c as u32;
    (0x9 <= n && n <= 0xd) || n == 0x20 || n == 0x85 || n == 0xa0 || n == 0x1680 || (0x2000 <= n
        && n <= 0x200a) || n == 0x2028 || n == 0x2029 || n == 0x202f || n == 0x205f || n == 0x3000
}

/// `s` without leading white space.
pub open spec fn trim_start(s: Seq<char>) -> Seq<char>
    decreases s.len(),
{
    if s.len() > 0 && is_space(s[0]) {
        trim_start(s.skip(1))
    } else {
        s
    }
}

/// `s` without trailing white space.
pub open spec fn trim_end(s: Seq<char>) -> Seq<char>
    decreases s.len(),
{
    if s.len() > 0 && is_space(s.last()) {
        trim_end(s.drop_last())
    } else {
        s
    }
}

/// `s` without leading and trailing white space.
pub open spec fn trim(s: Seq<char>) -> Seq<char> {
    trim_end(trim_start(s))
}

/// Length of the longest prefix of `s` without white space.
pub open spec fn word_len(s: Seq<char>) -> nat
    decreases s.len(),
{
    if s.len() > 0 && !is_space(s[0]) {
        1 + word_len(s.skip(1))
    } else {
        0
    }
}

pub proof fn lemma_word_len(s: Seq<char>)
    ensures
        word_len(s) <= s.len(),
        forall|i: int| 0 <= i < word_len(s) ==> !is_space(#[trigger] s[i]),
        word_len(s) < s.len() ==> is_space(s[word_len(s) as int]),
    decreases s.len(),
{
    if s.len() > 0 && !is_space(s[0]) {
        let rest = s.skip(1);
        lemma_word_len(rest);
        assert forall|i: int| 0 <= i < word_len(s) implies !is_space(#[trigger] s[i]) by {
            if i > 0 {
                assert(rest[i - 1] == s[i]);
            }
        }
    }
}

proof fn lemma_trim_start_len(s: Seq<char>)
    ensures
        trim_start(s).len() <= s.len(),
        trim_start(s).len() > 0 ==> !is_space(trim_start(s)[0]),
    decreases s.len(),
{
    if s.len() > 0 && is_space(s[0]) {
        lemma_trim_start_len(s.skip(1));
    }
}

/// The words of `s`: its maximal runs of characters that are not white space.
pub open spec fn words(s: Seq<char>) -> Seq<Seq<char>>
    decreases s.len(),
    via words_decreases
{
    let t = trim_start(s);
    if t.len() == 0 {
        Seq::empty()
    } else {
        seq![t.take(word_len(t) as int)] + words(t.skip(word_len(t) as int))
    }
}

#[via_fn]
proof fn words_decreases(s: Seq<char>) {
    lemma_trim_start_len(s);
    let t = trim_start(s);
    lemma_word_len(t);
    if t.len() > 0 {
        assert(word_len(t) > 0);
    }
}

/// Position of the first `wanted` in `s`, or the length of `s`.
pub open spec fn index_of_char(s: Seq<char>, wanted: char) -> nat
    decreases s.len(),
{
    if s.len() > 0 && s[0] != wanted {
        1 + index_of_char(s.skip(1), wanted)
    } else {
        0
    }
}

pub proof fn lemma_index_of_char(s: Seq<char>, wanted: char)
    ensures
        index_of_char(s, wanted) <= s.len(),
        forall|i: int| 0 <= i < index_of_char(s, wanted) ==> #[trigger] s[i] != wanted,
        index_of_char(s, wanted) < s.len() ==> s[index_of_char(s, wanted) as int] == wanted,
    decreases s.len(),
{
    if s.len() > 0 && s[0] != wanted {
        let rest = s.skip(1);
        lemma_index_of_char(rest, wanted);
        assert forall|i: int| 0 <= i < index_of_char(s, wanted) implies #[trigger] s[i]
            != wanted by {
            if i > 0 {
                assert(rest[i - 1] == s[i]);
            }
        }
    }
}

/// The position of the first `wanted` is pinned down by what stands before and at it.
pub proof fn lemma_index_of_char_unique(s: Seq<char>, wanted: char, at: int)
    requires
        0 <= at <= s.len(),
        forall|i: int| 0 <= i < at ==> #[trigger] s[i] != wanted,
        at < s.len() ==> s[at] == wanted,
    ensures
        index_of_char(s, wanted) == at,
{
    lemma_index_of_char(s, wanted);
    let found = index_of_char(s, wanted) as int;
    if found < at {
        assert(s[found] != wanted);
    } else if at < found {
        assert(s[at] != wanted);
    }
}

/// A line without the carriage return that ends it.
pub open spec fn strip_return(line: Seq<char>) -> Seq<char> {
    if line.len() > 0 && line.last() == '\r' {
        line.drop_last()
    } else {
        line
    }
}

/// The lines of `s`: a line feed, or a carriage return and a line feed, ends a line; the last
/// line need not be ended.
pub open spec fn lines(s: Seq<char>) -> Seq<Seq<char>>
    decreases s.len(),
    via lines_decreases
{
    if s.len() == 0 {
        Seq::empty()
    } else {
        let end = index_of_char(s, '\n') as int;
        if end == s.len() {
            seq![s]
        } else {
            seq![strip_return(s.take(end))] + lines(s.skip(end + 1))
        }
    }
}

#[via_fn]
proof fn lines_decreases(s: Seq<char>) {
    lemma_index_of_char(s, '\n');
}

/// The pieces, with `separator` between each two.
pub open spec fn join(pieces: Seq<Seq<char>>, separator: Seq<char>) -> Seq<char>
    decreases pieces.len(),
{
    if pieces.len() == 0 {
        Seq::empty()
    } else if pieces.len() == 1 {
        pieces[0]
    } else {
        join(pieces.drop_last(), separator) + separator + pieces.last()
    }
}

/// What a list of strings holds.
pub open spec fn views(strings: Seq<String>) -> Seq<Seq<char>> {
    Seq::new(strings.len(), |i: int| strings[i]@)
}

/// Collects the characters of a text.
pub fn chars_of(s: &str) -> (result: Vec<char>)
    ensures
        result@ == s@,
{
    let mut result: Vec<char> = Vec::new();
    for c in walk: s.chars()
        invariant
            walk.seq() == s@,
            result@ == s@.take(walk.index() as int),
    {
        result.push(c);
        assert(s@.take(walk.index() + 1) =~= s@.take(walk.index() as int).push(c));
    }
    assert(s@.take(s@.len() as int) =~= s@);
    result
}

/// Tells whether two texts are the same.
pub fn same_text(left: &str, right: &str) -> (result: bool)
    ensures
        result == (left@ == right@),
{
    let left_chars: Vec<char> = chars_of(left);
    let right_chars: Vec<char> = chars_of(right);
    if left_chars.len() != right_chars.len() {
        return false;
    }
    let mut at: usize = 0;
    while at < left_chars.len()
        invariant
            at <= left_chars.len(),
            left_chars.len() == right_chars.len(),
            left_chars@ == left@,
            right_chars@ == right@,
            forall|i: int| 0 <= i < at ==> #[trigger] left@[i] == right@[i],
        decreases left_chars.len() - at,
    {
        if left_chars[at] != right_chars[at] {
            assert(left@[at as int] != right@[at as int]);
            return false;
        }
        at += 1;
    }
    assert(left@ =~= right@);
    true
}

/// Removes leading and trailing white space.
pub fn trimmed(s: &str) -> (result: String)
    ensures
        result@ == trim(s@),
{
    let chars: Vec<char> = chars_of(s);
    let mut from: usize = 0;
    assert(s@.skip(0) =~= s@);
    while from < chars.len() && is_space_char(chars[from])
        invariant
            from <= chars.len(),
            chars@ == s@,
            trim_start(s@) == trim_start(s@.skip(from as int)),
        decreases chars.len() - from,
    {
        assert(s@.skip(from as int).skip(1) =~= s@.skip(from + 1));
        from += 1;
    }
    let ghost rest = s@.skip(from as int);
    assert(trim_start(s@) == rest);
    let mut to: usize = chars.len();
    assert(s@.subrange(from as int, to as int) =~= rest);
    while to > from && is_space_char(chars[to - 1])
        invariant
            from <= to <= chars.len(),
            chars@ == s@,
            trim_end(rest) == trim_end(s@.subrange(from as int, to as int)),
        decreases to,
    {
        assert(s@.subrange(from as int, to as int).drop_last() =~= s@.subrange(
            from as int,
            to - 1,
        ));
        to -= 1;
    }
    s.substring_char(from, to).to_owned()
}

/// Splits a text into its lines.
pub fn lines_of(s: &str) -> (result: Vec<String>)
    ensures
        views(result@) == lines(s@),
{
    let chars: Vec<char> = chars_of(s);
    let mut result: Vec<String> = Vec::new();
    let mut start: usize = 0;
    assert(s@.skip(0) =~= s@);
    assert(views(result@) + lines(s@.skip(0)) =~= lines(s@));
    while start < chars.len()
        invariant
            start <= chars.len(),
            chars@ == s@,
            views(result@) + lines(s@.skip(start as int)) == lines(s@),
        decreases chars.len() - start,
    {
        let ghost rest = s@.skip(start as int);
        let ghost before = views(result@);
        let mut end: usize = start;
        while end < chars.len() && chars[end] != '\n'
            invariant
                start <= end <= chars.len(),
                chars@ == s@,
                forall|i: int| start <= i < end ==> #[trigger] s@[i] != '\n',
            decreases chars.len() - end,
        {
            end += 1;
        }
        proof {
            lemma_index_of_char_unique(rest, '\n', end - start);
        }
        if end == chars.len() {
            let line: String = s.substring_char(start, end).to_owned();
            assert(line@ =~= rest);
            result.push(line);
            assert(views(result@) =~= before.push(rest));
            assert(lines(rest) == seq![rest]);
            assert(before.push(rest) =~= before + seq![rest]);
            assert(s@.skip(end as int) =~= Seq::empty());
            assert(views(result@) + lines(s@.skip(end as int)) =~= views(result@));
            start = end;
        } else {
            let stop: usize = if end > start && chars[end - 1] == '\r' {
                end - 1
            } else {
                end
            };
            let line: String = s.substring_char(start, stop).to_owned();
            proof {
                let raw = rest.take(end - start);
                assert(line@ =~= strip_return(raw));
                assert(lines(rest) == seq![strip_return(raw)] + lines(rest.skip(end - start + 1)));
                assert(rest.skip(end - start + 1) =~= s@.skip(end + 1));
            }
            result.push(line);
            assert(views(result@) =~= before.push(line@));
            assert(views(result@) + lines(s@.skip(end + 1)) =~= before + (seq![line@] + lines(
                s@.skip(end + 1),
            )));
            start = end + 1;
        }
    }
    assert(s@.skip(start as int) =~= Seq::empty());
    assert(views(result@) + Seq::<Seq<char>>::empty() =~= views(result@));
    result
}

/// Splits a text into its words.
pub fn words_of(s: &str) -> (result: Vec<String>)
    ensures
        views(result@) == words(s@),
{
    let chars: Vec<char> = chars_of(s);
    let mut result: Vec<String> = Vec::new();
    let mut start: usize = 0;
    assert(s@.skip(0) =~= s@);
    assert(views(result@) + words(s@.skip(0)) =~= words(s@));
    loop
        invariant
            start <= chars.len(),
            chars@ == s@,
            views(result@) + words(s@.skip(start as int)) == words(s@),
        ensures
            views(result@) == words(s@),
        decreases chars.len() - start,
    {
        let ghost rest = s@.skip(start as int);
        let ghost before = views(result@);
        let mut from: usize = start;
        assert(s@.skip(from as int) =~= rest);
        while from < chars.len() && is_space_char(chars[from])
            invariant
                start <= from <= chars.len(),
                chars@ == s@,
                trim_start(rest) == trim_start(s@.skip(from as int)),
            decreases chars.len() - from,
        {
            assert(s@.skip(from as int).skip(1) =~= s@.skip(from + 1));
            from += 1;
        }
        let ghost t = s@.skip(from as int);
        assert(trim_start(rest) == t);
        if from == chars.len() {
            assert(words(rest) =~= Seq::empty());
            assert(before + Seq::<Seq<char>>::empty() =~= before);
            break ;
        }
        let mut to: usize = from;
        assert(s@.skip(to as int) =~= t);
        while to < chars.len() && !is_space_char(chars[to])
            invariant
                from <= to <= chars.len(),
                chars@ == s@,
                t == s@.skip(from as int),
                word_len(t) == to - from + word_len(s@.skip(to as int)),
            decreases chars.len() - to,
        {
            assert(s@.skip(to as int).skip(1) =~= s@.skip(to + 1));
            to += 1;
        }
        assert(word_len(t) == to - from);
        let word: String = s.substring_char(from, to).to_owned();
        assert(word@ =~= t.take(to - from));
        assert(t.skip(to - from) =~= s@.skip(to as int));
        assert(words(rest) == seq![word@] + words(s@.skip(to as int)));
        result.push(word);
        assert(views(result@) =~= before.push(word@));
        assert(views(result@) + words(s@.skip(to as int)) =~= before + (seq![word@] + words(
            s@.skip(to as int),
        )));
        proof {
            lemma_word_len(t);
        }
        start = to;
    }
    result
}

/// Puts `separator` between each two of the pieces from position `from` on.
pub fn joined_from(pieces: &Vec<String>, from: usize, separator: &str) -> (result: String)
    requires
        from <= pieces.len(),
    ensures
        result@ == join(views(pieces@).skip(from as int), separator@),
{
    let ghost all = views(pieces@).skip(from as int);
    let mut result: String = String::new();
    let mut at: usize = from;
    while at < pieces.len()
        invariant
            from <= at <= pieces.len(),
            all == views(pieces@).skip(from as int),
            result@ == join(all.take(at - from), separator@),
        decreases pieces.len() - at,
    {
        proof {
            let after = all.take(at + 1 - from);
            assert(after.drop_last() =~= all.take(at - from));
            assert(after.last() == pieces@[at as int]@);
        }
        if at > from {
            result.append(separator);
        } else {
            assert(join(all.take(1), separator@) == all.take(1)[0]);
            assert(Seq::<char>::empty() + pieces@[at as int]@ =~= pieces@[at as int]@);
        }
        result.append(pieces[at].as_str());
        at += 1;
    }
    assert(all.take(all.len() as int) =~= all);
    result
}

/// Puts `separator` between each two of the pieces.
pub fn joined(pieces: &Vec<String>, separator: &str) -> (result: String)
    ensures
        result@ == join(views(pieces@), separator@),
{
    assert(views(pieces@).skip(0) =~= views(pieces@));
    joined_from(pieces, 0, separator)
}

/// Tells whether a text contains a character.
pub fn contains_char(s: &str, wanted: char) -> (result: bool)
    ensures
        result == s@.contains(wanted),
{
    let chars: Vec<char> = chars_of(s);
    let mut at: usize = 0;
    while at < chars.len()
        invariant
            at <= chars.len(),
            chars@ == s@,
            forall|i: int| 0 <= i < at ==> #[trigger] s@[i] != wanted,
        decreases chars.len() - at,
    {
        if chars[at] == wanted {
            assert(s@[at as int] == wanted);
            return true;
        }
        at += 1;
    }
    false
}

/// Some character of `s` is white space.
pub open spec fn has_space(s: Seq<char>) -> bool {
    exists|i: int| 0 <= i < s.len() && is_space(#[trigger] s[i])
}

/// Tells whether a text contains white space.
pub fn contains_space(s: &str) -> (result: bool)
    ensures
        result == has_space(s@),
{
    let chars: Vec<char> = chars_of(s);
    let mut at: usize = 0;
    while at < chars.len()
        invariant
            at <= chars.len(),
            chars@ == s@,
            forall|i: int| 0 <= i < at ==> !is_space(#[trigger] s@[i]),
        decreases chars.len() - at,
    {
        if is_space_char(chars[at]) {
            assert(is_space(s@[at as int]));
            return true;
        }
        at += 1;
    }
    false
}

/// The value of a digit, in any radix up to sixteen; nothing for other characters.
pub open spec fn digit_value(c: char) -> Option<int> {
    let n = c as u32;
    if 0x30 <= n <= 0x39 {
        Some(n - 0x30)
    } else if 0x61 <= n <= 0x66 {
        Some(n - 0x61 + 10)
    } else if 0x41 <= n <= 0x46 {
        Some(n - 0x41 + 10)
    } else {
        None
    }
}

/// `s` is not empty and consists of digits of the radix.
pub open spec fn is_number(s: Seq<char>, radix: int) -> bool {
    s.len() > 0 && all_digits(s, radix)
}

/// `s` consists of digits of the radix.
pub open spec fn all_digits(s: Seq<char>, radix: int) -> bool {
    forall|i: int|
        0 <= i < s.len() ==> (#[trigger] digit_value(s[i])) is Some && digit_value(s[i])->0 < radix
}

/// The number that a string of digits stands for.
pub open spec fn number_value(s: Seq<char>, radix: int) -> int
    decreases s.len(),
{
    if s.len() == 0 {
        0
    } else {
        number_value(s.drop_last(), radix) * radix + digit_value(s.last())->0
    }
}

/// `s` without a leading plus sign.
pub open spec fn strip_plus(s: Seq<char>) -> Seq<char> {
    if s.len() > 0 && s[0] == '+' {
        s.skip(1)
    } else {
        s
    }
}

/// The unsigned number written in `s`, if it is one and no larger than `max`. A plus sign may
/// precede the digits.
pub open spec fn parsed_unsigned(s: Seq<char>, radix: int, max: int) -> Option<int> {
    let digits = strip_plus(s);
    if is_number(digits, radix) && number_value(digits, radix) <= max {
        Some(number_value(digits, radix))
    } else {
        None
    }
}

/// The signed decimal number written in `s`, if it is one and lies between `min` and `max`. A
/// sign may precede the digits.
pub open spec fn parsed_signed(s: Seq<char>, min: int, max: int) -> Option<int> {
    if s.len() > 0 && s[0] == '-' {
        let digits = s.skip(1);
        if is_number(digits, 10) && -number_value(digits, 10) >= min {
            Some(-number_value(digits, 10))
        } else {
            None
        }
    } else {
        parsed_unsigned(s, 10, max)
    }
}

fn digit_of(c: char) -> (result: Option<u64>)
    ensures
        match result {
            Some(value) => digit_value(c) == Some(value as int) && value < 16,
            None => digit_value(c) is None,
        },
{
    let n: u32 = c as u32;
    if 0x30 <= n && n <= 0x39 {
        Some((n - 0x30) as u64)
    } else if 0x61 <= n && n <= 0x66 {
        Some((n - 0x61 + 10) as u64)
    } else if 0x41 <= n && n <= 0x46 {
        Some((n - 0x41 + 10) as u64)
    } else {
        None
    }
}

proof fn lemma_prefix_value_bound(s: Seq<char>, radix: int, at: int)
    requires
        all_digits(s, radix),
        radix >= 1,
        0 <= at <= s.len(),
    ensures
        0 <= number_value(s.take(at), radix) <= number_value(s, radix),
    decreases s.len(),
{
    if s.len() == 0 {
        assert(s.take(at) =~= s);
    } else {
        let init = s.drop_last();
        assert forall|i: int| 0 <= i < init.len() implies (#[trigger] digit_value(init[i])) is Some
            && digit_value(init[i])->0 < radix by {
            assert(init[i] == s[i]);
            assert(digit_value(s[i]) is Some);
        }
        assert(digit_value(s[s.len() - 1]) is Some);
        if at == s.len() {
            assert(s.take(at) =~= s);
            lemma_prefix_value_bound(init, radix, init.len() as int);
            assert(init.take(init.len() as int) =~= init);
            assert(number_value(init, radix) * radix >= 0) by (nonlinear_arith)
                requires
                    number_value(init, radix) >= 0,
                    radix >= 1,
            ;
        } else {
            lemma_prefix_value_bound(init, radix, at);
            assert(init.take(at) =~= s.take(at));
            assert(number_value(init, radix) * radix >= number_value(init, radix))
                by (nonlinear_arith)
                requires
                    number_value(init, radix) >= 0,
                    radix >= 1,
            ;
        }
    }
}

/// Reads the digits from position `from` on.
fn read_digits(chars: &Vec<char>, from: usize, radix: u64, max: u64) -> (result: Option<u64>)
    requires
        from <= chars.len(),
        radix == 10 || radix == 16,
    ensures
        ({
            let digits = chars@.skip(from as int);
            if is_number(digits, radix as int) && number_value(digits, radix as int) <= max {
                result == Some(number_value(digits, radix as int) as u64)
            } else {
                result is None
            }
        }),
{
    let ghost digits = chars@.skip(from as int);
    if from == chars.len() {
        return None;
    }
    let mut value: u64 = 0;
    let mut at: usize = from;
    while at < chars.len()
        invariant
            from <= at <= chars.len(),
            radix == 10 || radix == 16,
            digits == chars@.skip(from as int),
            all_digits(digits.take(at - from), radix as int),
            value == number_value(digits.take(at - from), radix as int),
            value <= max,
        decreases chars.len() - at,
    {
        let ghost before = digits.take(at - from);
        let ghost after = digits.take(at + 1 - from);
        assert(after.drop_last() =~= before);
        assert(after.last() == chars@[at as int]);
        assert(digits[at - from] == chars@[at as int]);
        let digit: u64 = match digit_of(chars[at]) {
            Some(digit) if digit < radix => digit,
            _ => {
                assert(!all_digits(digits, radix as int));
                return None;
            },
        };
        assert(0 <= value * radix <= 0xffff_ffff_ffff_ffff * 16) by (nonlinear_arith)
            requires
                0 <= value <= 0xffff_ffff_ffff_ffff,
                0 <= radix <= 16,
        ;
        let next: u128 = value as u128 * radix as u128 + digit as u128;
        proof {
            assert(all_digits(after, radix as int)) by {
                assert forall|i: int| 0 <= i < after.len() implies (#[trigger] digit_value(
                    after[i],
                )) is Some && digit_value(after[i])->0 < radix by {
                    if i < before.len() {
                        assert(after[i] == before[i]);
                        assert(digit_value(before[i]) is Some);
                    }
                }
            }
            assert(number_value(after, radix as int) == next);
        }
        if next > max as u128 {
            proof {
                if all_digits(digits, radix as int) {
                    lemma_prefix_value_bound(digits, radix as int, at + 1 - from);
                }
            }
            return None;
        }
        value = next as u64;
        at += 1;
    }
    assert(digits.take(digits.len() as int) =~= digits);
    Some(value)
}

/// Reads an unsigned number in radix ten or sixteen that is no larger than `max`.
pub fn parse_unsigned(s: &str, radix: u64, max: u64) -> (result: Option<u64>)
    requires
        radix == 10 || radix == 16,
    ensures
        match result {
            Some(value) => parsed_unsigned(s@, radix as int, max as int) == Some(value as int),
            None => parsed_unsigned(s@, radix as int, max as int) is None,
        },
{
    let chars: Vec<char> = chars_of(s);
    proof {
        assert(chars@.skip(0) =~= chars@);
        let digits = strip_plus(s@);
        if is_number(digits, radix as int) {
            lemma_prefix_value_bound(digits, radix as int, 0);
        }
    }
    if chars.len() > 0 && chars[0] == '+' {
        read_digits(&chars, 1, radix, max)
    } else {
        read_digits(&chars, 0, radix, max)
    }
}

/// Reads a 32-bit unsigned decimal number.
pub fn parse_u32(s: &str) -> (result: Option<u32>)
    ensures
        match result {
            Some(value) => parsed_unsigned(s@, 10, u32::MAX as int) == Some(value as int),
            None => parsed_unsigned(s@, 10, u32::MAX as int) is None,
        },
{
    match parse_unsigned(s, 10, u32::MAX as u64) {
        Some(value) => Some(value as u32),
        None => None,
    }
}

/// Reads a 32-bit signed decimal number.
pub fn parse_i32(s: &str) -> (result: Option<i32>)
    ensures
        match result {
            Some(value) => parsed_signed(s@, i32::MIN as int, i32::MAX as int) == Some(
                value as int,
            ),
            None => parsed_signed(s@, i32::MIN as int, i32::MAX as int) is None,
        },
{
    let chars: Vec<char> = chars_of(s);
    if chars.len() > 0 && chars[0] == '-' {
        proof {
            let digits = s@.skip(1);
            if is_number(digits, 10) {
                lemma_prefix_value_bound(digits, 10, 0);
            }
        }
        match read_digits(&chars, 1, 10, 0x8000_0000) {
            Some(value) => Some((-(value as i64)) as i32),
            None => None,
        }
    } else {
        match parse_unsigned(s, 10, i32::MAX as u64) {
            Some(value) => Some(value as i32),
            None => None,
        }
    }
}

/// The digit with the given value.
pub open spec fn digit_char(value: int) -> char {
    if value < 10 {
        (0x30 + value) as char
    } else {
        (0x61 + value - 10) as char
    }
}

/// A number written in a radix, without leading zeros.
pub open spec fn written(n: nat, radix: nat) -> Seq<char>
    decreases n,
{
    if n < radix || radix < 2 {
        seq![digit_char(n as int)]
    } else {
        proof {
            assert(n / radix < n) by (nonlinear_arith)
                requires
                    n >= radix,
                    radix >= 2,
            ;
        }
        written(n / radix, radix).push(digit_char((n % radix) as int))
    }
}

fn digit_text(value: u64) -> (result: &'static str)
    requires
        value < 16,
    ensures
        result@ == seq![digit_char(value as int)],
{
    proof {
            reveal_strlit("0");
            reveal_strlit("1");
            reveal_strlit("2");
            reveal_strlit("3");
            reveal_strlit("4");
            reveal_strlit("5");
            reveal_strlit("6");
            reveal_strlit("7");
            reveal_strlit("8");
            reveal_strlit("9");
            reveal_strlit("a");
            reveal_strlit("b");
            reveal_strlit("c");
            reveal_strlit("d");
            reveal_strlit("e");
            reveal_strlit("f");
    }
    match value {
        0 => "0",
        1 => "1",
        2 => "2",
        3 => "3",
        4 => "4",
        5 => "5",
        6 => "6",
        7 => "7",
        8 => "8",
        9 => "9",
        10 => "a",
        11 => "b",
        12 => "c",
        13 => "d",
        14 => "e",
        _ => "f",
    }
}

/// Writes a number in radix ten or sixteen.
pub fn write_number(n: u64, radix: u64) -> (result: String)
    requires
        radix == 10 || radix == 16,
    ensures
        result@ == written(n as nat, radix as nat),
    decreases n,
{
    if n < radix {
        digit_text(n).to_owned()
    } else {
        let mut result: String = write_number(n / radix, radix);
        let ghost head = result@;
        result.append(digit_text(n % radix));
        assert(result@ =~= head.push(digit_char((n % radix) as int)));
        result
    }
}

proof fn lemma_digit_round_trip(value: int)
    requires
        0 <= value < 16,
    ensures
        digit_value(digit_char(value)) == Some(value),
{
}

/// Reading what was written gives the number back.
pub proof fn written_numbers_read_back(n: nat, radix: nat)
    requires
        radix == 10 || radix == 16,
    ensures
        is_number(written(n, radix), radix as int),
        number_value(written(n, radix), radix as int) == n,
        parsed_unsigned(written(n, radix), radix as int, n as int) == Some(n as int),
    decreases n,
{
    let text = written(n, radix);
    if n < radix {
        lemma_digit_round_trip(n as int);
        assert(text.drop_last() =~= Seq::empty());
        assert(number_value(text.drop_last(), radix as int) == 0);
        assert(number_value(text, radix as int) == 0 * radix + n);
    } else {
        let head = written(n / radix, radix);
        let last = (n % radix) as int;
        written_numbers_read_back(n / radix, radix);
        lemma_digit_round_trip(last);
        assert(text.drop_last() =~= head);
        assert forall|i: int| 0 <= i < text.len() implies (#[trigger] digit_value(text[i])) is Some
            && digit_value(text[i])->0 < radix by {
            if i < head.len() {
                assert(text[i] == head[i]);
                assert(digit_value(head[i]) is Some);
            }
        }
        assert((n / radix) * radix + n % radix == n) by (nonlinear_arith)
            requires
                radix > 0,
        ;
    }
    assert(digit_value(text[0]) is Some);
    assert(strip_plus(text) == text);
}

/// What an optional string holds.
pub open spec fn optional_view(s: Option<String>) -> Option<Seq<char>> {
    match s {
        Some(s) => Some(s@),
        None => None,
    }
}

/// The text without surrounding white space; nothing if that leaves nothing.
pub open spec fn non_blank(s: Option<Seq<char>>) -> Option<Seq<char>> {
    match s {
        Some(s) => if trim(s).len() == 0 {
            None
        } else {
            Some(trim(s))
        },
        None => None,
    }
}

/// Drops surrounding white space, and the text itself if that leaves nothing.
pub fn non_blank_of(s: &Option<String>) -> (result: Option<String>)
    ensures
        optional_view(result) == non_blank(optional_view(*s)),
{
    match s {
        Some(s) => {
            let trimmed: String = trimmed(s.as_str());
            if trimmed.as_str().is_empty() {
                None
            } else {
                Some(trimmed)
            }
        },
        None => None,
    }
}

/// Collects two pieces of text.
pub fn owned_pair(first: &str, second: &str) -> (result: Vec<String>)
    ensures
        views(result@) == seq![first@, second@],
{
    let mut pieces: Vec<String> = Vec::new();
    pieces.push(first.to_owned());
    pieces.push(second.to_owned());
    assert(views(pieces@) =~= seq![first@, second@]);
    pieces
}

/// Adds a piece of text to others.
pub fn with_piece(pieces: Vec<String>, piece: &str) -> (result: Vec<String>)
    ensures
        views(result@) == views(pieces@).push(piece@),
{
    let mut result: Vec<String> = pieces;
    let ghost before = result@;
    result.push(piece.to_owned());
    assert(views(result@) =~= views(before).push(piece@));
    result
}

/// `s` without leading occurrences of `c`.
pub open spec fn strip_start(s: Seq<char>, c: char) -> Seq<char>
    decreases s.len(),
{
    if s.len() > 0 && s[0] == c {
        strip_start(s.skip(1), c)
    } else {
        s
    }
}

/// `s` without trailing occurrences of `c`.
pub open spec fn strip_end(s: Seq<char>, c: char) -> Seq<char>
    decreases s.len(),
{
    if s.len() > 0 && s.last() == c {
        strip_end(s.drop_last(), c)
    } else {
        s
    }
}

/// Removes leading and trailing occurrences of a character.
pub fn stripped(s: &str, c: char) -> (result: String)
    ensures
        result@ == strip_end(strip_start(s@, c), c),
{
    let chars: Vec<char> = chars_of(s);
    let mut from: usize = 0;
    assert(s@.skip(0) =~= s@);
    while from < chars.len() && chars[from] == c
        invariant
            from <= chars.len(),
            chars@ == s@,
            strip_start(s@, c) == strip_start(s@.skip(from as int), c),
        decreases chars.len() - from,
    {
        assert(s@.skip(from as int).skip(1) =~= s@.skip(from + 1));
        from += 1;
    }
    let ghost rest = s@.skip(from as int);
    assert(strip_start(s@, c) == rest);
    let mut to: usize = chars.len();
    assert(s@.subrange(from as int, to as int) =~= rest);
    while to > from && chars[to - 1] == c
        invariant
            from <= to <= chars.len(),
            chars@ == s@,
            strip_end(rest, c) == strip_end(s@.subrange(from as int, to as int), c),
        decreases to,
    {
        assert(s@.subrange(from as int, to as int).drop_last() =~= s@.subrange(
            from as int,
            to - 1,
        ));
        to -= 1;
    }
    s.substring_char(from, to).to_owned()
}

/// What follows `prefix` in `s`, if `s` begins with it.
pub open spec fn after_prefix(s: Seq<char>, prefix: Seq<char>) -> Option<Seq<char>> {
    if prefix.is_prefix_of(s) {
        Some(s.skip(prefix.len() as int))
    } else {
        None
    }
}

/// Removes a prefix, if it is there.
pub fn without_prefix(s: &str, prefix: &str) -> (result: Option<String>)
    ensures
        optional_view(result) == after_prefix(s@, prefix@),
{
    let chars: Vec<char> = chars_of(s);
    let expected: Vec<char> = chars_of(prefix);
    if chars.len() < expected.len() {
        return None;
    }
    let mut at: usize = 0;
    while at < expected.len()
        invariant
            at <= expected.len() <= chars.len(),
            chars@ == s@,
            expected@ == prefix@,
            forall|i: int| 0 <= i < at ==> #[trigger] s@[i] == prefix@[i],
        decreases expected.len() - at,
    {
        if chars[at] != expected[at] {
            assert(s@.take(prefix@.len() as int)[at as int] != prefix@[at as int]);
            return None;
        }
        at += 1;
    }
    assert(s@.subrange(0, prefix@.len() as int) =~= prefix@);
    let rest: String = s.substring_char(expected.len(), chars.len()).to_owned();
    assert(rest@ =~= s@.skip(prefix@.len() as int));
    Some(rest)
}

/// What a list of borrowed texts holds.
pub open spec fn str_views(strings: Seq<&str>) -> Seq<Seq<char>> {
    Seq::new(strings.len(), |i: int| strings[i]@)
}

/// Copies borrowed texts.
pub fn owned_all(pieces: &[&str]) -> (result: Vec<String>)
    ensures
        views(result@) == str_views(pieces@),
{
    let mut result: Vec<String> = Vec::new();
    let mut at: usize = 0;
    while at < pieces.len()
        invariant
            at <= pieces.len(),
            result@.len() == at,
            forall|i: int| 0 <= i < at ==> (#[trigger] result@[i])@ == pieces@[i]@,
        decreases pieces.len() - at,
    {
        result.push(pieces[at].to_owned());
        at += 1;
    }
    assert(views(result@) =~= str_views(pieces@));
    result
}

/// Trimming leaves a text alone that neither begins nor ends with white space.
pub proof fn lemma_trim_unchanged(s: Seq<char>)
    requires
        s.len() > 0 ==> !is_space(s[0]) && !is_space(s.last()),
    ensures
        trim(s) == s,
{
}

/// The parts of `s` between occurrences of `c`.
pub open spec fn split(s: Seq<char>, c: char) -> Seq<Seq<char>>
    decreases s.len(),
    via split_decreases
{
    let end = index_of_char(s, c) as int;
    if end == s.len() {
        seq![s]
    } else {
        seq![s.take(end)] + split(s.skip(end + 1), c)
    }
}

#[via_fn]
proof fn split_decreases(s: Seq<char>, c: char) {
    lemma_index_of_char(s, c);
}

/// A text that is put together begins with the first piece.
pub proof fn lemma_join_first(pieces: Seq<Seq<char>>, separator: Seq<char>)
    requires
        pieces.len() > 1,
    ensures
        join(pieces, separator) == pieces[0] + separator + join(pieces.skip(1), separator),
    decreases pieces.len(),
{
    let init = pieces.drop_last();
    let rest = pieces.skip(1);
    if pieces.len() == 2 {
        assert(join(init, separator) == pieces[0]);
        assert(join(rest, separator) == pieces[1]);
    } else {
        lemma_join_first(init, separator);
        assert(init.skip(1) =~= rest.drop_last());
        assert(rest.last() == pieces.last());
        assert(join(pieces, separator) =~= pieces[0] + separator + (join(
            rest.drop_last(),
            separator,
        ) + separator + pieces.last()));
    }
}

/// A text that is put together of pieces that are not empty begins and ends as they do.
pub proof fn lemma_join_ends(pieces: Seq<Seq<char>>, separator: Seq<char>)
    requires
        pieces.len() > 0,
        forall|i: int| 0 <= i < pieces.len() ==> (#[trigger] pieces[i]).len() > 0,
    ensures
        join(pieces, separator).len() > 0,
        join(pieces, separator)[0] == pieces[0][0],
        join(pieces, separator).last() == pieces.last().last(),
    decreases pieces.len(),
{
    if pieces.len() > 1 {
        let init = pieces.drop_last();
        assert forall|i: int| 0 <= i < init.len() implies (#[trigger] init[i]).len() > 0 by {
            assert(init[i] == pieces[i]);
        }
        lemma_join_ends(init, separator);
        assert(pieces.last().len() > 0);
    }
}

/// A character that is in no piece and not in the separator is not in the text that is put
/// together of them.
pub proof fn lemma_join_avoids(pieces: Seq<Seq<char>>, separator: Seq<char>, c: char)
    requires
        !separator.contains(c),
        forall|i: int| 0 <= i < pieces.len() ==> !(#[trigger] pieces[i]).contains(c),
    ensures
        !join(pieces, separator).contains(c),
    decreases pieces.len(),
{
    if pieces.len() > 1 {
        let init = pieces.drop_last();
        assert forall|i: int| 0 <= i < init.len() implies !(#[trigger] init[i]).contains(c) by {
            assert(init[i] == pieces[i]);
        }
        lemma_join_avoids(init, separator, c);
        let before = join(init, separator);
        let all = join(pieces, separator);
        assert(!pieces.last().contains(c));
        assert forall|i: int| 0 <= i < all.len() implies #[trigger] all[i] != c by {
            if i < before.len() {
                assert(all[i] == before[i]);
            } else if i < before.len() + separator.len() {
                assert(all[i] == separator[i - before.len()]);
            } else {
                assert(all[i] == pieces.last()[i - before.len() - separator.len()]);
            }
        }
    }
}

/// Splitting undoes joining, as long as no piece contains the separator.
pub proof fn joined_pieces_split_back(pieces: Seq<Seq<char>>, c: char)
    requires
        pieces.len() > 0,
        forall|i: int| 0 <= i < pieces.len() ==> !(#[trigger] pieces[i]).contains(c),
    ensures
        split(join(pieces, seq![c]), c) == pieces,
    decreases pieces.len(),
{
    let all = join(pieces, seq![c]);
    let first = pieces[0];
    if pieces.len() == 1 {
        assert forall|i: int| 0 <= i < all.len() implies #[trigger] all[i] != c by {
            assert(first.contains(first[i]));
        }
        lemma_index_of_char_unique(all, c, all.len() as int);
        assert(pieces =~= seq![all]);
    } else {
        let rest = pieces.skip(1);
        lemma_join_first(pieces, seq![c]);
        assert forall|i: int| 0 <= i < rest.len() implies !(#[trigger] rest[i]).contains(c) by {
            assert(rest[i] == pieces[i + 1]);
        }
        joined_pieces_split_back(rest, c);
        assert forall|i: int| 0 <= i < first.len() implies #[trigger] all[i] != c by {
            assert(all[i] == first[i]);
            assert(first.contains(first[i]));
        }
        lemma_index_of_char_unique(all, c, first.len() as int);
        assert(all.take(first.len() as int) =~= first);
        assert(all.skip(first.len() as int + 1) =~= join(rest, seq![c]));
        assert(seq![first] + rest =~= pieces);
    }
}

/// White space is the space, the control characters from tab to carriage return, the next-line
/// character, the fixed spaces, and the line and paragraph separators. Digits, letters, signs and
/// whatever else is printed are not.
pub proof fn white_space_is_what_is_not_seen(c: char, result: bool)
    requires
        call_ensures(is_space_char, (c,), result),
    ensures
        c == ' ' || c == '\t' || c == '\n' || c == '\r' ==> result,
        c == '\u{85}' || c == '\u{a0}' || c == '\u{1680}' || c == '\u{2028}' || c == '\u{2029}' || c
            == '\u{202f}' || c == '\u{205f}' || c == '\u{3000}' ==> result,
        '\u{2000}' <= c <= '\u{200a}' ==> result,
        c == '\u{b}' || c == '\u{c}' ==> result,
        '!' <= c <= '~' ==> !result,
        c < '\t' ==> !result,
        '\u{e}' <= c < ' ' ==> !result,
        '\u{7f}' <= c <= '\u{84}' || '\u{86}' <= c <= '\u{9f}' || '\u{a1}' <= c <= '\u{167f}'
            ==> !result,
        '\u{1681}' <= c <= '\u{1fff}' || '\u{200b}' <= c <= '\u{2027}' || '\u{202a}' <= c
            <= '\u{202e}' ==> !result,
        '\u{2030}' <= c <= '\u{205e}' || '\u{2060}' <= c <= '\u{2fff}' || c > '\u{3000}' ==> !result,
        result == is_space(c),
{
}

proof fn lemma_trim_start_cuts(s: Seq<char>) -> (from: int)
    ensures
        0 <= from <= s.len(),
        trim_start(s) == s.skip(from),
        forall|i: int| 0 <= i < from ==> is_space(#[trigger] s[i]),
        from < s.len() ==> !is_space(s[from]),
    decreases s.len(),
{
    if s.len() > 0 && is_space(s[0]) {
        let rest = s.skip(1);
        let from = lemma_trim_start_cuts(rest);
        assert(rest.skip(from) =~= s.skip(from + 1));
        assert forall|i: int| 0 <= i < from + 1 implies is_space(#[trigger] s[i]) by {
            if i > 0 {
                assert(rest[i - 1] == s[i]);
            }
        }
        if from < rest.len() {
            assert(rest[from] == s[from + 1]);
        }
        from + 1
    } else {
        assert(s.skip(0) =~= s);
        0
    }
}

proof fn lemma_trim_end_cuts(s: Seq<char>) -> (to: int)
    ensures
        0 <= to <= s.len(),
        trim_end(s) == s.take(to),
        forall|i: int| to <= i < s.len() ==> is_space(#[trigger] s[i]),
        to > 0 ==> !is_space(s[to - 1]),
    decreases s.len(),
{
    if s.len() > 0 && is_space(s.last()) {
        let rest = s.drop_last();
        let to = lemma_trim_end_cuts(rest);
        assert(rest.take(to) =~= s.take(to));
        assert forall|i: int| to <= i < s.len() implies is_space(#[trigger] s[i]) by {
            if i < rest.len() {
                assert(rest[i] == s[i]);
            }
        }
        to
    } else {
        assert(s.take(s.len() as int) =~= s);
        s.len() as int
    }
}

/// Trimming cuts white space off both ends of a text and leaves the rest as it is: nothing but
/// white space is cut off, and none is left at the ends. Of a text that is all white space nothing
/// is left.
pub proof fn trimming_cuts_white_space_off_the_ends(s: &str, result: String) -> (cut: (int, int))
    requires
        call_ensures(trimmed, (s,), result),
    ensures
        0 <= cut.0 <= cut.1 <= s@.len(),
        result@ == s@.subrange(cut.0, cut.1),
        forall|i: int| 0 <= i < cut.0 || cut.1 <= i < s@.len() ==> is_space(#[trigger] s@[i]),
        result@.len() > 0 ==> !is_space(result@[0]) && !is_space(result@.last()),
        result@ == trim(s@),
{
    let from = lemma_trim_start_cuts(s@);
    let rest = s@.skip(from);
    let to = lemma_trim_end_cuts(rest);
    assert(rest.take(to) =~= s@.subrange(from, from + to));
    assert forall|i: int| from + to <= i < s@.len() implies is_space(#[trigger] s@[i]) by {
        assert(rest[i - from] == s@[i]);
    }
    if to > 0 {
        assert(result@[0] == s@[from]);
        assert(result@.last() == rest[to - 1]);
    }
    (from, from + to)
}

/// Optional text without its surrounding white space is kept unless that leaves nothing: what is
/// dropped was nothing, or white space only.
pub proof fn blank_text_is_dropped(s: Option<String>, result: Option<String>)
    requires
        call_ensures(non_blank_of, (&s,), result),
    ensures
        result is Some <==> s is Some && exists|i: int|
            0 <= i < s->0@.len() && !is_space(#[trigger] s->0@[i]),
        result matches Some(kept) ==> kept@ == trim(s->0@),
        optional_view(result) == non_blank(optional_view(s)),
{
    if let Some(s) = s {
        let from = lemma_trim_start_cuts(s@);
        let rest = s@.skip(from);
        let to = lemma_trim_end_cuts(rest);
        if from < s@.len() {
            assert(rest[0] == s@[from]);
            if to == 0 {
                assert(is_space(rest[0]));
            }
        }
    }
}

proof fn lemma_strip_cuts(s: Seq<char>, c: char) -> (cut: (int, int))
    ensures
        0 <= cut.0 <= cut.1 <= s.len(),
        strip_end(strip_start(s, c), c) == s.subrange(cut.0, cut.1),
        forall|i: int| 0 <= i < cut.0 || cut.1 <= i < s.len() ==> #[trigger] s[i] == c,
        cut.0 < cut.1 ==> s[cut.0] != c && s[cut.1 - 1] != c,
    decreases s.len(),
{
    if s.len() > 0 && s[0] == c {
        let rest = s.skip(1);
        let cut = lemma_strip_cuts(rest, c);
        assert(rest.subrange(cut.0, cut.1) =~= s.subrange(cut.0 + 1, cut.1 + 1));
        assert forall|i: int|
            0 <= i < cut.0 + 1 || cut.1 + 1 <= i < s.len() implies #[trigger] s[i] == c by {
            if i > 0 {
                assert(rest[i - 1] == s[i]);
            }
        }
        (cut.0 + 1, cut.1 + 1)
    } else {
        let to = lemma_strip_end_cuts(s, c);
        assert(s.take(to) =~= s.subrange(0, to));
        (0, to)
    }
}

proof fn lemma_strip_end_cuts(s: Seq<char>, c: char) -> (to: int)
    ensures
        0 <= to <= s.len(),
        strip_end(s, c) == s.take(to),
        forall|i: int| to <= i < s.len() ==> #[trigger] s[i] == c,
        to > 0 ==> s[to - 1] != c,
    decreases s.len(),
{
    if s.len() > 0 && s.last() == c {
        let rest = s.drop_last();
        let to = lemma_strip_end_cuts(rest, c);
        assert(rest.take(to) =~= s.take(to));
        assert forall|i: int| to <= i < s.len() implies #[trigger] s[i] == c by {
            if i < rest.len() {
                assert(rest[i] == s[i]);
            }
        }
        to
    } else {
        assert(s.take(s.len() as int) =~= s);
        s.len() as int
    }
}

/// Stripping cuts a character off both ends of a text, as often as it stands there, and leaves the
/// rest as it is.
pub proof fn stripping_cuts_a_character_off_the_ends(s: &str, c: char, result: String) -> (cut: (
    int,
    int,
))
    requires
        call_ensures(stripped, (s, c), result),
    ensures
        0 <= cut.0 <= cut.1 <= s@.len(),
        result@ == s@.subrange(cut.0, cut.1),
        forall|i: int| 0 <= i < cut.0 || cut.1 <= i < s@.len() ==> #[trigger] s@[i] == c,
        result@.len() > 0 ==> result@[0] != c && result@.last() != c,
{
    lemma_strip_cuts(s@, c)
}

/// A prefix is removed exactly if it is there; it and what is left make up the text.
pub proof fn prefix_and_rest_make_up_the_text(s: &str, prefix: &str, result: Option<String>)
    requires
        call_ensures(without_prefix, (s, prefix), result),
    ensures
        result matches Some(rest) ==> s@ == prefix@ + rest@,
        result is None ==> forall|rest: Seq<char>| s@ != #[trigger] (prefix@ + rest),
{
    if prefix@.is_prefix_of(s@) {
        assert(s@ =~= prefix@ + s@.skip(prefix@.len() as int));
    } else {
        assert forall|rest: Seq<char>| s@ != #[trigger] (prefix@ + rest) by {
            assert((prefix@ + rest).take(prefix@.len() as int) =~= prefix@);
            assert(prefix@.is_prefix_of(prefix@ + rest));
        }
    }
}

proof fn lemma_word_len_unique(s: Seq<char>, at: int)
    requires
        0 <= at <= s.len(),
        forall|i: int| 0 <= i < at ==> !is_space(#[trigger] s[i]),
        at < s.len() ==> is_space(s[at]),
    ensures
        word_len(s) == at,
{
    lemma_word_len(s);
    if word_len(s) < at {
        assert(!is_space(s[word_len(s) as int]));
    } else if at < word_len(s) {
        assert(!is_space(s[at]));
    }
}

/// White space ends a word and stands between words, and nothing else does: a word followed by
/// white space comes first among the words, and white space alone is no word.
pub proof fn words_stand_between_white_space(
    word: Seq<char>,
    space: char,
    rest: Seq<char>,
)
    requires
        word.len() > 0,
        forall|i: int| 0 <= i < word.len() ==> !is_space(#[trigger] word[i]),
        is_space(space),
    ensures
        words(Seq::empty()) == Seq::<Seq<char>>::empty(),
        words(seq![space] + rest) == words(rest),
        words(word) == seq![word],
        words(word + seq![space] + rest) == seq![word] + words(rest),
{
    reveal_with_fuel(words, 2);
    reveal_with_fuel(trim_start, 2);
    let spaced = seq![space] + rest;
    assert(spaced.skip(1) =~= rest);
    assert(trim_start(spaced) == trim_start(rest));
    assert(words(spaced) == words(rest));
    lemma_word_len_unique(word, word.len() as int);
    assert(trim_start(word) == word);
    assert(word.take(word.len() as int) =~= word);
    assert(word.skip(word.len() as int) =~= Seq::empty());
    assert(words(word) =~= seq![word]);
    let all = word + seq![space] + rest;
    assert(all[0] == word[0]);
    assert(trim_start(all) == all);
    assert forall|i: int| 0 <= i < word.len() implies !is_space(#[trigger] all[i]) by {
        assert(all[i] == word[i]);
    }
    lemma_word_len_unique(all, word.len() as int);
    assert(all.take(word.len() as int) =~= word);
    assert(all.skip(word.len() as int) =~= spaced);
}

/// A line feed ends a line, and so does a carriage return with a line feed; neither belongs to
/// the line. What follows the last of them is a line unless it is empty.
pub proof fn lines_end_at_line_feeds(line: Seq<char>, rest: Seq<char>)
    requires
        !line.contains('\n'),
    ensures
        lines(Seq::empty()) == Seq::<Seq<char>>::empty(),
        line.len() > 0 ==> lines(line) == seq![line],
        line.len() > 0 && line.last() == '\r' || lines(line + seq!['\n'] + rest) == seq![line] + lines(
            rest,
        ),
        lines(line + seq!['\r', '\n'] + rest) == seq![line] + lines(rest),
{
    reveal_with_fuel(lines, 2);
    assert forall|i: int| 0 <= i < line.len() implies #[trigger] line[i] != '\n' by {}
    if line.len() > 0 {
        lemma_index_of_char_unique(line, '\n', line.len() as int);
    }
    let plain = line + seq!['\n'] + rest;
    let end = line.len() as int;
    assert forall|i: int| 0 <= i < end implies #[trigger] plain[i] != '\n' by {
        assert(plain[i] == line[i]);
    }
    lemma_index_of_char_unique(plain, '\n', end);
    assert(plain.take(end) =~= line);
    assert(plain.skip(end + 1) =~= rest);
    let returned = line + seq!['\r', '\n'] + rest;
    assert forall|i: int| 0 <= i < end + 1 implies #[trigger] returned[i] != '\n' by {
        if i < end {
            assert(returned[i] == line[i]);
        }
    }
    lemma_index_of_char_unique(returned, '\n', end + 1);
    assert(returned.take(end + 1) =~= line.push('\r'));
    assert(line.push('\r').drop_last() =~= line);
    assert(returned.skip(end + 2) =~= rest);
}

/// Digits have the values that they are written for: ten decimal ones, and six letters, small or
/// large, for the values from ten to fifteen. No other character has a value.
pub proof fn digits_have_their_values(c: char)
    ensures
        digit_value('0') == Some(0int),
        digit_value('9') == Some(9int),
        digit_value('a') == Some(10int) && digit_value('A') == Some(10int),
        digit_value('f') == Some(15int) && digit_value('F') == Some(15int),
        '0' <= c <= '9' ==> digit_value(c) == Some(c as u32 - '0' as u32),
        'a' <= c <= 'f' ==> digit_value(c) == Some(c as u32 - 'a' as u32 + 10),
        'A' <= c <= 'F' ==> digit_value(c) == Some(c as u32 - 'A' as u32 + 10),
        digit_value(c) is Some ==> '0' <= c <= '9' || 'a' <= c <= 'f' || 'A' <= c <= 'F',
{
}

/// A number is read as it is written, with or without a plus sign, as long as it is not too large;
/// with a minus sign it is read as its negative. What is empty or holds anything else is no number.
pub proof fn numbers_are_read_with_their_signs(n: nat, min: int, max: int, s: Seq<char>, at: int)
    requires
        min <= 0 <= max,
        0 < at < s.len(),
        digit_value(s[at]) is None,
    ensures
        parsed_unsigned(written(n, 10), 10, max) == if n <= max {
            Some(n as int)
        } else {
            None
        },
        parsed_unsigned(seq!['+'] + written(n, 10), 10, max) == parsed_unsigned(
            written(n, 10),
            10,
            max,
        ),
        parsed_signed(written(n, 10), min, max) == parsed_unsigned(written(n, 10), 10, max),
        parsed_signed(seq!['+'] + written(n, 10), min, max) == parsed_unsigned(
            written(n, 10),
            10,
            max,
        ),
        parsed_signed(seq!['-'] + written(n, 10), min, max) == if n <= -min {
            Some(-(n as int))
        } else {
            None
        },
        parsed_unsigned(seq!['-'] + written(n, 10), 10, max) is None,
        parsed_unsigned(Seq::empty(), 10, max) is None,
        parsed_signed(Seq::empty(), min, max) is None,
        parsed_unsigned(s, 10, max) is None,
        parsed_unsigned(s, 16, max) is None,
        parsed_signed(s, min, max) is None,
{
    let digits = written(n, 10);
    written_numbers_read_back(n, 10);
    assert(digit_value(digits[0]) is Some);
    assert(strip_plus(digits) == digits);
    let plus = seq!['+'] + digits;
    let minus = seq!['-'] + digits;
    assert(plus.skip(1) =~= digits);
    assert(minus.skip(1) =~= digits);
    assert(digit_value(minus[0]) is None);
    assert(strip_plus(minus) == minus);
    assert(!is_number(minus, 10));
    let stripped = strip_plus(s);
    let rest = s.skip(1);
    assert(rest[at - 1] == s[at]);
    assert(stripped == s || stripped == rest);
    assert(digit_value(stripped[if stripped == s { at } else { at - 1 }]) is None);
    assert(!is_number(stripped, 10) && !is_number(stripped, 16));
    assert(!is_number(rest, 10));
}

/// Trimming leaves a text as it is exactly if it neither begins nor ends with white space.
pub proof fn trimming_leaves_trimmed_text_alone(s: Seq<char>)
    ensures
        trim(s) == s <==> s.len() == 0 || !is_space(s[0]) && !is_space(s.last()),
{
    let from = lemma_trim_start_cuts(s);
    let rest = s.skip(from);
    let to = lemma_trim_end_cuts(rest);
    if s.len() > 0 {
        if trim(s) == s {
            assert(from == 0 && to == s.len());
            assert(rest =~= s);
        } else if !is_space(s[0]) && !is_space(s.last()) {
            lemma_trim_unchanged(s);
        }
    }
}

/// Joined pieces stand in their order with the separator between them: one piece stands alone, and two
/// have it between them.
pub proof fn joined_pieces_stand_in_order(pieces: Vec<String>, separator: &str, result: String)
    requires
        call_ensures(joined, (&pieces, separator), result),
    ensures
        pieces@.len() == 0 ==> result@.len() == 0,
        pieces@.len() == 1 ==> result@ == pieces@[0]@,
        pieces@.len() == 2 ==> result@ == pieces@[0]@ + separator@ + pieces@[1]@,
        (separator@.len() == 1 && pieces@.len() > 0 && forall|i: int|
            0 <= i < pieces@.len() ==> !(#[trigger] pieces@[i])@.contains(separator@[0])) ==> split(
            result@,
            separator@[0],
        ) == views(pieces@),
{
    let all = views(pieces@);
    reveal_with_fuel(join, 3);
    if pieces@.len() == 2 {
        assert(all.drop_last()[0] == pieces@[0]@);
    }
    if separator@.len() == 1 && pieces@.len() > 0 && forall|i: int|
        0 <= i < pieces@.len() ==> !(#[trigger] pieces@[i])@.contains(separator@[0]) {
        assert(separator@ =~= seq![separator@[0]]);
        assert forall|i: int| 0 <= i < all.len() implies !(#[trigger] all[i]).contains(
            separator@[0],
        ) by {
            assert(!pieces@[i]@.contains(separator@[0]));
        }
        joined_pieces_split_back(all, separator@[0]);
    }
}

proof fn lemma_written_digits(n: nat, radix: nat)
    requires
        radix == 10 || radix == 16,
    ensures
        written(n, radix).len() > 0,
        written(n, radix)[0] == '0' ==> n == 0,
        n < radix ==> written(n, radix).len() == 1,
        forall|i: int|
            0 <= i < written(n, radix).len() ==> '0' <= #[trigger] written(n, radix)[i] <= '9'
                || radix == 16 && 'a' <= written(n, radix)[i] <= 'f',
    decreases n,
{
    if n >= radix {
        assert(0 < n / radix < n) by (nonlinear_arith)
            requires
                n >= radix,
                radix >= 2,
        ;
        lemma_written_digits(n / radix, radix);
        let before = written(n / radix, radix);
        assert(written(n, radix) == before.push(digit_char((n % radix) as int)));
        assert(written(n, radix)[0] == before[0]);
        assert forall|i: int| 0 <= i < written(n, radix).len() implies '0' <= #[trigger] written(
            n,
            radix,
        )[i] <= '9' || radix == 16 && 'a' <= written(n, radix)[i] <= 'f' by {
            if i < before.len() {
                assert(before[i] == written(n, radix)[i]);
            }
        }
    }
}

/// A number is written in small digits without leading zeros, and reads back as itself.
pub proof fn numbers_are_written_without_leading_zeros(
    n: u64,
    radix: u64,
    result: String,
    text: &str,
    read: Option<u64>,
)
    requires
        radix == 10 || radix == 16,
        call_ensures(write_number, (n, radix), result),
        text@ == result@,
        call_ensures(parse_unsigned, (text, radix, u64::MAX), read),
    ensures
        read == Some(n),
        result@.len() > 0,
        result@[0] == '0' ==> n == 0 && result@.len() == 1,
        forall|i: int|
            0 <= i < result@.len() ==> '0' <= #[trigger] result@[i] <= '9' || radix == 16 && 'a'
                <= result@[i] <= 'f',
{
    lemma_written_digits(n as nat, radix as nat);
    written_numbers_read_back(n as nat, radix as nat);
}

/// Numbers are read within their range: a text is read as a number of 32 bits exactly if it is one.
pub proof fn numbers_are_read_within_their_range(
    s: &str,
    unsigned: Option<u32>,
    signed: Option<i32>,
    wide: Option<u64>,
)
    requires
        call_ensures(parse_u32, (s,), unsigned),
        call_ensures(parse_i32, (s,), signed),
        call_ensures(parse_unsigned, (s, 10, u64::MAX), wide),
    ensures
        unsigned matches Some(value) ==> wide is Some && wide->0 == value,
        wide is Some && wide->0 <= 0xffff_ffff ==> unsigned is Some,
        wide is Some && wide->0 <= 0x7fff_ffff && s@.len() > 0 && s@[0] != '-' ==> signed is Some
            && signed->0 == wide->0,
        signed is Some && s@.len() > 0 && s@[0] != '-' ==> wide is Some && wide->0 == signed->0,
{
}

/// Lines and words are listed as they stand in the text; a text is found to hold what it holds, and two
/// texts to be the same if they are.
pub proof fn pieces_are_listed_as_they_stand(
    s: &str,
    other: &str,
    c: char,
    listed_lines: Vec<String>,
    listed_words: Vec<String>,
    chars: Vec<char>,
    same: bool,
    holds: bool,
    spaced: bool,
)
    requires
        call_ensures(lines_of, (s,), listed_lines),
        call_ensures(words_of, (s,), listed_words),
        call_ensures(chars_of, (s,), chars),
        call_ensures(same_text, (s, other), same),
        call_ensures(contains_char, (s, c), holds),
        call_ensures(contains_space, (s,), spaced),
    ensures
        views(listed_lines@) == lines(s@),
        views(listed_words@) == words(s@),
        chars@ == s@,
        same <==> s@ == other@,
        holds <==> exists|i: int| 0 <= i < s@.len() && #[trigger] s@[i] == c,
        spaced <==> exists|i: int| 0 <= i < s@.len() && is_space(#[trigger] s@[i]),
{
}

/// Owned texts hold what they were made from, in the same order.
pub proof fn owned_texts_hold_what_they_were_made_from(
    first: &str,
    second: &str,
    pair: Vec<String>,
    pieces: Vec<String>,
    longer: Vec<String>,
    many: &[&str],
    owned: Vec<String>,
    from: usize,
    separator: &str,
    tail: String,
    all: String,
)
    requires
        call_ensures(owned_pair, (first, second), pair),
        call_ensures(with_piece, (pieces, first), longer),
        call_ensures(owned_all, (many,), owned),
        from <= pieces@.len(),
        call_ensures(joined_from, (&pieces, from, separator), tail),
        call_ensures(joined, (&pieces, separator), all),
    ensures
        pair@.len() == 2 && pair@[0]@ == first@ && pair@[1]@ == second@,
        longer@.len() == pieces@.len() + 1 && longer@.last()@ == first@,
        forall|i: int| 0 <= i < pieces@.len() ==> (#[trigger] longer@[i])@ == pieces@[i]@,
        owned@.len() == many@.len(),
        forall|i: int| 0 <= i < many@.len() ==> (#[trigger] owned@[i])@ == many@[i]@,
        from == 0 ==> tail@ == all@,
        from == pieces@.len() ==> tail@.len() == 0,
        from + 1 == pieces@.len() ==> tail@ == pieces@.last()@,
{
    let pair_views = views(pair@);
    assert(pair_views.len() == 2);
    assert(pair@.len() == 2);
    assert(pair_views[0] == pair@[0]@ && pair_views[1] == pair@[1]@);
    let longer_views = views(longer@);
    assert(longer_views.len() == pieces@.len() + 1);
    assert(longer_views.last() == longer@.last()@);
    assert forall|i: int| 0 <= i < pieces@.len() implies (#[trigger] longer@[i])@
        == pieces@[i]@ by {
        assert(longer_views[i] == longer@[i]@ && views(pieces@)[i] == pieces@[i]@);
    }
    let owned_views = views(owned@);
    assert(owned_views.len() == many@.len());
    assert forall|i: int| 0 <= i < many@.len() implies (#[trigger] owned@[i])@ == many@[i]@ by {
        assert(owned_views[i] == owned@[i]@ && str_views(many@)[i] == many@[i]@);
    }
    assert(views(pieces@).skip(0) =~= views(pieces@));
}

} // verus!
