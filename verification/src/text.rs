//! Text primitives: character classes, trimming, searching, decimal rendering
//! and bounded previews, each stated over the sequence of characters of a string.

use vstd::prelude::*;
use vstd::string::*;
use vstd::utf8::*;

verus! {

/// Characters with the Unicode `White_Space` property.
pub open spec fn is_whitespace(c: char) -> bool {
    let u = c as u32;
    ||| 0x09 <= u <= 0x0d
    ||| u == 0x20
    ||| u == 0x85
    ||| u == 0xa0
    ||| u == 0x1680
    ||| 0x2000 <= u <= 0x200a
    ||| u == 0x2028
    ||| u == 0x2029
    ||| u == 0x202f
    ||| u == 0x205f
    ||| u == 0x3000
}

/// Characters of the Unicode general category `Cc`.
pub open spec fn is_control(c: char) -> bool {
    let u = c as u32;
    u <= 0x1f || 0x7f <= u <= 0x9f
}

/// Whether some character of `text` is a control character.
pub open spec fn has_control(text: Seq<char>) -> bool {
    exists|i: int| 0 <= i < text.len() && is_control(#[trigger] text[i])
}

/// Whether `text` consists of whitespace alone.
pub open spec fn is_blank(text: Seq<char>) -> bool {
    forall|i: int| 0 <= i < text.len() ==> is_whitespace(#[trigger] text[i])
}

/// `text` without its leading whitespace.
pub open spec fn trimmed_start(text: Seq<char>) -> Seq<char>
    decreases text.len(),
{
    if text.len() > 0 && is_whitespace(text[0]) {
        trimmed_start(text.skip(1))
    } else {
        text
    }
}

/// `text` without its trailing whitespace.
pub open spec fn trimmed_end(text: Seq<char>) -> Seq<char>
    decreases text.len(),
{
    if text.len() > 0 && is_whitespace(text.last()) {
        trimmed_end(text.drop_last())
    } else {
        text
    }
}

/// `text` without its leading and trailing whitespace.
pub open spec fn trimmed(text: Seq<char>) -> Seq<char> {
    trimmed_end(trimmed_start(text))
}

/// `text` without its trailing carriage returns and line feeds.
pub open spec fn without_line_end(text: Seq<char>) -> Seq<char>
    decreases text.len(),
{
    if text.len() > 0 && (text.last() == '\r' || text.last() == '\n') {
        without_line_end(text.drop_last())
    } else {
        text
    }
}

/// Number of UTF-8 bytes of `text`.
pub open spec fn byte_count(text: Seq<char>) -> nat {
    encode_utf8(text).len()
}

/// Whether `needle` occurs in `text`.
pub open spec fn occurs(text: Seq<char>, needle: Seq<char>) -> bool {
    exists|i: int|
        0 <= i <= text.len() - needle.len() && #[trigger] text.subrange(i, i + needle.len())
            == needle
}

/// ASCII lower case of one character.
pub open spec fn lower_char(c: char) -> char {
    if 'A' <= c <= 'Z' {
        ((c as u32) + 32) as char
    } else {
        c
    }
}

/// `text` with its ASCII capitals in lower case.
pub open spec fn lowered(text: Seq<char>) -> Seq<char> {
    Seq::new(text.len(), |i: int| lower_char(text[i]))
}

/// The decimal digit of a number below ten.
pub open spec fn digit(d: nat) -> char {
    if d == 0 {
        '0'
    } else if d == 1 {
        '1'
    } else if d == 2 {
        '2'
    } else if d == 3 {
        '3'
    } else if d == 4 {
        '4'
    } else if d == 5 {
        '5'
    } else if d == 6 {
        '6'
    } else if d == 7 {
        '7'
    } else if d == 8 {
        '8'
    } else {
        '9'
    }
}

/// The decimal notation of `n`, without leading zeros.
pub open spec fn decimal(n: nat) -> Seq<char>
    decreases n,
{
    if n < 10 {
        seq![digit(n)]
    } else {
        decimal(n / 10).push(digit(n % 10))
    }
}

/// The character sequences of a list of strings.
pub open spec fn views(parts: Seq<String>) -> Seq<Seq<char>> {
    Seq::new(parts.len(), |i: int| parts[i]@)
}

/// `parts` one after the other, with `separator` between neighbours.
pub open spec fn joined(parts: Seq<Seq<char>>, separator: Seq<char>) -> Seq<char>
    decreases parts.len(),
{
    if parts.len() == 0 {
        Seq::empty()
    } else if parts.len() == 1 {
        parts[0]
    } else {
        joined(parts.drop_last(), separator) + separator + parts.last()
    }
}

/// Lexicographic order by code point, which is also the byte order of the
/// UTF-8 encodings.
pub open spec fn before(left: Seq<char>, right: Seq<char>) -> bool
    decreases left.len(),
{
    if right.len() == 0 {
        false
    } else if left.len() == 0 {
        true
    } else if left[0] != right[0] {
        (left[0] as u32) < (right[0] as u32)
    } else {
        before(left.skip(1), right.skip(1))
    }
}

/// Number of UTF-8 bytes of one character.
pub open spec fn char_width(c: char) -> nat {
    encode_scalar(c as u32).len()
}

/// How many leading characters of `text` fit together into `budget` bytes.
pub open spec fn fitting(text: Seq<char>, budget: nat) -> nat
    decreases text.len(),
{
    if text.len() == 0 || char_width(text[0]) > budget {
        0
    } else {
        1 + fitting(text.skip(1), (budget - char_width(text[0])) as nat)
    }
}

/// `text` when it has at most `limit` bytes; otherwise its longest prefix that
/// leaves room for an ellipsis of three dots, followed by that ellipsis.
pub open spec fn previewed(text: Seq<char>, limit: nat) -> Seq<char> {
    if byte_count(text) <= limit {
        text
    } else {
        text.take(fitting(text, if limit >= 3 { (limit - 3) as nat } else { 0 }) as int) + "..."@
    }
}

/// `text` followed by as many blanks as it takes to fill `width` characters.
pub open spec fn padded(text: Seq<char>, width: nat) -> Seq<char> {
    if text.len() >= width {
        text
    } else {
        text + Seq::new((width - text.len()) as nat, |i: int| ' ')
    }
}

/// The position of the first `mark` in `text`, or its length.
pub open spec fn first_index(text: Seq<char>, mark: char) -> nat
    decreases text.len(),
{
    if text.len() == 0 || text[0] == mark {
        0
    } else {
        1 + first_index(text.skip(1), mark)
    }
}

/// `String::push` of std appends one character.
pub assume_specification[ String::push ](text: &mut String, c: char)
    ensures
        final(text)@ == old(text)@.push(c),
;

/// The characters of `text` as a vector.
pub fn chars_of(text: &str) -> (chars: Vec<char>)
    ensures
        chars@ == text@,
{
    let mut chars: Vec<char> = Vec::new();
    for c in iter: text.chars()
        invariant
            chars@ == iter.seq().take(iter.index()),
            iter.seq() == text@,
    {
        chars.push(c);
    }
    chars
}

/// The characters `from..to` as a string.
pub fn text_of(chars: &Vec<char>, from: usize, to: usize) -> (text: String)
    requires
        from <= to <= chars@.len(),
    ensures
        text@ == chars@.subrange(from as int, to as int),
{
    let mut text = String::new();
    let mut i: usize = from;
    while i < to
        invariant
            from <= i <= to <= chars@.len(),
            text@ == chars@.subrange(from as int, i as int),
        decreases to - i,
    {
        text.push(chars[i]);
        assert(chars@.subrange(from as int, i + 1) == chars@.subrange(from as int, i as int).push(
            chars@[i as int],
        ));
        i += 1;
    }
    text
}

/// Whether two strings hold the same characters.
pub fn text_eq(left: &str, right: &str) -> (same: bool)
    ensures
        same == (left@ == right@),
{
    let a = left.as_bytes();
    let b = right.as_bytes();
    proof {
        encode_utf8_decode_utf8(left@);
        encode_utf8_decode_utf8(right@);
    }
    if a.len() != b.len() {
        return false;
    }
    let mut i: usize = 0;
    while i < a.len()
        invariant
            a@.len() == b@.len(),
            i <= a@.len(),
            a@ == encode_utf8(left@),
            b@ == encode_utf8(right@),
            a@.take(i as int) == b@.take(i as int),
        decreases a@.len() - i,
    {
        if a[i] != b[i] {
            return false;
        }
        assert(a@.take(i + 1) == a@.take(i as int).push(a@[i as int]));
        assert(b@.take(i + 1) == b@.take(i as int).push(b@[i as int]));
        i += 1;
    }
    assert(a@.take(i as int) == a@);
    assert(b@.take(i as int) == b@);
    true
}

/// The characters of an optional string.
pub open spec fn option_view(text: Option<String>) -> Option<Seq<char>> {
    match text {
        Some(value) => Some(value@),
        None => None,
    }
}

/// A copy of an optional string.
pub fn copy_option(text: &Option<String>) -> (copy: Option<String>)
    ensures
        copy == *text,
{
    match text {
        Some(value) => Some(value.clone()),
        None => None,
    }
}

/// A copy of a list of strings.
pub fn copy_list(texts: &Vec<String>) -> (copy: Vec<String>)
    ensures
        copy@ == texts@,
{
    let mut copy: Vec<String> = Vec::new();
    let mut i: usize = 0;
    while i < texts.len()
        invariant
            i <= texts@.len(),
            copy@ == texts@.take(i as int),
        decreases texts@.len() - i,
    {
        copy.push(texts[i].clone());
        assert(texts@.take(i + 1) == texts@.take(i as int).push(texts@[i as int]));
        i += 1;
    }
    assert(texts@.take(i as int) == texts@);
    copy
}

/// Whether a list of strings holds `wanted`.
pub fn list_has(texts: &Vec<String>, wanted: &str) -> (found: bool)
    ensures
        found == views(texts@).contains(wanted@),
{
    let mut i: usize = 0;
    while i < texts.len()
        invariant
            i <= texts@.len(),
            forall|j: int| 0 <= j < i ==> views(texts@)[j] != wanted@,
        decreases texts@.len() - i,
    {
        if text_eq(&texts[i], wanted) {
            assert(views(texts@)[i as int] == wanted@);
            return true;
        }
        i += 1;
    }
    false
}

/// Number of UTF-8 bytes of `text`.
pub fn byte_len(text: &str) -> (len: usize)
    ensures
        len == byte_count(text@),
{
    text.as_bytes().len()
}

/// Whether a character has the `White_Space` property.
pub fn whitespace(c: char) -> (yes: bool)
    ensures
        yes == is_whitespace(c),
{
    let u: u32 = c as u32;
    (0x09 <= u && u <= 0x0d) || u == 0x20 || u == 0x85 || u == 0xa0 || u == 0x1680 || (0x2000 <= u
        && u <= 0x200a) || u == 0x2028 || u == 0x2029 || u == 0x202f || u == 0x205f || u == 0x3000
}

/// Whether a character is a control character.
pub fn control(c: char) -> (yes: bool)
    ensures
        yes == is_control(c),
{
    let u: u32 = c as u32;
    u <= 0x1f || (0x7f <= u && u <= 0x9f)
}

/// Whether `text` holds a control character.
pub fn contains_control(text: &str) -> (found: bool)
    ensures
        found == has_control(text@),
{
    let chars = chars_of(text);
    let mut i: usize = 0;
    while i < chars.len()
        invariant
            chars@ == text@,
            i <= chars@.len(),
            forall|j: int| 0 <= j < i ==> !is_control(#[trigger] text@[j]),
        decreases chars@.len() - i,
    {
        if control(chars[i]) {
            assert(is_control(text@[i as int]));
            return true;
        }
        i += 1;
    }
    false
}

/// Whether `text` consists of whitespace alone.
pub fn blank(text: &str) -> (yes: bool)
    ensures
        yes == is_blank(text@),
{
    let chars = chars_of(text);
    let mut i: usize = 0;
    while i < chars.len()
        invariant
            chars@ == text@,
            i <= chars@.len(),
            forall|j: int| 0 <= j < i ==> is_whitespace(#[trigger] text@[j]),
        decreases chars@.len() - i,
    {
        if !whitespace(chars[i]) {
            assert(!is_whitespace(text@[i as int]));
            return false;
        }
        i += 1;
    }
    true
}

/// `text` without its leading and trailing whitespace.
pub fn trim(text: &str) -> (inner: String)
    ensures
        inner@ == trimmed(text@),
{
    let chars = chars_of(text);
    let mut start: usize = 0;
    assert(text@.skip(0) == text@);
    while start < chars.len() && whitespace(chars[start])
        invariant
            chars@ == text@,
            start <= chars@.len(),
            trimmed_start(text@) == trimmed_start(text@.skip(start as int)),
        decreases chars@.len() - start,
    {
        assert(text@.skip(start as int).skip(1) == text@.skip(start + 1));
        start += 1;
    }
    let ghost middle = text@.skip(start as int);
    assert(trimmed_start(text@) == middle);
    let mut end: usize = chars.len();
    assert(middle.take(middle.len() as int) == middle);
    while start < end && whitespace(chars[end - 1])
        invariant
            chars@ == text@,
            start <= end <= chars@.len(),
            middle == text@.skip(start as int),
            trimmed_end(middle) == trimmed_end(middle.take(end - start)),
        decreases end,
    {
        assert(middle.take(end - start).drop_last() == middle.take(end - 1 - start));
        assert(middle.take(end - start).last() == chars@[end - 1]);
        end -= 1;
    }
    assert(middle.take(end - start) == chars@.subrange(start as int, end as int));
    proof {
        if start < end {
            assert(middle.take(end - start).last() == chars@[end - 1]);
        }
    }
    text_of(&chars, start, end)
}

/// `text` without its trailing carriage returns and line feeds.
pub fn trim_line_end(text: &str) -> (line: String)
    ensures
        line@ == without_line_end(text@),
{
    let chars = chars_of(text);
    let mut end: usize = chars.len();
    assert(text@.take(text@.len() as int) == text@);
    while end > 0 && (chars[end - 1] == '\r' || chars[end - 1] == '\n')
        invariant
            chars@ == text@,
            end <= chars@.len(),
            without_line_end(text@) == without_line_end(text@.take(end as int)),
        decreases end,
    {
        assert(text@.take(end as int).drop_last() == text@.take(end - 1));
        assert(text@.take(end as int).last() == chars@[end - 1]);
        end -= 1;
    }
    proof {
        assert(text@.take(end as int) == chars@.subrange(0, end as int));
        if end > 0 {
            assert(text@.take(end as int).last() == chars@[end - 1]);
        }
    }
    text_of(&chars, 0, end)
}

/// Whether `needle` stands in `chars` at position `at`.
fn stands_at(chars: &Vec<char>, needle: &Vec<char>, at: usize) -> (yes: bool)
    requires
        at + needle@.len() <= chars@.len(),
    ensures
        yes == (chars@.subrange(at as int, at + needle@.len()) == needle@),
{
    let end: usize = chars.len();
    let mut i: usize = 0;
    while i < needle.len()
        invariant
            at + needle@.len() <= end,
            end == chars@.len(),
            i <= needle@.len(),
            forall|j: int| 0 <= j < i ==> chars@[at + j] == needle@[j],
        decreases needle@.len() - i,
    {
        if chars[at + i] != needle[i] {
            assert(chars@.subrange(at as int, at + needle@.len())[i as int] != needle@[i as int]);
            return false;
        }
        i += 1;
    }
    assert(chars@.subrange(at as int, at + needle@.len()) =~= needle@);
    true
}

/// Whether `needle` occurs in `text`.
pub fn contains(text: &str, needle: &str) -> (found: bool)
    ensures
        found == occurs(text@, needle@),
{
    let chars = chars_of(text);
    let wanted = chars_of(needle);
    if wanted.len() > chars.len() {
        return false;
    }
    let last: usize = chars.len() - wanted.len();
    let mut i: usize = 0;
    while i <= last
        invariant
            chars@ == text@,
            wanted@ == needle@,
            last + wanted@.len() == chars@.len(),
            i <= last + 1,
            forall|j: int|
                0 <= j < i ==> #[trigger] text@.subrange(j, j + needle@.len()) != needle@,
        decreases last + 1 - i,
    {
        if stands_at(&chars, &wanted, i) {
            return true;
        }
        if i == last {
            return false;
        }
        i += 1;
    }
    false
}

/// Whether `text` begins with `prefix`.
pub fn starts_with(text: &str, prefix: &str) -> (yes: bool)
    ensures
        yes == prefix@.is_prefix_of(text@),
{
    let chars = chars_of(text);
    let wanted = chars_of(prefix);
    if wanted.len() > chars.len() {
        return false;
    }
    stands_at(&chars, &wanted, 0)
}

/// `text` with its ASCII capitals in lower case.
pub fn lower(text: &str) -> (small: String)
    ensures
        small@ == lowered(text@),
{
    let chars = chars_of(text);
    let mut small = String::new();
    let mut i: usize = 0;
    while i < chars.len()
        invariant
            chars@ == text@,
            i <= chars@.len(),
            small@ == lowered(text@).take(i as int),
        decreases chars@.len() - i,
    {
        let c = chars[i];
        small.push(lower_one(c));
        assert(lowered(text@).take(i + 1) == lowered(text@).take(i as int).push(lower_char(c)));
        i += 1;
    }
    assert(lowered(text@).take(i as int) == lowered(text@));
    small
}

fn lower_one(c: char) -> (small: char)
    ensures
        small == lower_char(c),
{
    if 'A' <= c && c <= 'Z' {
        ((c as u8) + 32) as char
    } else {
        c
    }
}

/// The decimal notation of `n`.
pub fn decimal_text(n: u64) -> (digits: String)
    ensures
        digits@ == decimal(n as nat),
    decreases n,
{
    let mut digits = if n < 10 {
        String::new()
    } else {
        decimal_text(n / 10)
    };
    let d: u64 = n % 10;
    let c: char = match d {
        0 => '0',
        1 => '1',
        2 => '2',
        3 => '3',
        4 => '4',
        5 => '5',
        6 => '6',
        7 => '7',
        8 => '8',
        _ => '9',
    };
    digits.push(c);
    assert(c == digit((n % 10) as nat));
    digits
}

/// `parts` joined by `separator`.
pub fn join(parts: &Vec<String>, separator: &str) -> (text: String)
    ensures
        text@ == joined(views(parts@), separator@),
{
    let mut text = String::new();
    let mut i: usize = 0;
    while i < parts.len()
        invariant
            i <= parts@.len(),
            text@ == joined(views(parts@).take(i as int), separator@),
        decreases parts@.len() - i,
    {
        let ghost done = views(parts@).take(i as int);
        assert(views(parts@).take(i + 1).drop_last() == done);
        if i > 0 {
            text.append(separator);
        }
        text.append(&parts[i]);
        i += 1;
    }
    assert(views(parts@).take(i as int) == views(parts@));
    text
}

/// `text` filled up with blanks to `width` characters.
pub fn pad(text: &str, width: usize) -> (filled: String)
    ensures
        filled@ == padded(text@, width as nat),
{
    let mut filled = text.to_owned();
    let mut count: usize = chars_of(text).len();
    let ghost start = count;
    while count < width
        invariant
            start == text@.len(),
            start <= count,
            count <= width || count == start,
            filled@ == text@ + Seq::new((count - start) as nat, |i: int| ' '),
        decreases width - count,
    {
        filled.push(' ');
        count += 1;
        assert(Seq::new((count - start) as nat, |i: int| ' ') =~= Seq::new(
            (count - 1 - start) as nat,
            |i: int| ' ',
        ).push(' '));
    }
    assert(filled@ =~= padded(text@, width as nat));
    filled
}

/// Whether `left` comes before `right` in lexicographic order.
pub fn text_before(left: &str, right: &str) -> (yes: bool)
    ensures
        yes == before(left@, right@),
{
    let a = chars_of(left);
    let b = chars_of(right);
    let mut i: usize = 0;
    assert(left@.skip(0) == left@);
    assert(right@.skip(0) == right@);
    loop
        invariant
            a@ == left@,
            b@ == right@,
            i <= a@.len(),
            i <= b@.len(),
            before(left@, right@) == before(left@.skip(i as int), right@.skip(i as int)),
        decreases a@.len() - i,
    {
        if i == b.len() {
            return false;
        }
        if i == a.len() {
            return true;
        }
        if a[i] != b[i] {
            return (a[i] as u32) < (b[i] as u32);
        }
        assert(left@.skip(i as int).skip(1) == left@.skip(i + 1));
        assert(right@.skip(i as int).skip(1) == right@.skip(i + 1));
        i += 1;
    }
}

/// Number of UTF-8 bytes of one character.
pub fn width(c: char) -> (w: usize)
    ensures
        w == char_width(c),
        1 <= w <= 4,
{
    let u: u32 = c as u32;
    proof {
        char_is_scalar(c);
    }
    if u <= 0x7f {
        1
    } else if u <= 0x7ff {
        2
    } else if u <= 0xffff {
        3
    } else {
        4
    }
}

/// The bounded preview of `text`.
pub fn preview(text: &str, limit: usize) -> (shown: String)
    ensures
        shown@ == previewed(text@, limit as nat),
{
    if byte_len(text) <= limit {
        return text.to_owned();
    }
    let chars = chars_of(text);
    let mut budget: usize = if limit >= 3 {
        limit - 3
    } else {
        0
    };
    let ghost total = budget as nat;
    let mut i: usize = 0;
    assert(text@.skip(0) == text@);
    while i < chars.len() && width(chars[i]) <= budget
        invariant
            chars@ == text@,
            i <= chars@.len(),
            fitting(text@, total) == i + fitting(text@.skip(i as int), budget as nat),
        decreases chars@.len() - i,
    {
        assert(text@.skip(i as int).skip(1) == text@.skip(i + 1));
        budget -= width(chars[i]);
        i += 1;
    }
    let mut shown = text_of(&chars, 0, i);
    assert(chars@.subrange(0, i as int) == text@.take(i as int));
    shown.append("...");
    shown
}

/// Splits `text` at its first `mark`, which belongs to neither part.
pub fn split_once(text: &str, mark: char) -> (parts: Option<(String, String)>)
    ensures
        match parts {
            Some((head, tail)) => {
                let at = first_index(text@, mark) as int;
                &&& at < text@.len()
                &&& head@ == text@.take(at)
                &&& tail@ == text@.skip(at + 1)
            },
            None => first_index(text@, mark) == text@.len(),
        },
{
    let chars = chars_of(text);
    let mut i: usize = 0;
    assert(text@.skip(0) == text@);
    while i < chars.len() && chars[i] != mark
        invariant
            chars@ == text@,
            i <= chars@.len(),
            first_index(text@, mark) == i + first_index(text@.skip(i as int), mark),
        decreases chars@.len() - i,
    {
        assert(text@.skip(i as int).skip(1) == text@.skip(i + 1));
        i += 1;
    }
    if i == chars.len() {
        return None;
    }
    assert(chars@.subrange(0, i as int) == text@.take(i as int));
    assert(chars@.subrange(i + 1, chars@.len() as int) == text@.skip(i + 1));
    Some((text_of(&chars, 0, i), text_of(&chars, i + 1, chars.len())))
}

/// `Debug` formatting of a string in std: the text between double quotes, with
/// escapes for quotes, backslashes, control characters and characters that
/// Unicode counts as unprintable. Only that it depends on the text alone is
/// stated; the escapes themselves follow std's Unicode tables.
#[verifier::external_body]
pub(crate) fn quoted(text: &str) -> (shown: String)
    ensures
        shown@ == debug_text(text@),
{
    format!("{text:?}")
}

/// The text that bytes encode, if they are UTF-8.
pub open spec fn utf8_of(bytes: Seq<u8>) -> Option<Seq<char>> {
    if valid_utf8(bytes) {
        Some(decode_utf8(bytes))
    } else {
        None
    }
}

/// `std::str::from_utf8`: the text that the bytes encode, where they are valid
/// UTF-8.
#[verifier::external_body]
pub(crate) fn utf8_text(bytes: &Vec<u8>) -> (text: Option<String>)
    ensures
        option_view(text) == utf8_of(bytes@),
{
    std::str::from_utf8(bytes).ok().map(str::to_owned)
}

/// The value of a decimal digit.
pub open spec fn digit_value(c: char) -> Option<nat> {
    if '0' <= c && c <= '9' {
        Some((c as u32 - '0' as u32) as nat)
    } else {
        None
    }
}

/// The value of decimal digits; nothing where another character stands among
/// them.
pub open spec fn digits_value(text: Seq<char>) -> Option<nat>
    decreases text.len(),
{
    if text.len() == 0 {
        Some(0)
    } else {
        match (digits_value(text.drop_last()), digit_value(text.last())) {
            (Some(value), Some(digit)) => Some(value * 10 + digit),
            _ => None,
        }
    }
}

/// The number that a text spells, with or without a plus sign before it, if it
/// spells one that is no larger than `max`.
pub open spec fn number_of(text: Seq<char>, max: nat) -> Option<nat> {
    let digits = if text.len() > 1 && text[0] == '+' {
        text.skip(1)
    } else {
        text
    };
    match digits_value(digits) {
        Some(value) => if digits.len() > 0 && value <= max {
            Some(value)
        } else {
            None
        },
        None => None,
    }
}

/// Reads a number.
pub fn parse_number(text: &str, max: u16) -> (number: Option<u16>)
    ensures
        match number {
            Some(value) => number_of(text@, max as nat) == Some(value as nat),
            None => number_of(text@, max as nat) is None,
        },
{
    let chars = chars_of(text);
    let start: usize = if chars.len() > 1 && chars[0] == '+' {
        1
    } else {
        0
    };
    let ghost digits = text@.skip(start as int);
    assert(text@.skip(0) =~= text@);
    if start >= chars.len() {
        return None;
    }
    let mut bad = false;
    let mut over = false;
    let mut value: u32 = 0;
    let mut i: usize = start;
    assert(digits.take(0) =~= Seq::<char>::empty());
    while i < chars.len()
        invariant
            chars@ == text@,
            start <= i <= chars@.len(),
            digits == text@.skip(start as int),
            value <= max,
            match digits_value(digits.take(i - start)) {
                None => bad,
                Some(held) => !bad && (if over {
                    held > max
                } else {
                    held == value
                }),
            },
        decreases chars@.len() - i,
    {
        let c = chars[i];
        proof {
            let prefix = digits.take(i - start + 1);
            assert(prefix.drop_last() =~= digits.take(i - start));
            assert(prefix.last() == c);
        }
        if '0' <= c && c <= '9' {
            let next: u32 = value * 10 + (c as u32 - '0' as u32);
            if next > max as u32 {
                over = true;
            } else if !over {
                value = next;
            }
        } else {
            bad = true;
        }
        i += 1;
    }
    assert(digits.take(i - start) =~= digits);
    if bad || over {
        None
    } else {
        Some(value as u16)
    }
}

/// Whether a text is another one, letters of the Latin alphabet taken in either
/// case.
pub fn eq_ignoring_case(left: &str, right: &str) -> (same: bool)
    ensures
        same == (lowered(left@) == lowered(right@)),
{
    text_eq(lower(left).as_str(), lower(right).as_str())
}

/// The `Debug` rendering of a string.
pub uninterp spec fn debug_text(text: Seq<char>) -> Seq<char>;

/// Blank text trims to nothing, and nothing else does.
pub proof fn blank_text_trims_to_nothing(text: Seq<char>)
    ensures
        is_blank(text) <==> trimmed(text).len() == 0,
    decreases text.len(),
{
    lemma_trimmed_start(text);
    lemma_trimmed_end(trimmed_start(text));
}

proof fn lemma_trimmed_start(text: Seq<char>)
    ensures
        is_blank(text) <==> is_blank(trimmed_start(text)),
        trimmed_start(text).len() > 0 ==> !is_whitespace(trimmed_start(text)[0]),
    decreases text.len(),
{
    if text.len() > 0 && is_whitespace(text[0]) {
        lemma_trimmed_start(text.skip(1));
        assert(forall|i: int| 1 <= i < text.len() ==> text[i] == #[trigger] text.skip(1)[i - 1]);
        if is_blank(text.skip(1)) {
            assert forall|i: int| 0 <= i < text.len() implies is_whitespace(#[trigger] text[i]) by {
                if i > 0 {
                    assert(is_whitespace(text.skip(1)[i - 1]));
                }
            }
        }
    }
}

proof fn lemma_trimmed_end(text: Seq<char>)
    ensures
        is_blank(text) ==> trimmed_end(text).len() == 0,
        trimmed_end(text).len() == 0 ==> is_blank(text),
    decreases text.len(),
{
    if text.len() > 0 && is_whitespace(text.last()) {
        lemma_trimmed_end(text.drop_last());
        assert(forall|i: int|
            0 <= i < text.len() - 1 ==> text[i] == #[trigger] text.drop_last()[i]);
        if is_blank(text.drop_last()) {
            assert forall|i: int| 0 <= i < text.len() implies is_whitespace(#[trigger] text[i]) by {
                if i < text.len() - 1 {
                    assert(is_whitespace(text.drop_last()[i]));
                }
            }
        }
    }
}

/// The bytes of a concatenation are the concatenated bytes.
pub proof fn lemma_byte_count_add(left: Seq<char>, right: Seq<char>)
    ensures
        byte_count(left + right) == byte_count(left) + byte_count(right),
    decreases left.len(),
{
    if left.len() == 0 {
        assert(left + right == right);
    } else {
        lemma_byte_count_add(left.drop_first(), right);
        assert((left + right).drop_first() == left.drop_first() + right);
        assert((left + right)[0] == left[0]);
    }
}

proof fn lemma_fitting(text: Seq<char>, budget: nat)
    ensures
        fitting(text, budget) <= text.len(),
        byte_count(text.take(fitting(text, budget) as int)) <= budget,
    decreases text.len(),
{
    if text.len() == 0 || char_width(text[0]) > budget {
        assert(text.take(0).len() == 0);
    } else {
        let rest = (budget - char_width(text[0])) as nat;
        lemma_fitting(text.skip(1), rest);
        let n = fitting(text, budget) as int;
        assert(text.take(n).drop_first() == text.skip(1).take(n - 1));
        assert(text.take(n)[0] == text[0]);
    }
}

/// A preview never exceeds its limit, as long as the limit leaves room for the
/// ellipsis itself.
pub proof fn preview_is_bounded(text: Seq<char>, limit: nat)
    requires
        limit >= 3,
    ensures
        byte_count(previewed(text, limit)) <= limit,
{
    if byte_count(text) > limit {
        let budget = (limit - 3) as nat;
        lemma_fitting(text, budget);
        lemma_byte_count_add(text.take(fitting(text, budget) as int), "..."@);
        reveal_strlit("...");
        is_ascii_chars_encode_utf8("..."@);
    }
}

/// The words of a text that are over, and the one that goes on at its end.
pub open spec fn words_and_rest(text: Seq<char>) -> (Seq<Seq<char>>, Seq<char>)
    decreases text.len(),
{
    if text.len() == 0 {
        (Seq::empty(), Seq::empty())
    } else {
        let (words, rest) = words_and_rest(text.drop_last());
        if !is_whitespace(text.last()) {
            (words, rest.push(text.last()))
        } else if rest.len() == 0 {
            (words, rest)
        } else {
            (words.push(rest), Seq::empty())
        }
    }
}

/// The words of a text: what stands between white space.
pub open spec fn spaced_words(text: Seq<char>) -> Seq<Seq<char>> {
    let (words, rest) = words_and_rest(text);
    if rest.len() == 0 {
        words
    } else {
        words.push(rest)
    }
}

/// Splits a text at white space.
pub fn split_spaces(text: &str) -> (words: Vec<String>)
    ensures
        views(words@) == spaced_words(text@),
{
    let chars = chars_of(text);
    let mut words: Vec<String> = Vec::new();
    let mut rest = String::new();
    let mut empty = true;
    let mut i: usize = 0;
    assert(views(words@) =~= Seq::<Seq<char>>::empty());
    assert(rest@ =~= Seq::<char>::empty());
    while i < chars.len()
        invariant
            i <= chars@.len(),
            chars@ == text@,
            words_and_rest(text@.take(i as int)) == (views(words@), rest@),
            empty == (rest@.len() == 0),
        decreases chars@.len() - i,
    {
        assert(text@.take(i + 1).drop_last() =~= text@.take(i as int));
        let c = chars[i];
        if !whitespace(c) {
            rest.push(c);
            empty = false;
        } else if !empty {
            let ghost before = views(words@);
            let ghost word = rest@;
            words.push(rest);
            assert(views(words@) =~= before.push(word));
            rest = String::new();
            assert(rest@ =~= Seq::<char>::empty());
            empty = true;
        }
        i += 1;
    }
    assert(text@.take(i as int) =~= text@);
    if !empty {
        let ghost before = views(words@);
        let ghost word = rest@;
        words.push(rest);
        assert(views(words@) =~= before.push(word));
    }
    words
}

/// Whether a text holds no white space.
pub open spec fn unspaced(text: Seq<char>) -> bool {
    forall|i: int| 0 <= i < text.len() ==> !is_whitespace(#[trigger] text[i])
}

proof fn words_are_whole(text: Seq<char>)
    ensures
        forall|i: int|
            0 <= i < words_and_rest(text).0.len() ==> (#[trigger] words_and_rest(text).0[i]).len()
                > 0 && unspaced(words_and_rest(text).0[i]),
        unspaced(words_and_rest(text).1),
    decreases text.len(),
{
    if text.len() > 0 {
        words_are_whole(text.drop_last());
        let (words, rest) = words_and_rest(text.drop_last());
        let (all, left) = words_and_rest(text);
        assert forall|i: int| 0 <= i < all.len() implies (#[trigger] all[i]).len() > 0 && unspaced(
            all[i],
        ) by {
            if i < words.len() {
                assert(all[i] == words[i]);
            } else {
                assert(all[i] == rest);
            }
        }
        assert forall|j: int| 0 <= j < left.len() implies !is_whitespace(#[trigger] left[j]) by {
            if j < rest.len() {
                assert(left[j] == rest[j]);
            }
        }
    }
}

/// No word is empty, and none holds white space.
pub proof fn words_hold_no_space(text: Seq<char>)
    ensures
        forall|i: int|
            0 <= i < spaced_words(text).len() ==> (#[trigger] spaced_words(text)[i]).len() > 0
                && unspaced(spaced_words(text)[i]),
{
    words_are_whole(text);
    let (words, rest) = words_and_rest(text);
    let all = spaced_words(text);
    assert forall|i: int| 0 <= i < all.len() implies (#[trigger] all[i]).len() > 0 && unspaced(
        all[i],
    ) by {
        if i < words.len() {
            assert(all[i] == words[i]);
        }
    }
}

/// A text without its line ends is the front of the text: behind it there are line
/// ends only, and it does not end in one.
pub proof fn line_ends_are_left_out(text: Seq<char>)
    ensures
        without_line_end(text).is_prefix_of(text),
        forall|i: int|
            without_line_end(text).len() <= i < text.len() ==> (#[trigger] text[i] == '\r'
                || text[i] == '\n'),
        without_line_end(text).len() > 0 ==> without_line_end(text).last() != '\r'
            && without_line_end(text).last() != '\n',
    decreases text.len(),
{
    if text.len() > 0 && (text.last() == '\r' || text.last() == '\n') {
        let shorter = text.drop_last();
        line_ends_are_left_out(shorter);
        assert(text[text.len() - 1] == text.last());
        assert forall|i: int| without_line_end(text).len() <= i < text.len() implies (
        #[trigger] text[i] == '\r' || text[i] == '\n') by {
            if i < shorter.len() {
                assert(shorter[i] == text[i]);
            }
        }
    }
}

/// What stands between two texts occurs in the whole.
pub proof fn parts_occur(left: Seq<char>, part: Seq<char>, right: Seq<char>)
    ensures
        occurs(left + part + right, part),
{
    let whole = left + part + right;
    assert(whole.subrange(left.len() as int, left.len() as int + part.len()) =~= part);
}

/// What occurs in a text occurs in every text that begins with it.
pub proof fn longer_texts_hold_the_same(text: Seq<char>, more: Seq<char>, part: Seq<char>)
    requires
        occurs(text, part),
    ensures
        occurs(text + more, part),
{
    let at = choose|i: int|
        0 <= i <= text.len() - part.len() && #[trigger] text.subrange(i, i + part.len()) == part;
    assert((text + more).subrange(at, at + part.len()) =~= text.subrange(at, at + part.len()));
}

/// The decimal notation of a number is read as that number. It begins with a zero
/// only where it is nothing else.
pub proof fn decimals_are_read_back(n: nat)
    ensures
        digits_value(decimal(n)) == Some(n),
        decimal(n).len() > 0,
        number_of(decimal(n), n) == Some(n),
        decimal(n)[0] == '0' ==> n == 0,
        decimal(n)[0] != '+',
    decreases n,
{
    let last = digit(n % 10);
    assert(digit_value(last) == Some(n % 10));
    if n < 10 {
        assert(decimal(n).drop_last() =~= Seq::<char>::empty());
        assert(digits_value(Seq::<char>::empty()) == Some(0nat));
        assert(decimal(n).last() == last);
    } else {
        decimals_are_read_back(n / 10);
        assert(decimal(n).drop_last() =~= decimal(n / 10));
        assert(decimal(n).last() == last);
        assert(decimal(n)[0] == decimal(n / 10)[0]);
    }
}

/// Nothing before the first mark is the mark.
pub proof fn first_marks_are_first(text: Seq<char>, mark: char)
    ensures
        first_index(text, mark) <= text.len(),
        first_index(text, mark) < text.len() ==> text[first_index(text, mark) as int] == mark,
        forall|i: int| 0 <= i < first_index(text, mark) ==> #[trigger] text[i] != mark,
    decreases text.len(),
{
    if text.len() > 0 && text[0] != mark {
        first_marks_are_first(text.skip(1), mark);
        assert forall|i: int| 0 <= i < first_index(text, mark) implies #[trigger] text[i]
            != mark by {
            if i > 0 {
                assert(text.skip(1)[i - 1] == text[i]);
            }
        }
    }
}

/// What occurs in the beginning of a text occurs in the text.
pub proof fn beginnings_are_held(front: Seq<char>, whole: Seq<char>, part: Seq<char>)
    requires
        front.is_prefix_of(whole),
        occurs(front, part),
    ensures
        occurs(whole, part),
{
    longer_texts_hold_the_same(front, whole.skip(front.len() as int), part);
    assert(front + whole.skip(front.len() as int) =~= whole);
}

/// What ends a text with the word before it occurs in the text.
pub proof fn ends_occur(front: Seq<char>, word: Seq<char>, end: Seq<char>)
    ensures
        occurs(front + word + end, word + end),
{
    let nothing = Seq::<char>::empty();
    assert(front + word + end =~= front + (word + end) + nothing);
    parts_occur(front, word + end, nothing);
}

/// Every part occurs in what the parts are joined to, and nothing is there where there are
/// no parts.
pub proof fn joined_parts_occur(parts: Seq<Seq<char>>, separator: Seq<char>, at: int)
    requires
        0 <= at < parts.len(),
    ensures
        occurs(joined(parts, separator), parts[at]),
        joined(Seq::empty(), separator).len() == 0,
    decreases parts.len(),
{
    let nothing = Seq::<char>::empty();
    let whole = joined(parts, separator);
    if parts.len() == 1 {
        assert(whole =~= nothing + parts[0] + nothing);
        parts_occur(nothing, parts[0], nothing);
    } else {
        let front = joined(parts.drop_last(), separator);
        if at == parts.len() - 1 {
            assert(whole =~= front + separator + parts.last() + nothing);
            parts_occur(front + separator, parts.last(), nothing);
        } else {
            joined_parts_occur(parts.drop_last(), separator, at);
            assert(parts.drop_last()[at] == parts[at]);
            longer_texts_hold_the_same(front, separator, parts[at]);
            longer_texts_hold_the_same(front + separator, parts.last(), parts[at]);
        }
    }
}

/// A text that is split at a mark is its head, the mark and its tail, and the head holds no
/// mark; one that cannot be split holds none.
pub proof fn split_texts_can_be_joined(text: &str, mark: char, parts: Option<(String, String)>)
    requires
        call_ensures(split_once, (text, mark), parts),
    ensures
        parts is None <==> !text@.contains(mark),
        parts matches Some((head, tail)) ==> {
            &&& text@ == head@.push(mark) + tail@
            &&& !head@.contains(mark)
        },
{
    first_marks_are_first(text@, mark);
    if let Some((head, tail)) = parts {
        assert(text@ =~= head@.push(mark) + tail@);
        assert(text@[first_index(text@, mark) as int] == mark);
    }
}

/// A text holds what it begins with.
pub proof fn texts_hold_their_beginning(text: Seq<char>, more: Seq<char>)
    ensures
        occurs(text + more, text),
{
    assert((text + more).subrange(0, 0int + text.len()) =~= text);
}

/// What a beginning begins with, the whole begins with.
pub proof fn beginnings_begin_alike(text: Seq<char>, more: Seq<char>, whole: Seq<char>)
    requires
        (text + more).is_prefix_of(whole),
    ensures
        text.is_prefix_of(whole),
{
    assert(text =~= (text + more).subrange(0, text.len() as int));
    assert(whole.subrange(0, text.len() as int) =~= text);
}

/// A text that is filled up keeps what it says: it begins with the text, is as wide as
/// asked for or as long as the text, and is blank behind it.
pub proof fn filled_texts_keep_what_they_say(text: &str, width: usize, filled: String)
    requires
        call_ensures(pad, (text, width), filled),
    ensures
        text@.is_prefix_of(filled@),
        filled@.len() >= width,
        filled@.len() == width || filled@ == text@,
        forall|i: int| text@.len() <= i < filled@.len() ==> #[trigger] filled@[i] == ' ',
{
    assert(filled@.subrange(0, text@.len() as int) =~= text@);
}

/// What is trimmed off the front is white space, and what stays is the rest.
proof fn fronts_are_space(text: Seq<char>)
    ensures
        trimmed_start(text).len() <= text.len(),
        trimmed_start(text) == text.skip(text.len() - trimmed_start(text).len()),
        forall|i: int|
            0 <= i < text.len() - trimmed_start(text).len() ==> is_whitespace(#[trigger] text[i]),
    decreases text.len(),
{
    if text.len() > 0 && is_whitespace(text[0]) {
        let rest = text.skip(1);
        fronts_are_space(rest);
        let cut = text.len() - trimmed_start(text).len();
        assert(text.skip(cut) =~= rest.skip(cut - 1));
        assert forall|i: int| 0 <= i < cut implies is_whitespace(#[trigger] text[i]) by {
            if i > 0 {
                assert(rest[i - 1] == text[i]);
            }
        }
    } else {
        assert(text.skip(0) =~= text);
    }
}

proof fn backs_are_space(text: Seq<char>)
    ensures
        trimmed_end(text).len() <= text.len(),
        trimmed_end(text) == text.take(trimmed_end(text).len() as int),
        forall|i: int|
            trimmed_end(text).len() <= i < text.len() ==> is_whitespace(#[trigger] text[i]),
        trimmed_end(text).len() > 0 ==> !is_whitespace(trimmed_end(text).last()),
    decreases text.len(),
{
    if text.len() > 0 && is_whitespace(text.last()) {
        let rest = text.drop_last();
        backs_are_space(rest);
        let kept = trimmed_end(text).len() as int;
        assert(text.take(kept) =~= rest.take(kept));
        assert forall|i: int| kept <= i < text.len() implies is_whitespace(#[trigger] text[i]) by {
            if i < text.len() - 1 {
                assert(rest[i] == text[i]);
            }
        }
    } else {
        assert(text.take(text.len() as int) =~= text);
    }
}

/// A trimmed text is the text but for white space around it, letter for letter, and
/// neither begins nor ends in white space.
pub proof fn trimmed_texts_lose_space_alone(text: &str, inner: String) -> (around: (
    Seq<char>,
    Seq<char>,
))
    requires
        call_ensures(trim, (text,), inner),
    ensures
        text@ == around.0 + inner@ + around.1,
        is_blank(around.0),
        is_blank(around.1),
        inner@.len() > 0 ==> !is_whitespace(inner@[0]) && !is_whitespace(inner@.last()),
{
    let rest = trimmed_start(text@);
    fronts_are_space(text@);
    lemma_trimmed_start(text@);
    backs_are_space(rest);
    let front = text@.take(text@.len() - rest.len());
    let back = rest.skip(inner@.len() as int);
    assert(text@ =~= front + inner@ + back);
    assert forall|i: int| 0 <= i < back.len() implies is_whitespace(#[trigger] back[i]) by {
        assert(back[i] == rest[inner@.len() + i]);
    }
    if inner@.len() > 0 {
        assert(inner@[0] == rest[0]);
    }
    (front, back)
}

/// A text in small letters is as long as it was, holds no capital of the alphabet, and is
/// the text itself wherever none stood.
pub proof fn small_letters_change_capitals_alone(text: &str, small: String)
    requires
        call_ensures(lower, (text,), small),
    ensures
        small@.len() == text@.len(),
        forall|i: int|
            0 <= i < text@.len() ==> !('A' <= #[trigger] small@[i] && small@[i] <= 'Z'),
        forall|i: int|
            0 <= i < text@.len() && !('A' <= #[trigger] text@[i] && text@[i] <= 'Z') ==> small@[i]
                == text@[i],
        forall|i: int|
            0 <= i < text@.len() && 'A' <= #[trigger] text@[i] && text@[i] <= 'Z' ==> small@[i] as u32
                == text@[i] as u32 + 32,
{
}

/// Texts are joined in their order: one is itself, and each further one stands behind the
/// separator.
pub proof fn joined_texts_stay_in_order(
    parts: Seq<Seq<char>>,
    part: Seq<char>,
    separator: Seq<char>,
)
    ensures
        joined(Seq::empty(), separator).len() == 0,
        joined(seq![part], separator) == part,
        parts.len() > 0 ==> joined(parts.push(part), separator) == joined(parts, separator)
            + separator + part,
{
    assert(parts.push(part).drop_last() =~= parts);
}

/// A preview of a text that is short enough is the text, and any other begins as the text
/// does and says that more follows.
pub proof fn previews_begin_as_the_text(text: Seq<char>, limit: nat)
    ensures
        byte_count(text) <= limit ==> previewed(text, limit) == text,
        byte_count(text) > limit ==> "..."@.is_suffix_of(previewed(text, limit)),
        byte_count(text) > limit ==> previewed(text, limit).len() >= 3,
        byte_count(text) > limit ==> previewed(text, limit).take(
            previewed(text, limit).len() - 3,
        ).is_prefix_of(text),
{
    reveal_strlit("...");
    if byte_count(text) > limit {
        let budget: nat = if limit >= 3 {
            (limit - 3) as nat
        } else {
            0
        };
        lemma_fitting(text, budget);
        let kept = text.take(fitting(text, budget) as int);
        let shown = previewed(text, limit);
        assert(shown == kept + "..."@);
        assert(shown.subrange(shown.len() - 3, shown.len() as int) =~= "..."@);
        assert(shown.take(shown.len() - 3) =~= kept);
        assert(text.subrange(0, kept.len() as int) =~= kept);
    }
}

}
