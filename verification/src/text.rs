//! Text the client writes: numbers spelled out, names trimmed, sentences put
//! together from pieces.

use vstd::prelude::*;

verus! {

/// `String::push` appends one character to the end of the string.
pub assume_specification[ String::push ](s: &mut String, ch: char)
    ensures
        final(s)@ == old(s)@.push(ch),
;

/// Comparing two string slices for equality tells whether they hold the same
/// characters in the same order.
pub assume_specification[ <str as PartialEq>::eq ](s: &str, other: &str) -> (res: bool)
    ensures
        res == (s@ == other@),
;

/// Whether two texts are the same.
pub fn same_text(a: &str, b: &str) -> (same: bool)
    ensures
        same == (a@ == b@),
{
    *a == *b
}

// ------------------------------------------------------------------ order

/// Whether a text stands before another in a sorted list: at the first place
/// where they differ it has the lesser character, or it ends there.
pub open spec fn before(a: Seq<char>, b: Seq<char>) -> bool
    decreases a.len(),
{
    if b.len() == 0 {
        false
    } else if a.len() == 0 {
        true
    } else if a[0] == b[0] {
        before(a.drop_first(), b.drop_first())
    } else {
        (a[0] as int) < (b[0] as int)
    }
}

fn code_point(c: char) -> (n: u32)
    ensures
        n == c as int,
{
    c as u32
}

/// Whether a text stands before another in a sorted list.
pub fn stands_before(a: &str, b: &str) -> (yes: bool)
    ensures
        yes == before(a@, b@),
{
    let left = chars_of(a);
    let right = chars_of(b);
    let mut i: usize = 0;
    assert(a@.skip(0) =~= a@);
    assert(b@.skip(0) =~= b@);
    while i < left.len() && i < right.len() && left[i] == right[i]
        invariant
            left@ == a@,
            right@ == b@,
            i <= left@.len(),
            i <= right@.len(),
            before(a@, b@) == before(a@.skip(i as int), b@.skip(i as int)),
        decreases left.len() - i,
    {
        assert(a@.skip(i as int).drop_first() =~= a@.skip(i + 1));
        assert(b@.skip(i as int).drop_first() =~= b@.skip(i + 1));
        i += 1;
    }
    if i >= right.len() {
        false
    } else if i >= left.len() {
        true
    } else {
        code_point(left[i]) < code_point(right[i])
    }
}

/// The order is one: no text stands before itself, of two different ones
/// exactly one stands before the other, and what stands before a text stands
/// before all that follows it.
pub proof fn texts_are_in_order(a: Seq<char>, b: Seq<char>, c: Seq<char>)
    ensures
        !before(a, a),
        a != b ==> before(a, b) != before(b, a),
        before(a, b) && before(b, c) ==> before(a, c),
    decreases a.len(),
{
    if a.len() > 0 {
        let rest = |s: Seq<char>| if s.len() > 0 {
            s.drop_first()
        } else {
            s
        };
        texts_are_in_order(rest(a), rest(b), rest(c));
        if b.len() > 0 && a[0] == b[0] && a.drop_first() == b.drop_first() {
            assert(a =~= seq![a[0]] + a.drop_first());
            assert(b =~= seq![b[0]] + b.drop_first());
        }
    } else if b.len() == 0 {
        assert(a =~= b);
    }
}

// ---------------------------------------------------------------- numbers

/// The character of a hexadecimal digit, lowercase past nine.
pub open spec fn digit(d: int) -> char {
    if d == 0 { '0' } else if d == 1 { '1' } else if d == 2 { '2' } else if d == 3 { '3' }
    else if d == 4 { '4' } else if d == 5 { '5' } else if d == 6 { '6' } else if d == 7 { '7' }
    else if d == 8 { '8' } else if d == 9 { '9' } else if d == 10 { 'a' } else if d == 11 { 'b' }
    else if d == 12 { 'c' } else if d == 13 { 'd' } else if d == 14 { 'e' } else { 'f' }
}

/// A number in decimal, without leading zeros.
pub open spec fn decimal(n: nat) -> Seq<char>
    decreases n,
{
    if n < 10 {
        seq![digit(n as int)]
    } else {
        decimal(n / 10).push(digit((n % 10) as int))
    }
}

/// The last `width` decimal digits of a number, zeros included.
pub open spec fn decimal_fixed(n: nat, width: nat) -> Seq<char>
    decreases width,
{
    if width == 0 {
        Seq::empty()
    } else {
        decimal_fixed(n / 10, (width - 1) as nat).push(digit((n % 10) as int))
    }
}

/// The last `width` hexadecimal digits of a number, zeros included.
pub open spec fn hex_fixed(n: nat, width: nat) -> Seq<char>
    decreases width,
{
    if width == 0 {
        Seq::empty()
    } else {
        hex_fixed(n / 16, (width - 1) as nat).push(digit((n % 16) as int))
    }
}

fn digit_char(d: u64) -> (c: char)
    requires
        d < 16,
    ensures
        c == digit(d as int),
{
    match d {
        0 => '0',
        1 => '1',
        2 => '2',
        3 => '3',
        4 => '4',
        5 => '5',
        6 => '6',
        7 => '7',
        8 => '8',
        9 => '9',
        10 => 'a',
        11 => 'b',
        12 => 'c',
        13 => 'd',
        14 => 'e',
        _ => 'f',
    }
}

/// Appends a number in decimal.
pub fn push_decimal(out: &mut String, n: u64)
    ensures
        final(out)@ == old(out)@ + decimal(n as nat),
    decreases n,
{
    if n < 10 {
        out.push(digit_char(n));
    } else {
        push_decimal(out, n / 10);
        out.push(digit_char(n % 10));
    }
    assert(out@ =~= old(out)@ + decimal(n as nat));
}

/// Appends the last `width` decimal digits of a number.
pub fn push_decimal_fixed(out: &mut String, n: u64, width: u32)
    ensures
        final(out)@ == old(out)@ + decimal_fixed(n as nat, width as nat),
    decreases width,
{
    if width > 0 {
        push_decimal_fixed(out, n / 10, width - 1);
        out.push(digit_char(n % 10));
    }
    assert(out@ =~= old(out)@ + decimal_fixed(n as nat, width as nat));
}

/// Appends the last `width` hexadecimal digits of a number.
pub fn push_hex_fixed(out: &mut String, n: u64, width: u32)
    ensures
        final(out)@ == old(out)@ + hex_fixed(n as nat, width as nat),
    decreases width,
{
    if width > 0 {
        push_hex_fixed(out, n / 16, width - 1);
        out.push(digit_char(n % 16));
    }
    assert(out@ =~= old(out)@ + hex_fixed(n as nat, width as nat));
}

// ------------------------------------------------------------- characters

/// The characters that separate words: the Unicode White_Space property.
pub open spec fn white_space(c: char) -> bool {
    let n = c as int;
    ||| 0x9 <= n <= 0xd
    ||| n == 0x20
    ||| n == 0x85
    ||| n == 0xa0
    ||| n == 0x1680
    ||| 0x2000 <= n <= 0x200a
    ||| n == 0x2028
    ||| n == 0x2029
    ||| n == 0x202f
    ||| n == 0x205f
    ||| n == 0x3000
}

pub fn is_white_space(c: char) -> (b: bool)
    ensures
        b == white_space(c),
        b <==> c as int == 0x20 || 0x9 <= c as int <= 0xd || c as int == 0x85 || c as int == 0xa0
            || c as int == 0x1680 || 0x2000 <= c as int <= 0x200a || 0x2028 <= c as int <= 0x2029
            || c as int == 0x202f || c as int == 0x205f || c as int == 0x3000,
{
    let n: u32 = c as u32;
    (0x9 <= n && n <= 0xd) || n == 0x20 || n == 0x85 || n == 0xa0 || n == 0x1680 || (0x2000 <= n
        && n <= 0x200a) || n == 0x2028 || n == 0x2029 || n == 0x202f || n == 0x205f || n == 0x3000
}

/// The characters of a string, in order.
pub fn chars_of(s: &str) -> (v: Vec<char>)
    ensures
        v@ == s@,
{
    let mut v: Vec<char> = Vec::new();
    for c in it: s.chars()
        invariant
            v@ == it.seq().take(it.index()),
            it.seq() == s@,
    {
        v.push(c);
    }
    v
}

/// A string of the given characters.
pub fn string_of(chars: &Vec<char>) -> (s: String)
    ensures
        s@ == chars@,
{
    let mut s = String::new();
    let mut i: usize = 0;
    while i < chars.len()
        invariant
            i <= chars.len(),
            s@ == chars@.take(i as int),
        decreases chars.len() - i,
    {
        s.push(chars[i]);
        i += 1;
    }
    assert(chars@.take(chars.len() as int) =~= chars@);
    s
}

// ---------------------------------------------------------------- trimming

/// What is left once leading white space is dropped.
pub open spec fn trim_start(s: Seq<char>) -> Seq<char>
    decreases s.len(),
{
    if s.len() > 0 && white_space(s[0]) {
        trim_start(s.drop_first())
    } else {
        s
    }
}

/// What is left once trailing white space is dropped.
pub open spec fn trim_end(s: Seq<char>) -> Seq<char>
    decreases s.len(),
{
    if s.len() > 0 && white_space(s.last()) {
        trim_end(s.drop_last())
    } else {
        s
    }
}

/// What is left once white space is dropped from both ends.
pub open spec fn trimmed(s: Seq<char>) -> Seq<char> {
    trim_end(trim_start(s))
}

/// The text without the white space around it.
pub fn trim(s: &str) -> (t: String)
    ensures
        t@ == trimmed(s@),
{
    let all = chars_of(s);
    let mut from: usize = 0;
    assert(s@.skip(0) =~= s@);
    while from < all.len() && is_white_space(all[from])
        invariant
            all@ == s@,
            from <= all.len(),
            trim_start(s@) == trim_start(s@.skip(from as int)),
        decreases all.len() - from,
    {
        assert(s@.skip(from as int).drop_first() =~= s@.skip(from + 1));
        from += 1;
    }
    let ghost left = s@.skip(from as int);
    assert(trim_start(s@) == left);
    let mut to: usize = all.len();
    assert(left.take(left.len() as int) =~= left);
    while to > from && is_white_space(all[to - 1])
        invariant
            all@ == s@,
            from <= to <= all.len(),
            left == s@.skip(from as int),
            trim_end(left) == trim_end(left.take(to - from)),
        decreases to,
    {
        assert(left.take(to - from).drop_last() =~= left.take(to - from - 1));
        to -= 1;
    }
    assert(left.take(to - from) =~= s@.subrange(from as int, to as int));
    let kept: Vec<char> = part(&all, from, to);
    string_of(&kept)
}

/// The characters from `from` up to `to`.
pub fn part(all: &Vec<char>, from: usize, to: usize) -> (kept: Vec<char>)
    requires
        from <= to <= all.len(),
    ensures
        kept@ == all@.subrange(from as int, to as int),
{
    let mut kept: Vec<char> = Vec::new();
    let mut i: usize = from;
    while i < to
        invariant
            from <= i <= to <= all.len(),
            kept@ == all@.subrange(from as int, i as int),
        decreases to - i,
    {
        kept.push(all[i]);
        i += 1;
    }
    kept
}

/// Trimming is settled in one go: trimming what has been trimmed changes
/// nothing.
pub proof fn trimming_twice_is_trimming_once(s: Seq<char>)
    ensures
        trimmed(trimmed(s)) == trimmed(s),
{
    let a = trim_start(s);
    lemma_trim_start_head(s);
    lemma_trim_end_keeps_head(a);
    lemma_trim_end_tail(a);
}

proof fn lemma_trim_start_head(s: Seq<char>)
    ensures
        trim_start(s).len() > 0 ==> !white_space(trim_start(s)[0]),
    decreases s.len(),
{
    if s.len() > 0 && white_space(s[0]) {
        lemma_trim_start_head(s.drop_first());
    }
}

proof fn lemma_trim_end_keeps_head(s: Seq<char>)
    ensures
        trim_end(s).len() > 0 ==> trim_end(s)[0] == s[0],
        trim_end(s).len() <= s.len(),
    decreases s.len(),
{
    if s.len() > 0 && white_space(s.last()) {
        lemma_trim_end_keeps_head(s.drop_last());
    }
}

proof fn lemma_trim_end_tail(s: Seq<char>)
    ensures
        trim_end(s).len() > 0 ==> !white_space(trim_end(s).last()),
    decreases s.len(),
{
    if s.len() > 0 && white_space(s.last()) {
        lemma_trim_end_tail(s.drop_last());
    }
}

// ----------------------------------------------------------------------- laws

/// At the first place where two texts differ the lesser character comes first,
/// and a text comes before every longer one it begins.
pub proof fn the_lesser_character_comes_first(
    head: Seq<char>,
    c: char,
    d: char,
    one: Seq<char>,
    other: Seq<char>,
)
    ensures
        (c as int) < (d as int) ==> before(head + seq![c] + one, head + seq![d] + other),
        (c as int) > (d as int) ==> !before(head + seq![c] + one, head + seq![d] + other),
        before(head, head + seq![c] + one),
        !before(head + seq![c] + one, head),
    decreases head.len(),
{
    let a = head + seq![c] + one;
    let b = head + seq![d] + other;
    if head.len() > 0 {
        let rest = head.drop_first();
        the_lesser_character_comes_first(rest, c, d, one, other);
        assert(a.drop_first() =~= rest + seq![c] + one);
        assert(b.drop_first() =~= rest + seq![d] + other);
    }
}

/// The ten digits and the six letters after them are the characters of their
/// own values, in order.
pub proof fn a_digit_is_its_value(d: int)
    ensures
        0 <= d < 10 ==> digit(d) as int == '0' as int + d,
        10 <= d < 16 ==> digit(d) as int == 'a' as int + d - 10,
{
}

/// A digit written behind a number is ten times that number and the digit, in
/// decimal; a fixed number of digits keeps zeros in front.
pub proof fn a_number_is_its_digits(n: nat, d: nat, width: nat)
    requires
        d < 10,
    ensures
        decimal(d) == seq![digit(d as int)],
        n > 0 ==> decimal(10 * n + d) == decimal(n).push(digit(d as int)),
        decimal_fixed(n, 0).len() == 0,
        decimal_fixed(10 * n + d, width + 1) == decimal_fixed(n, width).push(digit(d as int)),
{
    assert((10 * n + d) / 10 == n && (10 * n + d) % 10 == d);
}

/// The same in hexadecimal, where a digit is worth sixteen.
pub proof fn a_hexadecimal_number_is_its_digits(n: nat, d: nat, width: nat)
    requires
        d < 16,
    ensures
        hex_fixed(n, 0).len() == 0,
        hex_fixed(16 * n + d, width + 1) == hex_fixed(n, width).push(digit(d as int)),
{
    assert((16 * n + d) / 16 == n && (16 * n + d) % 16 == d);
}

proof fn lemma_trim_start_cuts(s: Seq<char>) -> (from: int)
    ensures
        0 <= from <= s.len(),
        trim_start(s) == s.skip(from),
        forall|k: int| 0 <= k < from ==> white_space(#[trigger] s[k]),
        from < s.len() ==> !white_space(s[from]),
    decreases s.len(),
{
    if s.len() > 0 && white_space(s[0]) {
        let rest = s.drop_first();
        let at = lemma_trim_start_cuts(rest);
        assert(rest.skip(at) =~= s.skip(at + 1));
        assert forall|k: int| 0 <= k < at + 1 implies white_space(#[trigger] s[k]) by {
            if k > 0 {
                assert(rest[k - 1] == s[k]);
            }
        }
        at + 1
    } else {
        assert(s.skip(0) =~= s);
        0
    }
}

proof fn lemma_trim_end_cuts(s: Seq<char>) -> (to: int)
    ensures
        0 <= to <= s.len(),
        trim_end(s) == s.take(to),
        forall|k: int| to <= k < s.len() ==> white_space(#[trigger] s[k]),
        to > 0 ==> !white_space(s[to - 1]),
    decreases s.len(),
{
    if s.len() > 0 && white_space(s.last()) {
        let rest = s.drop_last();
        let at = lemma_trim_end_cuts(rest);
        assert(rest.take(at) =~= s.take(at));
        assert forall|k: int| at <= k < s.len() implies white_space(#[trigger] s[k]) by {
            if k < rest.len() {
                assert(rest[k] == s[k]);
            }
        }
        at
    } else {
        assert(s.take(s.len() as int) =~= s);
        s.len() as int
    }
}

/// Trimming drops white space and nothing else, from the ends and from nowhere
/// else: what is left stands between the two, and neither begins nor ends with
/// any.
pub proof fn trimming_drops_white_space_at_the_ends(s: Seq<char>) -> (ends: (int, int))
    ensures
        0 <= ends.0 <= ends.1 <= s.len(),
        trimmed(s) == s.subrange(ends.0, ends.1),
        forall|k: int| 0 <= k < ends.0 ==> white_space(#[trigger] s[k]),
        forall|k: int| ends.1 <= k < s.len() ==> white_space(#[trigger] s[k]),
        trimmed(s).len() > 0 ==> !white_space(trimmed(s)[0]) && !white_space(trimmed(s).last()),
{
    let from = lemma_trim_start_cuts(s);
    let left = s.skip(from);
    let to = lemma_trim_end_cuts(left);
    assert(left.take(to) =~= s.subrange(from, from + to));
    assert forall|k: int| from + to <= k < s.len() implies white_space(#[trigger] s[k]) by {
        assert(left[k - from] == s[k]);
    }
    (from, from + to)
}

} // verus!
