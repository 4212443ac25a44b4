//! Text that the rest of the library builds and reads: concatenation, decimal numerals,
//! substring search, and the numerals accepted from the environment.
use vstd::prelude::*;

verus! {

/// The character of one decimal digit.
pub open spec fn digit_char(d: nat) -> char {
    (48 + d) as char
}

/// The decimal numeral of a natural number, without leading zeros.
pub open spec fn decimal(n: nat) -> Seq<char>
    decreases n,
{
    if n < 10 {
        seq![digit_char(n)]
    } else {
        decimal(n / 10).push(digit_char(n % 10))
    }
}

/// The decimal numeral of an integer, with a minus sign where it is negative.
pub open spec fn signed_decimal(n: int) -> Seq<char> {
    if n < 0 {
        seq!['-'] + decimal((-n) as nat)
    } else {
        decimal(n as nat)
    }
}

/// Whether `needle` occurs in `hay` at position `at`.
pub open spec fn occurs_at(hay: Seq<char>, needle: Seq<char>, at: int) -> bool {
    0 <= at && at + needle.len() <= hay.len() && hay.subrange(at, at + needle.len()) == needle
}

/// Whether `needle` occurs somewhere in `hay`.
pub open spec fn occurs_in(hay: Seq<char>, needle: Seq<char>) -> bool {
    exists|at: int| occurs_at(hay, needle, at)
}

/// Whether a character can stand in a name: a letter, a digit or an underscore. Every character
/// beyond ASCII counts as a letter.
pub open spec fn is_identifier_char(c: char) -> bool {
    'a' <= c <= 'z' || 'A' <= c <= 'Z' || '0' <= c <= '9' || c == '_' || c as int >= 128
}

/// Whether a character has the Unicode property `White_Space`.
pub open spec fn is_white_space(c: char) -> bool {
    let v = c as int;
    ||| 0x09 <= v <= 0x0D
    ||| v == 0x20
    ||| v == 0x85
    ||| v == 0xA0
    ||| v == 0x1680
    ||| 0x2000 <= v <= 0x200A
    ||| v == 0x2028
    ||| v == 0x2029
    ||| v == 0x202F
    ||| v == 0x205F
    ||| v == 0x3000
}

/// A text without the white space at its start.
pub open spec fn trimmed_start(s: Seq<char>) -> Seq<char>
    decreases s.len(),
{
    if s.len() > 0 && is_white_space(s[0]) {
        trimmed_start(s.drop_first())
    } else {
        s
    }
}

/// A text without the white space at its end.
pub open spec fn trimmed_end(s: Seq<char>) -> Seq<char>
    decreases s.len(),
{
    if s.len() > 0 && is_white_space(s.last()) {
        trimmed_end(s.drop_last())
    } else {
        s
    }
}

/// A text without the white space at either end.
pub open spec fn trimmed(s: Seq<char>) -> Seq<char> {
    trimmed_end(trimmed_start(s))
}

/// Whether a character is one of the ten ASCII digits.
pub open spec fn is_digit(c: char) -> bool {
    '0' <= c <= '9'
}

/// The number that a sequence of decimal digits stands for.
pub open spec fn digits_value(s: Seq<char>) -> nat
    decreases s.len(),
{
    if s.len() == 0 {
        0
    } else {
        digits_value(s.drop_last()) * 10 + (s.last() as int - 48) as nat
    }
}

/// The digits of an unsigned numeral: what follows its optional plus sign.
pub open spec fn numeral_digits(s: Seq<char>) -> Seq<char> {
    if s.len() > 0 && s[0] == '+' {
        s.drop_first()
    } else {
        s
    }
}

/// The `usize` that a text stands for: an optional plus sign, then at least one digit and nothing
/// else, with a value that fits.
pub open spec fn usize_numeral(s: Seq<char>) -> Option<usize> {
    let digits = numeral_digits(s);
    if digits.len() > 0 && (forall|i: int| 0 <= i < digits.len() ==> is_digit(#[trigger] digits[i]))
        && digits_value(digits) <= usize::MAX {
        Some(digits_value(digits) as usize)
    } else {
        None
    }
}

/// Whether two texts are the same.
pub fn same_text(a: &str, b: &str) -> (r: bool)
    ensures
        r == (a@ == b@),
{
    a.to_owned() == b.to_owned()
}

/// The text of one decimal digit.
pub fn digit_text(d: u8) -> (r: &'static str)
    requires
        d < 10,
    ensures
        r@ == seq![digit_char(d as nat)],
{
    proof {
        reveal_strlit("0");
        reveal_strlit("1");
        reveal_strlit("2");
        reveal_strlit("3");
        reveal_strlit("4");
        reveal_strlit("5");
        reveal_strlit("6");
        reveal_strlit("7");
        reveal_strlit("8");
        reveal_strlit("9");
    }
    match d {
        0 => "0",
        1 => "1",
        2 => "2",
        3 => "3",
        4 => "4",
        5 => "5",
        6 => "6",
        7 => "7",
        8 => "8",
        _ => "9",
    }
}

/// Appends the decimal numeral of `n`.
pub fn push_decimal(out: &mut String, n: u128)
    ensures
        final(out)@ == old(out)@ + decimal(n as nat),
    decreases n,
{
    if n >= 10 {
        push_decimal(out, n / 10);
    }
    out.append(digit_text((n % 10) as u8));
}

/// Appends the decimal numeral of `n`, with a minus sign where it is negative.
pub fn push_signed(out: &mut String, n: i64)
    ensures
        final(out)@ == old(out)@ + signed_decimal(n as int),
{
    proof {
        reveal_strlit("-");
    }
    if n < 0 {
        out.append("-");
        push_decimal(out, (-(n as i128)) as u128);
    } else {
        push_decimal(out, n as u128);
    }
}

/// The characters of a text.
pub fn chars_of(s: &str) -> (r: Vec<char>)
    ensures
        r@ == s@,
{
    let mut out: Vec<char> = Vec::new();
    for c in it: s.chars()
        invariant
            out@ == it.seq().take(it.index() as int),
            it.seq() == s@,
    {
        out.push(c);
    }
    out
}

/// Whether `n` occurs in `h` at position `at`.
pub fn found_at(h: &Vec<char>, n: &Vec<char>, at: usize) -> (r: bool)
    ensures
        r == occurs_at(h@, n@, at as int),
{
    if at > h.len() || n.len() > h.len() - at {
        return false;
    }
    let mut i: usize = 0;
    while i < n.len() && h[at + i] == n[i]
        invariant
            i <= n@.len(),
            at + n.len() <= h.len(),
            forall|k: int| 0 <= k < i ==> h@[at + k] == n@[k],
        decreases n.len() - i,
    {
        i = i + 1;
    }
    if i == n.len() {
        assert(h@.subrange(at as int, at + n@.len()) =~= n@);
    } else {
        assert(h@.subrange(at as int, at + n@.len())[i as int] == h@[at + i]);
    }
    i == n.len()
}

/// Whether `needle` occurs in `hay`.
pub fn contains_text(hay: &str, needle: &str) -> (r: bool)
    ensures
        r == occurs_in(hay@, needle@),
{
    let h: Vec<char> = chars_of(hay);
    let n: Vec<char> = chars_of(needle);
    if n.len() > h.len() {
        return false;
    }
    let last: usize = h.len() - n.len();
    let mut at: usize = 0;
    while at < last
        invariant
            h@ == hay@,
            n@ == needle@,
            last + n.len() == h.len(),
            at <= last,
            forall|k: int| 0 <= k < at ==> !occurs_at(h@, n@, k),
        decreases last - at,
    {
        if found_at(&h, &n, at) {
            assert(occurs_at(hay@, needle@, at as int));
            return true;
        }
        at = at + 1;
    }
    let r: bool = found_at(&h, &n, last);
    assert(r ==> occurs_at(hay@, needle@, last as int));
    r
}

/// Whether a character can stand in a name.
pub fn identifier_char(c: char) -> (r: bool)
    ensures
        r == is_identifier_char(c),
{
    ('a' <= c && c <= 'z') || ('A' <= c && c <= 'Z') || ('0' <= c && c <= '9') || c == '_' || c as u32
        >= 128
}

/// Whether a character has the Unicode property `White_Space`.
pub fn white_space(c: char) -> (r: bool)
    ensures
        r == is_white_space(c),
{
    let v: u32 = c as u32;
    (0x09 <= v && v <= 0x0D) || v == 0x20 || v == 0x85 || v == 0xA0 || v == 0x1680 || (0x2000 <= v
        && v <= 0x200A) || v == 0x2028 || v == 0x2029 || v == 0x202F || v == 0x205F || v == 0x3000
}

/// More digits never make a smaller number.
proof fn lemma_digits_value_grows(s: Seq<char>, k: int)
    requires
        0 <= k <= s.len(),
    ensures
        digits_value(s.take(k)) <= digits_value(s),
    decreases s.len(),
{
    if k == s.len() {
        assert(s.take(k) =~= s);
    } else {
        assert(s.drop_last().take(k) =~= s.take(k));
        lemma_digits_value_grows(s.drop_last(), k);
    }
}

/// The number of white-space characters at the start of a text, with what is left behind them.
fn skip_white_space(v: &Vec<char>) -> (lo: usize)
    ensures
        lo <= v@.len(),
        v@.skip(lo as int) == trimmed_start(v@),
{
    let mut lo: usize = 0;
    assert(v@.skip(0) =~= v@);
    while lo < v.len() && white_space(v[lo])
        invariant
            lo <= v@.len(),
            trimmed_start(v@.skip(lo as int)) == trimmed_start(v@),
        decreases v.len() - lo,
    {
        assert(v@.skip(lo as int).drop_first() =~= v@.skip(lo + 1));
        lo = lo + 1;
    }
    lo
}

/// Where the text that starts at `lo` ends once the white space at its end is left off.
fn end_of_text(v: &Vec<char>, lo: usize) -> (hi: usize)
    requires
        lo <= v@.len(),
    ensures
        lo <= hi <= v@.len(),
        v@.subrange(lo as int, hi as int) == trimmed_end(v@.skip(lo as int)),
{
    let mut hi: usize = v.len();
    assert(v@.subrange(lo as int, hi as int) =~= v@.skip(lo as int));
    while hi > lo && white_space(v[hi - 1])
        invariant
            lo <= hi <= v@.len(),
            trimmed_end(v@.subrange(lo as int, hi as int)) == trimmed_end(v@.skip(lo as int)),
        decreases hi,
    {
        assert(v@.subrange(lo as int, hi as int).drop_last() =~= v@.subrange(
            lo as int,
            hi - 1,
        ));
        hi = hi - 1;
    }
    hi
}

/// The number that the digits from `lo` to `hi` stand for, where they are digits and it fits.
fn parse_digits(v: &Vec<char>, lo: usize, hi: usize) -> (r: Option<usize>)
    requires
        lo <= hi <= v@.len(),
    ensures
        ({
            let digits = v@.subrange(lo as int, hi as int);
            r == if digits.len() > 0 && (forall|i: int|
                0 <= i < digits.len() ==> is_digit(#[trigger] digits[i])) && digits_value(digits)
                <= usize::MAX {
                Some(digits_value(digits) as usize)
            } else {
                None
            }
        }),
{
    let ghost digits = v@.subrange(lo as int, hi as int);
    if lo == hi {
        return None;
    }
    let mut value: usize = 0;
    let mut at: usize = lo;
    assert(digits.take(0) =~= Seq::<char>::empty());
    while at < hi
        invariant
            lo <= at <= hi <= v@.len(),
            digits == v@.subrange(lo as int, hi as int),
            digits_value(digits.take(at - lo)) == value,
            forall|i: int| 0 <= i < at - lo ==> is_digit(#[trigger] digits[i]),
        decreases hi - at,
    {
        let c: char = v[at];
        assert(digits[at - lo] == c);
        if c < '0' || c > '9' {
            return None;
        }
        let d: usize = (c as u32 - 48) as usize;
        assert(digits.take(at - lo + 1).drop_last() =~= digits.take(at - lo));
        proof {
            lemma_digits_value_grows(digits, at - lo + 1);
        }
        if value > (usize::MAX - d) / 10 {
            return None;
        }
        value = value * 10 + d;
        at = at + 1;
    }
    assert(digits.take(hi - lo) =~= digits);
    Some(value)
}

/// The `usize` that a text stands for once the white space around it is left off.
pub fn parse_usize(s: &str) -> (r: Option<usize>)
    ensures
        r == usize_numeral(trimmed(s@)),
{
    let v: Vec<char> = chars_of(s);
    let lo: usize = skip_white_space(&v);
    let hi: usize = end_of_text(&v, lo);
    let ghost t = trimmed(s@);
    if lo < hi && v[lo] == '+' {
        assert(t.drop_first() =~= v@.subrange(lo + 1, hi as int));
        parse_digits(&v, lo + 1, hi)
    } else {
        parse_digits(&v, lo, hi)
    }
}

/// A text occurs in another exactly where the other is the text with something, or nothing, before
/// and behind it.
pub proof fn law_occurrence_is_a_part(hay: Seq<char>, needle: Seq<char>)
    ensures
        occurs_in(hay, needle) <==> exists|a: Seq<char>, b: Seq<char>|
            hay == #[trigger] (a + needle + b),
{
    if occurs_in(hay, needle) {
        let at = choose|at: int| occurs_at(hay, needle, at);
        let a = hay.take(at);
        let b = hay.skip(at + needle.len());
        assert(hay.subrange(at, at + needle.len()) == needle);
        assert(hay =~= a + hay.subrange(at, at + needle.len()) + b);
        assert(hay == a + needle + b);
    }
    if exists|a: Seq<char>, b: Seq<char>| hay == #[trigger] (a + needle + b) {
        let (a, b) = choose|a: Seq<char>, b: Seq<char>| hay == #[trigger] (a + needle + b);
        assert(hay.subrange(a.len() as int, (a.len() + needle.len()) as int) =~= needle);
        assert(occurs_at(hay, needle, a.len() as int));
    }
}

/// What is left off at the start of a text is white space, and what is left does not start with
/// any.
proof fn lemma_trimmed_start(s: Seq<char>) -> (a: Seq<char>)
    ensures
        s == a + trimmed_start(s),
        forall|i: int| 0 <= i < a.len() ==> is_white_space(#[trigger] a[i]),
        trimmed_start(s).len() > 0 ==> !is_white_space(trimmed_start(s)[0]),
    decreases s.len(),
{
    if s.len() > 0 && is_white_space(s[0]) {
        let a = lemma_trimmed_start(s.drop_first());
        let r = seq![s[0]] + a;
        assert(s =~= seq![s[0]] + s.drop_first());
        assert(s =~= r + trimmed_start(s));
        r
    } else {
        assert(s =~= Seq::<char>::empty() + s);
        Seq::empty()
    }
}

/// What is left off at the end of a text is white space, and what is left does not end with any.
proof fn lemma_trimmed_end(s: Seq<char>) -> (b: Seq<char>)
    ensures
        s == trimmed_end(s) + b,
        forall|i: int| 0 <= i < b.len() ==> is_white_space(#[trigger] b[i]),
        trimmed_end(s).len() > 0 ==> !is_white_space(trimmed_end(s).last()),
    decreases s.len(),
{
    if s.len() > 0 && is_white_space(s.last()) {
        let b = lemma_trimmed_end(s.drop_last());
        let r = b.push(s.last());
        assert(s =~= s.drop_last().push(s.last()));
        assert(s =~= trimmed_end(s) + r);
        r
    } else {
        assert(s =~= s + Seq::<char>::empty());
        Seq::empty()
    }
}

/// Trimming leaves off white space alone, at the two ends alone, and all of it there.
pub proof fn law_trimming_leaves_off_white_space(s: Seq<char>)
    ensures
        exists|a: Seq<char>, b: Seq<char>|
            s == #[trigger] (a + trimmed(s) + b) && (forall|i: int|
                0 <= i < a.len() ==> is_white_space(#[trigger] a[i])) && (forall|i: int|
                0 <= i < b.len() ==> is_white_space(#[trigger] b[i])),
        trimmed(s).len() > 0 ==> !is_white_space(trimmed(s)[0]) && !is_white_space(
            trimmed(s).last(),
        ),
{
    let a = lemma_trimmed_start(s);
    let u = trimmed_start(s);
    let b = lemma_trimmed_end(u);
    assert(s =~= a + trimmed(s) + b);
    if trimmed(s).len() > 0 {
        assert(u[0] == trimmed(s)[0]);
    }
}

/// The digits are written as usual.
pub proof fn law_digits_are_the_usual_ones(d: nat)
    requires
        d < 10,
    ensures
        digit_char(d) == "0123456789"@[d as int],
        decimal(d) == seq!["0123456789"@[d as int]],
{
    reveal_strlit("0123456789");
}

/// A numeral with one more digit behind it is that of ten times the number and the digit.
pub proof fn law_numerals_are_decimal(n: nat, d: nat)
    requires
        n > 0,
        d < 10,
    ensures
        decimal(10 * n + d) == decimal(n).push("0123456789"@[d as int]),
{
    reveal_strlit("0123456789");
    assert((10 * n + d) / 10 == n);
    assert((10 * n + d) % 10 == d);
}

/// A numeral reads back as its number, is made of digits, and starts with a zero only where the
/// number is zero.
pub proof fn law_numeral_reads_back(n: nat)
    ensures
        digits_value(decimal(n)) == n,
        decimal(n).len() > 0,
        forall|i: int| 0 <= i < decimal(n).len() ==> is_digit(#[trigger] decimal(n)[i]),
        n > 0 ==> decimal(n)[0] != '0',
    decreases n,
{
    reveal_with_fuel(digits_value, 2);
    if n < 10 {
        assert(decimal(n).drop_last() =~= Seq::<char>::empty());
    } else {
        law_numeral_reads_back(n / 10);
        let rest = decimal(n / 10);
        assert(decimal(n).drop_last() =~= rest);
        assert forall|i: int| 0 <= i < decimal(n).len() implies is_digit(#[trigger] decimal(n)[i]) by {
            if i < rest.len() {
                assert(decimal(n)[i] == rest[i]);
            }
        }
    }
}

/// A negative number is written with a minus sign before the numeral of its opposite.
pub proof fn law_minus_sign(n: nat)
    ensures
        signed_decimal(n as int) == decimal(n),
        n > 0 ==> signed_decimal(-n) == seq!['-'] + decimal(n),
{
}

/// A number as it may be written: with or without a plus sign, and with zeros before its numeral.
pub open spec fn written(plus: bool, zeros: nat, n: nat) -> Seq<char> {
    (if plus {
        seq!['+']
    } else {
        Seq::empty()
    }) + Seq::new(zeros, |i: int| '0') + decimal(n)
}

/// Digits are the numeral of their value with zeros before it.
proof fn lemma_digits_are_a_numeral(s: Seq<char>) -> (zeros: nat)
    requires
        s.len() > 0,
        forall|i: int| 0 <= i < s.len() ==> is_digit(#[trigger] s[i]),
    ensures
        s == Seq::new(zeros, |i: int| '0') + decimal(digits_value(s)),
    decreases s.len(),
{
    reveal_with_fuel(digits_value, 2);
    let rest = s.drop_last();
    let d: nat = (s.last() as int - 48) as nat;
    assert(is_digit(s[s.len() - 1]));
    assert(s =~= rest.push(s.last()));
    if rest.len() == 0 {
        assert(digits_value(rest) == 0);
        assert(s =~= Seq::new(0, |i: int| '0') + decimal(d));
        0
    } else {
        assert forall|i: int| 0 <= i < rest.len() implies is_digit(#[trigger] rest[i]) by {
            assert(rest[i] == s[i]);
        }
        let k = lemma_digits_are_a_numeral(rest);
        let v = digits_value(rest);
        if v > 0 {
            assert((v * 10 + d) / 10 == v && (v * 10 + d) % 10 == d);
            assert(s =~= Seq::new(k, |i: int| '0') + decimal(v * 10 + d));
            k
        } else {
            assert(decimal(0) =~= seq!['0']);
            assert(s =~= Seq::new(k + 1, |i: int| '0') + decimal(d));
            k + 1
        }
    }
}

/// Zeros before digits do not change their value.
proof fn lemma_zeros_before(zeros: nat, s: Seq<char>)
    ensures
        digits_value(Seq::new(zeros, |i: int| '0') + s) == digits_value(s),
    decreases zeros + s.len(),
{
    let z = Seq::new(zeros, |i: int| '0');
    if s.len() > 0 {
        lemma_zeros_before(zeros, s.drop_last());
        assert((z + s).drop_last() =~= z + s.drop_last());
    } else if zeros > 0 {
        lemma_zeros_before((zeros - 1) as nat, s);
        assert((z + s).drop_last() =~= Seq::new((zeros - 1) as nat, |i: int| '0') + s);
    } else {
        assert(z + s =~= s);
    }
}

/// A text stands for a number exactly where it is that number written out, with or without a plus
/// sign and with any zeros before it, and the number fits.
pub proof fn law_text_stands_for_what_it_writes(s: Seq<char>, n: nat)
    requires
        n <= usize::MAX,
    ensures
        usize_numeral(s) == Some(n as usize) <==> exists|plus: bool, zeros: nat|
            s == #[trigger] written(plus, zeros, n),
{
    if usize_numeral(s) == Some(n as usize) {
        let digits = numeral_digits(s);
        let zeros = lemma_digits_are_a_numeral(digits);
        let plus = s.len() > 0 && s[0] == '+';
        assert(digits_value(digits) == n);
        let z = Seq::new(zeros, |i: int| '0');
        if plus {
            assert(s =~= seq!['+'] + digits);
            assert(seq!['+'] + (z + decimal(n)) =~= seq!['+'] + z + decimal(n));
        } else {
            assert(Seq::<char>::empty() + z =~= z);
        }
        assert(s == written(plus, zeros, n));
    }
    if exists|plus: bool, zeros: nat| s == #[trigger] written(plus, zeros, n) {
        let (plus, zeros) = choose|plus: bool, zeros: nat| s == #[trigger] written(plus, zeros, n);
        law_numeral_reads_back(n);
        let digits = Seq::new(zeros, |i: int| '0') + decimal(n);
        lemma_zeros_before(zeros, decimal(n));
        assert forall|i: int| 0 <= i < digits.len() implies is_digit(#[trigger] digits[i]) by {
            if i >= zeros {
                assert(digits[i] == decimal(n)[i - zeros]);
            }
        }
        if plus {
            assert(s.drop_first() =~= digits);
        } else {
            assert(s =~= digits);
            assert(is_digit(digits[0]));
        }
    }
}

/// The characters of a name within ASCII are the letters, the digits and the underscore; beyond
/// ASCII they are all characters.
pub proof fn law_characters_of_a_name(c: char)
    ensures
        (c as int) < 128 ==> (is_identifier_char(c) <==> exists|i: int|
            0 <= i < 63
                && #[trigger] "0123456789ABCDEFGHIJKLMNOPQRSTUVWXYZ_abcdefghijklmnopqrstuvwxyz"@[i]
                == c),
        c as int >= 128 ==> is_identifier_char(c),
{
    let all = "0123456789ABCDEFGHIJKLMNOPQRSTUVWXYZ_abcdefghijklmnopqrstuvwxyz"@;
    reveal_strlit("0123456789ABCDEFGHIJKLMNOPQRSTUVWXYZ_abcdefghijklmnopqrstuvwxyz");
    if '0' <= c <= '9' {
        assert(all[c as int - 48] == c);
    }
    if 'A' <= c <= 'Z' {
        assert(all[c as int - 55] == c);
    }
    if c == '_' {
        assert(all[36] == c);
    }
    if 'a' <= c <= 'z' {
        assert(all[c as int - 60] == c);
    }
}

}
