//! Deterministic value generation: a 64-bit mixer, the fractions drawn from it, and the attempt
//! identifiers built with it.
use crate::text::digit_text;
#[allow(unused_imports)]
use crate::text::digit_char;
use vstd::prelude::*;

verus! {

/// The mixer: three rounds, each of which can be undone.
pub open spec fn mixed(value: u64) -> u64 {
    let a: u64 = value.wrapping_add(0x9E37_79B9_7F4A_7C15);
    let b: u64 = (a ^ (a >> 30)).wrapping_mul(0xBF58_476D_1CE4_E5B9);
    let c: u64 = (b ^ (b >> 27)).wrapping_mul(0x94D0_49BB_1331_11EB);
    c ^ (c >> 31)
}

/// The mixer applied `n` times.
pub open spec fn mixed_times(state: u64, n: nat) -> u64
    decreases n,
{
    if n == 0 {
        state
    } else {
        mixed(mixed_times(state, (n - 1) as nat))
    }
}

/// The numerator, over two to the power of 53, of the fraction that a seed gives at `shift`.
pub open spec fn fraction_of(seed: u64, shift: u32) -> u64 {
    mixed(seed ^ (shift as u64)) >> 11
}

/// The character of one hexadecimal digit, in upper case.
pub open spec fn hex_char(d: nat) -> char {
    if d < 10 {
        digit_char(d)
    } else {
        (55 + d) as char
    }
}

/// The clock reading as the mixer takes it: its low 64 bits, or 0 where the clock has none.
pub open spec fn clock_bits(nanos: Option<u128>) -> u64 {
    match nanos {
        Some(n) => (n % 0x1_0000_0000_0000_0000) as u64,
        None => 0,
    }
}

/// The state from which the digits of an attempt identifier are drawn.
pub open spec fn attempt_seed(nanos: Option<u128>, pid: u32, pass: usize) -> u64 {
    mixed(clock_bits(nanos) ^ ((pid as u64) << 32) ^ (pass as u64))
}

/// The `k`th hexadecimal digit of the attempt identifier drawn from `seed`.
pub open spec fn attempt_digit(seed: u64, k: int) -> char {
    hex_char(((mixed_times(seed, (k + 1) as nat) >> 59) & 0xF) as nat)
}

/// Whether an attempt identifier has a hyphen at position `i`.
pub open spec fn is_hyphen_position(i: int) -> bool {
    i == 8 || i == 13 || i == 18 || i == 23
}

/// Which digit of an attempt identifier stands at position `i`.
pub open spec fn digit_index(i: int) -> int {
    if i < 8 {
        i
    } else if i < 13 {
        i - 1
    } else if i < 18 {
        i - 2
    } else if i < 23 {
        i - 3
    } else {
        i - 4
    }
}

/// The attempt identifier drawn from `seed`: 32 hexadecimal digits in groups of 8, 4, 4, 4 and 12.
pub open spec fn attempt_id(seed: u64) -> Seq<char> {
    Seq::new(
        36,
        |i: int|
            if is_hyphen_position(i) {
                '-'
            } else {
                attempt_digit(seed, digit_index(i))
            },
    )
}

/// Whether a text has the shape of a UUID written in upper case.
pub open spec fn is_upper_uuid(s: Seq<char>) -> bool {
    &&& s.len() == 36
    &&& forall|i: int|
        0 <= i < 36 ==> if is_hyphen_position(i) {
            #[trigger] s[i] == '-'
        } else {
            '0' <= s[i] <= '9' || 'A' <= s[i] <= 'F'
        }
}

/// Mixes 64 bits.
pub fn mix64(value: u64) -> (r: u64)
    ensures
        r == mixed(value),
{
    let mut x: u64 = value.wrapping_add(0x9E37_79B9_7F4A_7C15);
    x = (x ^ (x >> 30)).wrapping_mul(0xBF58_476D_1CE4_E5B9);
    x = (x ^ (x >> 27)).wrapping_mul(0x94D0_49BB_1331_11EB);
    x ^ (x >> 31)
}

/// The numerator, over two to the power of 53, of the fraction that a seed gives at `shift`.
pub fn unit_fraction(seed: u64, shift: u32) -> (r: u64)
    ensures
        r == fraction_of(seed, shift),
        r < 0x20_0000_0000_0000,
{
    let m: u64 = mix64(seed ^ (shift as u64));
    assert(m >> 11 < 0x20_0000_0000_0000u64) by (bit_vector);
    m >> 11
}

/// The text of one hexadecimal digit, in upper case.
pub fn hex_digit_text(d: u8) -> (r: &'static str)
    requires
        d < 16,
    ensures
        r@ == seq![hex_char(d as nat)],
{
    proof {
        reveal_strlit("A");
        reveal_strlit("B");
        reveal_strlit("C");
        reveal_strlit("D");
        reveal_strlit("E");
        reveal_strlit("F");
    }
    match d {
        10 => "A",
        11 => "B",
        12 => "C",
        13 => "D",
        14 => "E",
        15 => "F",
        _ => digit_text(d),
    }
}

/// How many characters of an attempt identifier its first `n` digits take, with the hyphens
/// between them.
spec fn attempt_width(n: int) -> int {
    n + (if n > 8 { 1int } else { 0 }) + (if n > 12 { 1int } else { 0 }) + (if n > 16 {
        1int
    } else {
        0
    }) + (if n > 20 { 1int } else { 0 })
}

/// The identifier of one attempt, drawn from the clock (nanoseconds since the epoch, where it has
/// a reading), the process and the pass: a UUID in shape, written in upper case.
pub fn synthetic_attempt_id(nanos: Option<u128>, pid: u32, pass: usize) -> (r: String)
    ensures
        r@ == attempt_id(attempt_seed(nanos, pid, pass)),
        is_upper_uuid(r@),
{
    let low: u64 = match nanos {
        Some(n) => (n % 0x1_0000_0000_0000_0000) as u64,
        None => 0,
    };
    let mut state: u64 = mix64(low ^ ((pid as u64) << 32) ^ (pass as u64));
    let ghost seed = attempt_seed(nanos, pid, pass);
    proof {
        reveal_strlit("-");
        lemma_attempt_id_shape(seed);
    }
    let mut out: String = String::new();
    let mut position: u32 = 0;
    while position < 32
        invariant
            position <= 32,
            "-"@ == seq!['-'],
            state == mixed_times(seed, position as nat),
            out@ =~= attempt_id(seed).take(attempt_width(position as int)),
        decreases 32 - position,
    {
        if position == 8 || position == 12 || position == 16 || position == 20 {
            out.append("-");
        }
        state = mix64(state);
        let top: u64 = state >> 59;
        assert(top & 0xF < 16) by (bit_vector);
        out.append(hex_digit_text((top & 0xF) as u8));
        assert(out@.last() == attempt_digit(seed, position as int));
        assert(out@ =~= attempt_id(seed).take(attempt_width(position + 1)));
        position = position + 1;
    }
    assert(attempt_id(seed).take(36) =~= attempt_id(seed));
    out
}

/// The attempt identifiers have the shape of upper-case UUIDs.
proof fn lemma_attempt_id_shape(seed: u64)
    ensures
        is_upper_uuid(attempt_id(seed)),
{
    assert forall|i: int| 0 <= i < 36 && !is_hyphen_position(i) implies ('0'
        <= #[trigger] attempt_id(seed)[i] <= '9' || 'A' <= attempt_id(seed)[i] <= 'F') by {
        let m: u64 = mixed_times(seed, (digit_index(i) + 1) as nat);
        assert((m >> 59) & 0xF < 16) by (bit_vector);
    }
}

/// Multiplying by an odd constant, modulo two to the power of 64, loses nothing: `k` is the
/// constant's inverse.
proof fn lemma_multiply_undone(x: u64, c: u64, k: u64, q: int)
    requires
        c * k == 1 + 0x1_0000_0000_0000_0000 * q,
    ensures
        (x.wrapping_mul(c) * k) % 0x1_0000_0000_0000_0000 == x,
{
    let m: int = 0x1_0000_0000_0000_0000;
    let p: int = (x * c) % m;
    let t: int = (x * c) / m;
    assert(x * c == m * t + p) by {
        vstd::arithmetic::div_mod::lemma_fundamental_div_mod(x * c, m);
    }
    assert(p * k == m * (x * q - t * k) + x) by (nonlinear_arith)
        requires
            x * c == m * t + p,
            c * k == 1 + m * q,
    ;
    vstd::arithmetic::div_mod::lemma_mod_multiples_vanish(x * q - t * k, x as int, m);
}

/// The mixer loses nothing: two values that mix to the same value are the same.
pub proof fn law_mix64_injective(a: u64, b: u64)
    requires
        mixed(a) == mixed(b),
    ensures
        a == b,
{
    let a1: u64 = a.wrapping_add(0x9E37_79B9_7F4A_7C15);
    let b1: u64 = b.wrapping_add(0x9E37_79B9_7F4A_7C15);
    let a2: u64 = (a1 ^ (a1 >> 30)).wrapping_mul(0xBF58_476D_1CE4_E5B9);
    let b2: u64 = (b1 ^ (b1 >> 30)).wrapping_mul(0xBF58_476D_1CE4_E5B9);
    let a3: u64 = (a2 ^ (a2 >> 27)).wrapping_mul(0x94D0_49BB_1331_11EB);
    let b3: u64 = (b2 ^ (b2 >> 27)).wrapping_mul(0x94D0_49BB_1331_11EB);
    assert(a3 ^ (a3 >> 31) == b3 ^ (b3 >> 31) ==> a3 == b3) by (bit_vector);
    lemma_multiply_undone(
        a2 ^ (a2 >> 27),
        0x94D0_49BB_1331_11EB,
        0x3196_42b2_d24d_8ec3,
        2077064247507883091,
    );
    lemma_multiply_undone(
        b2 ^ (b2 >> 27),
        0x94D0_49BB_1331_11EB,
        0x3196_42b2_d24d_8ec3,
        2077064247507883091,
    );
    assert(a2 ^ (a2 >> 27) == b2 ^ (b2 >> 27));
    assert(a2 ^ (a2 >> 27) == b2 ^ (b2 >> 27) ==> a2 == b2) by (bit_vector);
    lemma_multiply_undone(
        a1 ^ (a1 >> 30),
        0xBF58_476D_1CE4_E5B9,
        0x96de_1b17_3f11_9089,
        8125545580553827436,
    );
    lemma_multiply_undone(
        b1 ^ (b1 >> 30),
        0xBF58_476D_1CE4_E5B9,
        0x96de_1b17_3f11_9089,
        8125545580553827436,
    );
    assert(a1 ^ (a1 >> 30) == b1 ^ (b1 >> 30));
    assert(a1 ^ (a1 >> 30) == b1 ^ (b1 >> 30) ==> a1 == b1) by (bit_vector);
}

/// At one clock reading and in one process, two passes never start from the same state.
pub proof fn law_passes_draw_apart(nanos: Option<u128>, pid: u32, pass: usize, other: usize)
    requires
        pass != other,
    ensures
        attempt_seed(nanos, pid, pass) != attempt_seed(nanos, pid, other),
{
    let base: u64 = clock_bits(nanos) ^ ((pid as u64) << 32);
    let p: u64 = pass as u64;
    let o: u64 = other as u64;
    assert(base ^ p == base ^ o ==> p == o) by (bit_vector);
    if attempt_seed(nanos, pid, pass) == attempt_seed(nanos, pid, other) {
        law_mix64_injective(base ^ p, base ^ o);
    }
}

/// A fraction is the top 53 bits of what is mixed.
pub proof fn law_fraction_is_the_top_of_the_mix(seed: u64, shift: u32)
    ensures
        fraction_of(seed, shift) == mixed(seed ^ (shift as u64)) / 2048,
{
    let m: u64 = mixed(seed ^ (shift as u64));
    assert(m >> 11 == m / 2048) by (bit_vector);
}

/// At one clock reading and in one pass, two processes never start from the same state.
pub proof fn law_processes_draw_apart(nanos: Option<u128>, pid: u32, other: u32, pass: usize)
    requires
        pid != other,
    ensures
        attempt_seed(nanos, pid, pass) != attempt_seed(nanos, other, pass),
{
    let c: u64 = clock_bits(nanos);
    let s: u64 = pass as u64;
    let p: u64 = pid as u64;
    let o: u64 = other as u64;
    assert(c ^ (p << 32) ^ s == c ^ (o << 32) ^ s ==> p == o) by (bit_vector)
        requires
            p <= 0xffff_ffff,
            o <= 0xffff_ffff,
    ;
    if attempt_seed(nanos, pid, pass) == attempt_seed(nanos, other, pass) {
        law_mix64_injective(c ^ (p << 32) ^ s, c ^ (o << 32) ^ s);
    }
}

/// In one process and pass, two clock readings start from the same state exactly where they agree
/// in their low 64 bits; an unread clock counts as a reading of zero.
pub proof fn law_clock_readings_draw_apart(nanos: u128, other: u128, pid: u32, pass: usize)
    ensures
        attempt_seed(Some(nanos), pid, pass) == attempt_seed(Some(other), pid, pass) <==> nanos
            % 0x1_0000_0000_0000_0000 == other % 0x1_0000_0000_0000_0000,
        attempt_seed(None, pid, pass) == attempt_seed(Some(0), pid, pass),
{
    let a: u64 = clock_bits(Some(nanos));
    let b: u64 = clock_bits(Some(other));
    let p: u64 = (pid as u64) << 32;
    let s: u64 = pass as u64;
    assert(a ^ p ^ s == b ^ p ^ s ==> a == b) by (bit_vector);
    if attempt_seed(Some(nanos), pid, pass) == attempt_seed(Some(other), pid, pass) {
        law_mix64_injective(a ^ p ^ s, b ^ p ^ s);
    }
}

/// The digits of an attempt identifier from `from` up to `to`.
pub open spec fn digit_group(seed: u64, from: int, to: int) -> Seq<char> {
    Seq::new((to - from) as nat, |i: int| attempt_digit(seed, from + i))
}

/// An attempt identifier is its 32 digits in order, in groups of 8, 4, 4, 4 and 12.
pub proof fn law_attempt_id_is_its_digits_in_groups(seed: u64)
    ensures
        attempt_id(seed) == digit_group(seed, 0, 8) + seq!['-'] + digit_group(seed, 8, 12) + seq![
            '-',
        ] + digit_group(seed, 12, 16) + seq!['-'] + digit_group(seed, 16, 20) + seq!['-']
            + digit_group(seed, 20, 32),
{
    assert(attempt_id(seed) =~= digit_group(seed, 0, 8) + seq!['-'] + digit_group(seed, 8, 12)
        + seq!['-'] + digit_group(seed, 12, 16) + seq!['-'] + digit_group(seed, 16, 20) + seq!['-']
        + digit_group(seed, 20, 32));
}

/// Each digit of an attempt identifier is the one that the four bits below the top bit of the state
/// stand for, and the state is mixed once for every digit.
pub proof fn law_attempt_digits_are_drawn_in_turn(seed: u64, k: nat)
    ensures
        attempt_digit(seed, k as int) == "0123456789ABCDEF"@[(mixed_times(seed, k + 1)
            / 0x800_0000_0000_0000) as int % 16],
        mixed_times(seed, 0) == seed,
        mixed_times(seed, k + 1) == mixed(mixed_times(seed, k)),
{
    reveal_strlit("0123456789ABCDEF");
    let m: u64 = mixed_times(seed, k + 1);
    assert((m >> 59) & 0xF == (m / 0x800_0000_0000_0000) % 16) by (bit_vector);
}

/// What `synthetic_attempt_id` hands back has the shape of a UUID, is drawn from the clock, the
/// process and the pass, and is its digits in groups.
pub proof fn law_attempt_is_identified(nanos: Option<u128>, pid: u32, pass: usize, r: String)
    requires
        call_ensures(synthetic_attempt_id, (nanos, pid, pass), r),
    ensures
        is_upper_uuid(r@),
        ({
            let seed = attempt_seed(nanos, pid, pass);
            r@ == digit_group(seed, 0, 8) + seq!['-'] + digit_group(seed, 8, 12) + seq!['-']
                + digit_group(seed, 12, 16) + seq!['-'] + digit_group(seed, 16, 20) + seq!['-']
                + digit_group(seed, 20, 32)
        }),
{
    law_attempt_id_is_its_digits_in_groups(attempt_seed(nanos, pid, pass));
}

/// The state that an attempt is drawn from is the mix of the clock's low 64 bits, of the process in
/// the upper half and of the pass.
pub proof fn law_attempt_is_drawn_from_clock_process_and_pass(nanos: u128, pid: u32, pass: usize)
    ensures
        attempt_seed(Some(nanos), pid, pass) == mixed(
            ((nanos % 0x1_0000_0000_0000_0000) as u64) ^ ((pid * 0x1_0000_0000) as u64) ^ (
            pass as u64),
        ),
{
    let p: u64 = pid as u64;
    assert(p << 32 == p * 0x1_0000_0000) by (bit_vector)
        requires
            p <= 0xffff_ffff,
    ;
}

}
