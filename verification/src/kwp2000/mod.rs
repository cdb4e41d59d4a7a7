//! The KWP2000 message layer and session client.

use vstd::prelude::*;

pub mod client;
pub mod constants;
pub mod message;
pub mod raw_message;
pub mod response;

verus! {

/// Constant that is folded into the key whenever a round shifts a set top bit out.
pub const EXT_RAM_KEY: u32 = 0x5FBD5DBD;

/// Rounds of the seed-to-key transform.
pub const KEY_ROUNDS: usize = 5;

/// The 32-bit number that four bytes spell, most significant byte first.
pub open spec fn be_u32(bytes: [u8; 4]) -> u32 {
    (bytes[0] * 0x100_0000 + bytes[1] * 0x1_0000 + bytes[2] * 0x100 + bytes[3]) as u32
}

/// One round of the seed-to-key transform: shift left by one; where that
/// shifts a set bit out, set the lowest bit and fold the constant in.
pub open spec fn key_round(key: u32) -> u32 {
    if key >= 0x8000_0000 {
        ((key << 1) | 1) ^ EXT_RAM_KEY
    } else {
        key << 1
    }
}

/// `rounds` rounds of the seed-to-key transform.
pub open spec fn key_rounds(key: u32, rounds: nat) -> u32
    decreases rounds,
{
    if rounds == 0 {
        key
    } else {
        key_round(key_rounds(key, (rounds - 1) as nat))
    }
}

/// The key that answers a security-access seed.
pub open spec fn security_key(seed: [u8; 4]) -> u32 {
    key_rounds(be_u32(seed), KEY_ROUNDS as nat)
}

/// Derives the security-access key from the seed that the control unit sent.
pub fn security_key_from_seed(seed: [u8; 4]) -> (key: u32)
    ensures
        key == security_key(seed),
{
    let mut key: u32 = seed[0] as u32 * 0x100_0000 + seed[1] as u32 * 0x1_0000 + seed[2] as u32
        * 0x100 + seed[3] as u32;
    let mut round: usize = 0;
    while round < KEY_ROUNDS
        invariant
            round <= KEY_ROUNDS,
            key == key_rounds(be_u32(seed), round as nat),
        decreases KEY_ROUNDS - round,
    {
        if key >= 0x8000_0000 {
            key <<= 1;
            key |= 0x0000_0001;
            key ^= EXT_RAM_KEY;
        } else {
            key <<= 1;
        }
        round += 1;
    }
    key
}

/// The key of the all-zero seed is zero.
pub proof fn lemma_zero_seed_gives_zero_key()
    ensures
        security_key([0u8, 0u8, 0u8, 0u8]) == 0,
{
    let seed = [0u8, 0u8, 0u8, 0u8];
    assert(be_u32(seed) == 0);
    assert(key_round(0) == 0) by {
        assert(0u32 << 1 == 0) by (bit_vector);
    }
    reveal_with_fuel(key_rounds, 6);
}

/// Two to the power `exp`.
pub open spec fn two_to(exp: nat) -> nat
    decreases exp,
{
    if exp == 0 {
        1
    } else {
        2 * two_to((exp - 1) as nat)
    }
}

/// The line speed that a baud byte stands for: the top three bits are an
/// exponent, the low five a scalar less 32, and a unit is 200 baud.
pub open spec fn baud_rate(byte: u8) -> nat {
    two_to((byte / 32) as nat) * ((byte % 32) as nat + 32) * 200
}

/// Whether the scalar of `base` under the exponent `exp` lies strictly
/// between 32 and 64.
pub open spec fn baud_fits(base: nat, exp: nat) -> bool {
    32 * two_to(exp) < base < 64 * two_to(exp)
}

/// The exponent from 0 to 7 under which `base` fits, if there is one.
pub open spec fn baud_exponent(base: nat) -> Option<nat> {
    if exists|exp: nat| exp <= 7 && baud_fits(base, exp) {
        Some(choose|exp: nat| exp <= 7 && baud_fits(base, exp))
    } else {
        None
    }
}

/// The baud byte of a line speed. The speed in units of 200 baud is split
/// into the exponent under which it fits and the scalar that is left; a speed
/// that fits under no exponent keeps exponent zero and the low five bits of
/// what is left after 32 units.
pub open spec fn baud_byte(baud_rate: u32) -> u8 {
    let base = (baud_rate / 200) as nat;
    match baud_exponent(base) {
        Some(exp) => (exp * 32 + (base / two_to(exp) - 32)) as u8,
        None => ((base - 32) % 32) as u8,
    }
}

/// The values of `two_to` on the exponents of a baud byte.
pub proof fn lemma_two_to_values()
    ensures
        two_to(0) == 1,
        two_to(1) == 2,
        two_to(2) == 4,
        two_to(3) == 8,
        two_to(4) == 16,
        two_to(5) == 32,
        two_to(6) == 64,
        two_to(7) == 128,
{
    reveal_with_fuel(two_to, 9);
}

/// The ranges of the eight exponents do not overlap, so a speed fits under one
/// exponent at most and the rule of the least remainder never has to choose.
pub proof fn lemma_baud_exponent_unique(base: nat, a: nat, b: nat)
    requires
        a <= 7,
        b <= 7,
        baud_fits(base, a),
        baud_fits(base, b),
    ensures
        a == b,
{
    lemma_two_to_values();
}

/// Division by a positive unit, for a quotient between 32 and 64.
proof fn lemma_scalar_of_base(base: nat, unit: nat)
    by (nonlinear_arith)
    requires
        unit > 0,
        32 * unit < base < 64 * unit,
    ensures
        32 <= base / unit < 64,
        unit * (base / unit) <= base < unit * (base / unit) + unit,
{
}

/// A product divided by its positive first factor.
proof fn lemma_base_of_scalar(unit: nat, scalar: nat)
    by (nonlinear_arith)
    requires
        unit > 0,
        32 < scalar < 64,
    ensures
        32 * unit < unit * scalar < 64 * unit,
        (unit * scalar) / unit == scalar,
{
}

/// Encoding then decoding a line speed rounds it down to the grid of its
/// exponent: for every speed that fits under an exponent, the byte stands for
/// a speed that is not above it and less than one step of that grid, 200 baud
/// times two to the exponent, below it.
pub proof fn lemma_baud_round_trip(rate: u32)
    requires
        baud_exponent((rate / 200) as nat) is Some,
    ensures
        baud_rate(baud_byte(rate)) <= rate < baud_rate(baud_byte(rate)) + 200 * two_to(
            baud_exponent((rate / 200) as nat)->0,
        ),
{
    lemma_two_to_values();
    let base = (rate / 200) as nat;
    let exp = baud_exponent(base)->0;
    assert(exp <= 7 && baud_fits(base, exp));
    let unit = two_to(exp);
    assert(1 <= unit <= 128);
    lemma_scalar_of_base(base, unit);
    let scalar = base / unit;
    let byte = baud_byte(rate);
    assert(byte == exp * 32 + (scalar - 32));
    assert(byte / 32 == exp && byte % 32 == scalar - 32);
    assert(baud_rate(byte) == unit * scalar * 200);
}

/// Decoding then encoding gives the byte back: every baud byte whose scalar
/// is not the bare 32 is the byte of the speed it stands for, so the speeds
/// of the grid, 10400 and 38400 baud among them, survive the round trip
/// unchanged.
pub proof fn lemma_baud_byte_of_rate(byte: u8)
    requires
        byte % 32 != 0,
    ensures
        baud_rate(byte) <= u32::MAX,
        baud_exponent(baud_rate(byte) / 200) == Some((byte / 32) as nat),
        baud_byte(baud_rate(byte) as u32) == byte,
{
    lemma_two_to_values();
    let exp = (byte / 32) as nat;
    let scalar = (byte % 32) as nat + 32;
    let unit = two_to(exp);
    assert(1 <= unit <= 128);
    lemma_base_of_scalar(unit, scalar);
    let base = unit * scalar;
    assert(baud_rate(byte) == base * 200);
    assert(baud_rate(byte) / 200 == base);
    assert(baud_fits(base, exp));
    let chosen = choose|e: nat| e <= 7 && baud_fits(base, e);
    lemma_baud_exponent_unique(base, chosen, exp);
}

/// Encodes a line speed as a baud byte. Speeds below 6400 baud have no byte.
pub fn baud_rate_to_byte(baud_rate: u32) -> (byte: u8)
    requires
        baud_rate >= 6400,
    ensures
        byte == baud_byte(baud_rate),
{
    let base: u32 = baud_rate / 200;
    let mut best_exp: u32 = 0;
    let mut best_exp_result: u32 = 1;
    let mut found: bool = false;
    let mut exp: u32 = 8;
    let mut exp_result: u32 = 256;
    proof {
        lemma_two_to_values();
    }
    while exp > 0
        invariant
            exp <= 8,
            exp_result == two_to(exp as nat),
            base == baud_rate / 200,
            found ==> best_exp <= 7 && baud_fits(base as nat, best_exp as nat) && best_exp_result
                == two_to(best_exp as nat),
            !found ==> best_exp == 0 && best_exp_result == 1 && forall|e: nat|
                exp <= e <= 7 ==> !baud_fits(base as nat, e),
        decreases exp,
    {
        proof {
            lemma_two_to_values();
            assert(two_to(exp as nat) == 2 * two_to((exp - 1) as nat));
        }
        exp -= 1;
        exp_result = exp_result / 2;
        if 32 * exp_result < base && base < 64 * exp_result {
            found = true;
            best_exp = exp;
            best_exp_result = exp_result;
        }
    }
    proof {
        lemma_two_to_values();
        if found {
            let chosen = choose|e: nat| e <= 7 && baud_fits(base as nat, e);
            lemma_baud_exponent_unique(base as nat, chosen, best_exp as nat);
        }
    }
    assert(32 <= base / best_exp_result && (found ==> base / best_exp_result < 64))
        by (nonlinear_arith)
        requires
            found ==> 32 * best_exp_result < base < 64 * best_exp_result,
            !found ==> best_exp_result == 1 && base >= 32,
            best_exp_result > 0,
    ;
    let z: u32 = base / best_exp_result - 32;
    if found {
        (best_exp * 32 + z) as u8
    } else {
        (z % 32) as u8
    }
}

/// Decodes a baud byte into the line speed it stands for.
pub fn baud_rate_from_byte(byte: u8) -> (rate: u32)
    ensures
        rate == baud_rate(byte),
{
    let upper: u8 = byte / 32;
    let lower: u32 = (byte % 32) as u32;
    let mut pow: u32 = 1;
    let mut i: u8 = 0;
    while i < upper
        invariant
            i <= upper <= 7,
            pow == two_to(i as nat),
            pow <= 128,
        decreases upper - i,
    {
        proof {
            lemma_two_to_values();
        }
        pow = pow * 2;
        i += 1;
    }
    assert(pow * (lower + 32) <= 128 * 63) by (nonlinear_arith)
        requires
            pow <= 128,
            lower <= 31,
    ;
    pow * (lower + 32) * 200
}

} // verus!
