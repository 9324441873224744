use vstd::prelude::*;
use crate::flags::{Flags, bit_of};

verus! {

/// 8-bit add of `v` and the carry-in to `a`.
pub open spec fn add8_spec(a: u8, v: u8, cin: bool) -> (u8, Flags) {
    let sum = a as int + v as int + bit_of(cin) as int;
    (
        (sum % 256) as u8,
        Flags {
            z: sum % 256 == 0,
            n: false,
            h: (a % 16) as int + (v % 16) as int + bit_of(cin) as int > 15,
            c: sum > 255,
        },
    )
}

/// 8-bit subtract of `v` and the carry-in (as a borrow) from `a`.
pub open spec fn sub8_spec(a: u8, v: u8, cin: bool) -> (u8, Flags) {
    let diff = a as int - v as int - bit_of(cin) as int;
    (
        ((diff + 256) % 256) as u8,
        Flags {
            z: (diff + 256) % 256 == 0,
            n: true,
            h: ((a % 16) as int) < (v % 16) as int + bit_of(cin) as int,
            c: diff < 0,
        },
    )
}

pub open spec fn and8_spec(a: u8, v: u8) -> (u8, Flags) {
    (a & v, Flags { z: a & v == 0, n: false, h: false, c: false })
}

pub open spec fn or8_spec(a: u8, v: u8) -> (u8, Flags) {
    (a | v, Flags { z: a | v == 0, n: false, h: false, c: false })
}

pub open spec fn xor8_spec(a: u8, v: u8) -> (u8, Flags) {
    (a ^ v, Flags { z: a ^ v == 0, n: false, h: false, c: false })
}

/// Increment: Carry is kept from `f`.
pub open spec fn inc8_spec(v: u8, f: Flags) -> (u8, Flags) {
    let r = ((v as int + 1) % 256) as u8;
    (r, Flags { z: r == 0, n: false, h: r % 16 == 0, c: f.c })
}

/// Decrement: Carry is kept from `f`.
pub open spec fn dec8_spec(v: u8, f: Flags) -> (u8, Flags) {
    let r = ((v as int + 255) % 256) as u8;
    (r, Flags { z: r == 0, n: true, h: r % 16 == 15, c: f.c })
}

/// 16-bit add: Zero is kept from `f`, Half-carry comes out of bit 11.
pub open spec fn add16_spec(x: u16, y: u16, f: Flags) -> (u16, Flags) {
    let sum = x as int + y as int;
    (
        (sum % 65536) as u16,
        Flags { z: f.z, n: false, h: (x % 4096) as int + (y % 4096) as int > 4095, c: sum > 65535 },
    )
}

/// Rotate left, the outgoing bit 7 into Carry and into bit 0.
pub open spec fn rlc_spec(v: u8) -> (u8, Flags) {
    let r = ((v << 1u8) | (v >> 7u8)) as u8;
    (r, Flags { z: r == 0, n: false, h: false, c: v & 0x80 != 0 })
}

/// Rotate right, the outgoing bit 0 into Carry and into bit 7.
pub open spec fn rrc_spec(v: u8) -> (u8, Flags) {
    let r = ((v >> 1u8) | (v << 7u8)) as u8;
    (r, Flags { z: r == 0, n: false, h: false, c: v & 0x01 != 0 })
}

/// Rotate left through Carry: the old Carry enters bit 0.
pub open spec fn rl_spec(v: u8, cin: bool) -> (u8, Flags) {
    let r = ((v << 1u8) | bit_of(cin)) as u8;
    (r, Flags { z: r == 0, n: false, h: false, c: v & 0x80 != 0 })
}

/// Rotate right through Carry: the old Carry enters bit 7.
pub open spec fn rr_spec(v: u8, cin: bool) -> (u8, Flags) {
    let r = ((v >> 1u8) | (bit_of(cin) << 7u8)) as u8;
    (r, Flags { z: r == 0, n: false, h: false, c: v & 0x01 != 0 })
}

/// Shift left, bit 0 cleared.
pub open spec fn sla_spec(v: u8) -> (u8, Flags) {
    let r = (v << 1u8) as u8;
    (r, Flags { z: r == 0, n: false, h: false, c: v & 0x80 != 0 })
}

/// Arithmetic shift right: bit 7 is kept.
pub open spec fn sra_spec(v: u8) -> (u8, Flags) {
    let r = ((v & 0x80) | (v >> 1u8)) as u8;
    (r, Flags { z: r == 0, n: false, h: false, c: v & 0x01 != 0 })
}

/// Logical shift right: bit 7 cleared.
pub open spec fn srl_spec(v: u8) -> (u8, Flags) {
    let r = (v >> 1u8) as u8;
    (r, Flags { z: r == 0, n: false, h: false, c: v & 0x01 != 0 })
}

/// Exchange the two nibbles.
pub open spec fn swap_spec(v: u8) -> (u8, Flags) {
    let r = (((v & 0x0f) << 4u8) | ((v & 0xf0) >> 4u8)) as u8;
    (r, Flags { z: v == 0, n: false, h: false, c: false })
}

/// Test bit `b` of `v`: Zero is set when the bit is clear, Carry is kept.
pub open spec fn bit_spec(v: u8, b: u8, f: Flags) -> Flags {
    Flags { z: v & (1u8 << b) == 0, n: false, h: true, c: f.c }
}

pub open spec fn set_spec(v: u8, b: u8) -> u8 {
    v | (1u8 << b)
}

pub open spec fn res_spec(v: u8, b: u8) -> u8 {
    v & !(1u8 << b)
}

/// Decimal adjust of the accumulator after a BCD add (Subtract clear) or
/// subtract (Subtract set).
pub open spec fn daa_spec(a: u8, f: Flags) -> (u8, Flags) {
    if !f.n {
        let low = f.h || a % 16 > 9;
        let v1 = if low { (a as int + 6) % 256 } else { a as int };
        let c1 = f.c || (low && a as int + 6 > 255);
        let high = c1 || v1 > 0x9f;
        let v2 = if high { (v1 + 0x60) % 256 } else { v1 };
        let c2 = c1 || (high && v1 + 0x60 > 255);
        (v2 as u8, Flags { z: v2 == 0, n: false, h: false, c: c2 })
    } else {
        let v1 = if f.h { (a as int + 256 - 6) % 256 } else { a as int };
        let v2 = if f.c { (v1 + 256 - 0x60) % 256 } else { v1 };
        (v2 as u8, Flags { z: v2 == 0, n: true, h: false, c: f.c })
    }
}

pub fn add8(a: u8, v: u8, cin: bool) -> (r: (u8, Flags))
    ensures
        r == add8_spec(a, v, cin),
{
    let carry: u16 = if cin { 1 } else { 0 };
    let sum: u16 = a as u16 + v as u16 + carry;
    let half: u16 = (a % 16) as u16 + (v % 16) as u16 + carry;
    let r = (sum % 256) as u8;
    (r, Flags { z: r == 0, n: false, h: half > 15, c: sum > 255 })
}

pub fn sub8(a: u8, v: u8, cin: bool) -> (r: (u8, Flags))
    ensures
        r == sub8_spec(a, v, cin),
{
    let borrow: u16 = if cin { 1 } else { 0 };
    let shifted: u16 = a as u16 + 256 - v as u16 - borrow;
    let r = (shifted % 256) as u8;
    (
        r,
        Flags {
            z: r == 0,
            n: true,
            h: ((a % 16) as u16) < (v % 16) as u16 + borrow,
            c: (a as u16) < v as u16 + borrow,
        },
    )
}

pub fn and8(a: u8, v: u8) -> (r: (u8, Flags))
    ensures
        r == and8_spec(a, v),
{
    let x = a & v;
    (x, Flags { z: x == 0, n: false, h: false, c: false })
}

pub fn or8(a: u8, v: u8) -> (r: (u8, Flags))
    ensures
        r == or8_spec(a, v),
{
    let x = a | v;
    (x, Flags { z: x == 0, n: false, h: false, c: false })
}

pub fn xor8(a: u8, v: u8) -> (r: (u8, Flags))
    ensures
        r == xor8_spec(a, v),
{
    let x = a ^ v;
    (x, Flags { z: x == 0, n: false, h: false, c: false })
}

pub fn inc8(v: u8, f: Flags) -> (r: (u8, Flags))
    ensures
        r == inc8_spec(v, f),
{
    let x = ((v as u16 + 1) % 256) as u8;
    (x, Flags { z: x == 0, n: false, h: x % 16 == 0, c: f.c })
}

pub fn dec8(v: u8, f: Flags) -> (r: (u8, Flags))
    ensures
        r == dec8_spec(v, f),
{
    let x = ((v as u16 + 255) % 256) as u8;
    (x, Flags { z: x == 0, n: true, h: x % 16 == 15, c: f.c })
}

pub fn add16(x: u16, y: u16, f: Flags) -> (r: (u16, Flags))
    ensures
        r == add16_spec(x, y, f),
{
    let sum: u32 = x as u32 + y as u32;
    let half: u32 = (x % 4096) as u32 + (y % 4096) as u32;
    ((sum % 65536) as u16, Flags { z: f.z, n: false, h: half > 4095, c: sum > 65535 })
}

pub fn rlc(v: u8) -> (r: (u8, Flags))
    ensures
        r == rlc_spec(v),
{
    let x = (v << 1u8) | (v >> 7u8);
    (x, Flags { z: x == 0, n: false, h: false, c: v & 0x80 != 0 })
}

pub fn rrc(v: u8) -> (r: (u8, Flags))
    ensures
        r == rrc_spec(v),
{
    let x = (v >> 1u8) | (v << 7u8);
    (x, Flags { z: x == 0, n: false, h: false, c: v & 0x01 != 0 })
}

pub fn rl(v: u8, cin: bool) -> (r: (u8, Flags))
    ensures
        r == rl_spec(v, cin),
{
    let carry: u8 = if cin { 1 } else { 0 };
    let x = (v << 1u8) | carry;
    (x, Flags { z: x == 0, n: false, h: false, c: v & 0x80 != 0 })
}

pub fn rr(v: u8, cin: bool) -> (r: (u8, Flags))
    ensures
        r == rr_spec(v, cin),
{
    let carry: u8 = if cin { 1 } else { 0 };
    let x = (v >> 1u8) | (carry << 7u8);
    (x, Flags { z: x == 0, n: false, h: false, c: v & 0x01 != 0 })
}

pub fn sla(v: u8) -> (r: (u8, Flags))
    ensures
        r == sla_spec(v),
{
    let x = v << 1u8;
    (x, Flags { z: x == 0, n: false, h: false, c: v & 0x80 != 0 })
}

pub fn sra(v: u8) -> (r: (u8, Flags))
    ensures
        r == sra_spec(v),
{
    let x = (v & 0x80) | (v >> 1u8);
    (x, Flags { z: x == 0, n: false, h: false, c: v & 0x01 != 0 })
}

pub fn srl(v: u8) -> (r: (u8, Flags))
    ensures
        r == srl_spec(v),
{
    let x = v >> 1u8;
    (x, Flags { z: x == 0, n: false, h: false, c: v & 0x01 != 0 })
}

pub fn swap(v: u8) -> (r: (u8, Flags))
    ensures
        r == swap_spec(v),
{
    let x = ((v & 0x0f) << 4u8) | ((v & 0xf0) >> 4u8);
    (x, Flags { z: v == 0, n: false, h: false, c: false })
}

pub fn bit(v: u8, b: u8, f: Flags) -> (r: Flags)
    requires
        b < 8,
    ensures
        r == bit_spec(v, b, f),
{
    Flags { z: v & (1u8 << b) == 0, n: false, h: true, c: f.c }
}

pub fn set_bit(v: u8, b: u8) -> (r: u8)
    requires
        b < 8,
    ensures
        r == set_spec(v, b),
{
    v | (1u8 << b)
}

pub fn res_bit(v: u8, b: u8) -> (r: u8)
    requires
        b < 8,
    ensures
        r == res_spec(v, b),
{
    v & !(1u8 << b)
}

pub fn daa(a: u8, f: Flags) -> (r: (u8, Flags))
    ensures
        r == daa_spec(a, f),
{
    let mut val: u16 = a as u16;
    let mut c = f.c;
    if !f.n {
        if f.h || a % 16 > 9 {
            c = c || val + 6 > 255;
            val = (val + 6) % 256;
        }
        if c || val > 0x9f {
            c = c || val + 0x60 > 255;
            val = (val + 0x60) % 256;
        }
    } else {
        if f.h {
            val = (val + 256 - 6) % 256;
        }
        if f.c {
            val = (val + 256 - 0x60) % 256;
        }
    }
    (val as u8, Flags { z: val == 0, n: f.n, h: false, c })
}


/// A byte that holds two decimal digits, one in each nibble.
pub open spec fn is_bcd(x: u8) -> bool {
    x % 16 <= 9 && x / 16 <= 9
}

/// The number 0 to 99 that a BCD byte stands for.
pub open spec fn bcd_value(x: u8) -> int {
    (x / 16) as int * 10 + (x % 16) as int
}

/// The BCD byte of a number below 100.
pub open spec fn to_bcd(n: int) -> u8 {
    ((n / 10) * 16 + n % 10) as u8
}

/// Adding `b` and then subtracting `b`, with the same carry-in both times,
/// gives back `a`.
pub proof fn lemma_add_then_sub(a: u8, b: u8, cin: bool)
    ensures
        sub8_spec(add8_spec(a, b, cin).0, b, cin).0 == a,
{
}

/// A decimal adjust after adding two BCD bytes gives the BCD byte of the
/// decimal sum modulo 100, with Carry set when the sum reaches 100.
/// A decimal adjust after adding two BCD bytes gives the BCD byte of the
/// decimal sum modulo 100, with Carry set when the sum reaches 100.
pub proof fn lemma_daa_after_add(x: u8, y: u8)
    by (bit_vector)
    requires
        is_bcd(x),
        is_bcd(y),
    ensures
        ({
            let (s, f) = add8_spec(x, y, false);
            let (d, g) = daa_spec(s, f);
            d == to_bcd((bcd_value(x) + bcd_value(y)) % 100) && g.c == (bcd_value(x) + bcd_value(y)
                >= 100)
        }),
{
}

/// A decimal adjust after subtracting one BCD byte from another gives the
/// BCD byte of the decimal difference modulo 100, with Carry set when a
/// borrow was needed.
pub proof fn lemma_daa_after_sub(x: u8, y: u8)
    by (bit_vector)
    requires
        is_bcd(x),
        is_bcd(y),
    ensures
        ({
            let (s, f) = sub8_spec(x, y, false);
            let (d, g) = daa_spec(s, f);
            d == to_bcd((bcd_value(x) - bcd_value(y) + 100) % 100) && g.c == (bcd_value(x)
                < bcd_value(y))
        }),
{
}

/// `k` rotations left through Carry, starting from byte `v` and Carry `c`.
pub open spec fn rl_times(v: u8, c: bool, k: nat) -> (u8, bool)
    decreases k,
{
    if k == 0 {
        (v, c)
    } else {
        let (r, f) = rl_spec(v, c);
        rl_times(r, f.c, (k - 1) as nat)
    }
}

proof fn lemma_rl_step(v: u8, c: bool, k: nat)
    requires
        k > 0,
    ensures
        rl_times(v, c, k) == rl_times(((v << 1u8) | bit_of(c)) as u8, v & 0x80 != 0, (k - 1) as nat),
{
}

/// Nine rotations through Carry turn the nine bits (Carry and byte) once
/// round, and give back the byte and the Carry flag.
pub proof fn lemma_rl_nine_times(v: u8, c: bool)
    ensures
        rl_times(v, c, 9) == (v, c),
{
    let v0 = v;
    let c0 = c;
    let v1 = ((v0 << 1u8) | bit_of(c0)) as u8;
    let c1 = v0 & 0x80 != 0;
    let v2 = ((v1 << 1u8) | bit_of(c1)) as u8;
    let c2 = v1 & 0x80 != 0;
    let v3 = ((v2 << 1u8) | bit_of(c2)) as u8;
    let c3 = v2 & 0x80 != 0;
    let v4 = ((v3 << 1u8) | bit_of(c3)) as u8;
    let c4 = v3 & 0x80 != 0;
    let v5 = ((v4 << 1u8) | bit_of(c4)) as u8;
    let c5 = v4 & 0x80 != 0;
    let v6 = ((v5 << 1u8) | bit_of(c5)) as u8;
    let c6 = v5 & 0x80 != 0;
    let v7 = ((v6 << 1u8) | bit_of(c6)) as u8;
    let c7 = v6 & 0x80 != 0;
    let v8 = ((v7 << 1u8) | bit_of(c7)) as u8;
    let c8 = v7 & 0x80 != 0;
    let v9 = ((v8 << 1u8) | bit_of(c8)) as u8;
    let c9 = v8 & 0x80 != 0;
    lemma_rl_step(v0, c0, 9);
    lemma_rl_step(v1, c1, 8);
    lemma_rl_step(v2, c2, 7);
    lemma_rl_step(v3, c3, 6);
    lemma_rl_step(v4, c4, 5);
    lemma_rl_step(v5, c5, 4);
    lemma_rl_step(v6, c6, 3);
    lemma_rl_step(v7, c7, 2);
    lemma_rl_step(v8, c8, 1);
    assert(rl_times(v9, c9, 0) == (v9, c9));
    assert(v9 == v0 && c9 == c0) by (bit_vector)
        requires
            v1 == ((v0 << 1u8) | bit_of(c0)) as u8,
            c1 == (v0 & 0x80 != 0),
            v2 == ((v1 << 1u8) | bit_of(c1)) as u8,
            c2 == (v1 & 0x80 != 0),
            v3 == ((v2 << 1u8) | bit_of(c2)) as u8,
            c3 == (v2 & 0x80 != 0),
            v4 == ((v3 << 1u8) | bit_of(c3)) as u8,
            c4 == (v3 & 0x80 != 0),
            v5 == ((v4 << 1u8) | bit_of(c4)) as u8,
            c5 == (v4 & 0x80 != 0),
            v6 == ((v5 << 1u8) | bit_of(c5)) as u8,
            c6 == (v5 & 0x80 != 0),
            v7 == ((v6 << 1u8) | bit_of(c6)) as u8,
            c7 == (v6 & 0x80 != 0),
            v8 == ((v7 << 1u8) | bit_of(c7)) as u8,
            c8 == (v7 & 0x80 != 0),
            v9 == ((v8 << 1u8) | bit_of(c8)) as u8,
            c9 == (v8 & 0x80 != 0),
    ;
}

/// Eight rotations through Carry give back the byte and the Carry flag when
/// all nine bits are equal: a zero byte with Carry clear, or 0xff with Carry
/// set. (On any other input the nine bits have turned only eight places.)
pub proof fn lemma_rl_eight_times(v: u8, c: bool)
    requires
        (v == 0 && !c) || (v == 0xff && c),
    ensures
        rl_times(v, c, 8) == (v, c),
{
    let v1 = ((v << 1u8) | bit_of(c)) as u8;
    let c1 = v & 0x80 != 0;
    assert(v1 == v && c1 == c) by (bit_vector)
        requires
            (v == 0 && !c) || (v == 0xff && c),
            v1 == ((v << 1u8) | bit_of(c)) as u8,
            c1 == (v & 0x80 != 0),
    ;
    lemma_rl_fixed(v, c, 8);
}

proof fn lemma_rl_fixed(v: u8, c: bool, k: nat)
    requires
        rl_spec(v, c).0 == v,
        rl_spec(v, c).1.c == c,
    ensures
        rl_times(v, c, k) == (v, c),
    decreases k,
{
    if k > 0 {
        lemma_rl_fixed(v, c, (k - 1) as nat);
    }
}

/// Eight rotations left through Carry equal one rotation right through
/// Carry: the nine bits have turned eight of their nine places.
pub proof fn lemma_rl_eight_is_rr(v: u8, c: bool)
    ensures
        rl_times(v, c, 8) == (rr_spec(v, c).0, rr_spec(v, c).1.c),
{
    let v0 = v;
    let c0 = c;
    let v1 = ((v0 << 1u8) | bit_of(c0)) as u8;
    let c1 = v0 & 0x80 != 0;
    let v2 = ((v1 << 1u8) | bit_of(c1)) as u8;
    let c2 = v1 & 0x80 != 0;
    let v3 = ((v2 << 1u8) | bit_of(c2)) as u8;
    let c3 = v2 & 0x80 != 0;
    let v4 = ((v3 << 1u8) | bit_of(c3)) as u8;
    let c4 = v3 & 0x80 != 0;
    let v5 = ((v4 << 1u8) | bit_of(c4)) as u8;
    let c5 = v4 & 0x80 != 0;
    let v6 = ((v5 << 1u8) | bit_of(c5)) as u8;
    let c6 = v5 & 0x80 != 0;
    let v7 = ((v6 << 1u8) | bit_of(c6)) as u8;
    let c7 = v6 & 0x80 != 0;
    let v8 = ((v7 << 1u8) | bit_of(c7)) as u8;
    let c8 = v7 & 0x80 != 0;
    lemma_rl_step(v0, c0, 8);
    lemma_rl_step(v1, c1, 7);
    lemma_rl_step(v2, c2, 6);
    lemma_rl_step(v3, c3, 5);
    lemma_rl_step(v4, c4, 4);
    lemma_rl_step(v5, c5, 3);
    lemma_rl_step(v6, c6, 2);
    lemma_rl_step(v7, c7, 1);
    assert(rl_times(v8, c8, 0) == (v8, c8));
    let r = ((v0 >> 1u8) | (bit_of(c0) << 7u8)) as u8;
    let rc = v0 & 0x01 != 0;
    assert(v8 == r && c8 == rc) by (bit_vector)
        requires
            v1 == ((v0 << 1u8) | bit_of(c0)) as u8,
            c1 == (v0 & 0x80 != 0),
            v2 == ((v1 << 1u8) | bit_of(c1)) as u8,
            c2 == (v1 & 0x80 != 0),
            v3 == ((v2 << 1u8) | bit_of(c2)) as u8,
            c3 == (v2 & 0x80 != 0),
            v4 == ((v3 << 1u8) | bit_of(c3)) as u8,
            c4 == (v3 & 0x80 != 0),
            v5 == ((v4 << 1u8) | bit_of(c4)) as u8,
            c5 == (v4 & 0x80 != 0),
            v6 == ((v5 << 1u8) | bit_of(c5)) as u8,
            c6 == (v5 & 0x80 != 0),
            v7 == ((v6 << 1u8) | bit_of(c6)) as u8,
            c7 == (v6 & 0x80 != 0),
            v8 == ((v7 << 1u8) | bit_of(c7)) as u8,
            c8 == (v7 & 0x80 != 0),
            r == ((v0 >> 1u8) | (bit_of(c0) << 7u8)) as u8,
            rc == (v0 & 0x01 != 0),
    ;
}

} // verus!
