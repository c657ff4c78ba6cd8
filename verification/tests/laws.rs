//! Concrete checks of the algebraic laws and arithmetic round trips.

use gates::arithmetic::add16;
use gates::arithmetic::inc16;
use gates::logic::Bit;
use gates::logic::and;
use gates::logic::and16;
use gates::logic::mux;
use gates::logic::mux16;
use gates::logic::nor;
use gates::logic::not;
use gates::logic::not16;
use gates::logic::or;
use gates::logic::or16;
use gates::logic::xor;

const BOOLS: [Bit; 2] = [false, true];

fn encode(u: u16) -> [Bit; 16] {
    let mut out: [Bit; 16] = [false; 16];
    for i in 0..16 {
        out[i] = (u >> i) & 1 == 1;
    }
    out
}

fn decode(bits: [Bit; 16]) -> u16 {
    let mut out: u16 = 0;
    for i in 0..16 {
        if bits[i] {
            out |= 1 << i;
        }
    }
    out
}

#[test]
fn test_encode_decode_round_trip() {
    for u in [0u16, 1, 2, 5, 0x00FF, 0x8000, 0xABCD, 0xFFFF] {
        assert_eq!(decode(encode(u)), u);
    }
}

#[test]
fn test_not_involution() {
    for a in BOOLS.iter() {
        assert_eq!(not(not(*a)), *a);
    }
}

#[test]
fn test_gate_commutativity() {
    for a in BOOLS.iter() {
        for b in BOOLS.iter() {
            assert_eq!(and(*a, *b), and(*b, *a));
            assert_eq!(or(*a, *b), or(*b, *a));
            assert_eq!(xor(*a, *b), xor(*b, *a));
        }
    }
}

#[test]
fn test_nor_is_negated_or() {
    for a in BOOLS.iter() {
        for b in BOOLS.iter() {
            assert_eq!(nor(*a, *b), not(or(*a, *b)));
        }
    }
}

#[test]
fn test_de_morgan() {
    for a in BOOLS.iter() {
        for b in BOOLS.iter() {
            assert_eq!(not(and(*a, *b)), or(not(*a), not(*b)));
            assert_eq!(not(or(*a, *b)), and(not(*a), not(*b)));
        }
    }
}

#[test]
fn test_lifts_are_pointwise() {
    let a = encode(0b1010_1100_0011_0101);
    let b = encode(0b0110_0101_1111_0000);
    let not_r = not16(a);
    let and_r = and16(a, b);
    let or_r = or16(a, b);
    for i in 0..16 {
        assert_eq!(not_r[i], not(a[i]));
        assert_eq!(and_r[i], and(a[i], b[i]));
        assert_eq!(or_r[i], or(a[i], b[i]));
    }
    for sel in BOOLS.iter() {
        let mux_r = mux16(a, b, *sel);
        for i in 0..16 {
            assert_eq!(mux_r[i], mux(a[i], b[i], *sel));
        }
    }
}

#[test]
fn test_add16_modular_sum() {
    let cases: [(u16, u16); 7] = [
        (0, 0),
        (1, 1),
        (0x1234, 0x4321),
        (0x00FF, 0x0001),
        (0xFFFF, 0x0001),
        (0xFFFF, 0xFFFF),
        (0x8000, 0x8000),
    ];
    for (u, v) in cases.iter() {
        assert_eq!(decode(add16(encode(*u), encode(*v))), u.wrapping_add(*v));
    }
}

#[test]
fn test_add16_zero_identity() {
    let zero = encode(0);
    for u in [0u16, 1, 0x5A5A, 0x8000, 0xFFFF] {
        let a = encode(u);
        assert_eq!(add16(a, zero), a);
    }
}

#[test]
fn test_add16_commutative() {
    let cases: [(u16, u16); 4] = [(0, 1), (0x1234, 0x4321), (0xFFFF, 2), (0x8000, 0x8000)];
    for (u, v) in cases.iter() {
        assert_eq!(add16(encode(*u), encode(*v)), add16(encode(*v), encode(*u)));
    }
}

#[test]
fn test_inc16_succ() {
    for u in [0u16, 1, 2, 0x00FF, 0x7FFF, 0xFFFE] {
        assert_eq!(decode(inc16(encode(u))), u + 1);
    }
}

#[test]
fn test_inc16_wraps_to_zero() {
    assert_eq!(inc16(encode(0xFFFF)), encode(0));
}
