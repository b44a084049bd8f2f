use ml_kem::algebra::{FieldElement, NttPolynomial, Polynomial};
use ml_kem::zeta::{GAMMA, ZETA_POW_BITREV};

const Q: u32 = 3329;

#[test]
fn small_reduce_subtracts_once() {
    assert_eq!(FieldElement::small_reduce(0), 0);
    assert_eq!(FieldElement::small_reduce(3328), 3328);
    assert_eq!(FieldElement::small_reduce(3329), 0);
    assert_eq!(FieldElement::small_reduce(6657), 3328);
}

#[test]
fn barrett_reduce_is_the_residue() {
    for x in [0u32, 1, 3328, 3329, 3330, 6657, 6658, 16_777_215, 16_777_216] {
        assert_eq!(u32::from(FieldElement::barrett_reduce(x)), x % Q);
    }
    // the ends of the range, and every value around a multiple of q near them
    assert_eq!(FieldElement::barrett_reduce(3328 * 3328), 1);
    assert_eq!(u32::from(FieldElement::barrett_reduce(2 * 3329 * 3329 - 1)), Q - 1);
    for x in (2 * 3329 * 3329 - 10_000)..(2 * 3329 * 3329) {
        assert_eq!(u32::from(FieldElement::barrett_reduce(x)), x % Q);
    }
}

#[test]
fn field_arithmetic_exact_values() {
    assert_eq!(FieldElement(3328) + FieldElement(1), FieldElement(0));
    assert_eq!(FieldElement(3328) + FieldElement(3328), FieldElement(3327));
    assert_eq!(FieldElement(0) - FieldElement(1), FieldElement(3328));
    assert_eq!(FieldElement(5) - FieldElement(5), FieldElement(0));
    assert_eq!(FieldElement(0) - FieldElement(3328), FieldElement(1));
    assert_eq!(FieldElement(3328) * FieldElement(3328), FieldElement(1));
    assert_eq!(FieldElement(17) * FieldElement(17), FieldElement(289));
    assert_eq!(FieldElement(1729) * FieldElement(1729), FieldElement(3328));
    assert_eq!(FieldElement(128) * FieldElement(3303), FieldElement(1));
    assert_eq!(FieldElement::default(), FieldElement(0));
}

#[test]
fn field_arithmetic_is_canonical_everywhere_on_a_grid() {
    for a in (0..3329u16).step_by(37).chain([3328]) {
        for b in (0..3329u16).step_by(41).chain([3328]) {
            let (x, y) = (FieldElement(a), FieldElement(b));
            let (a32, b32) = (u32::from(a), u32::from(b));
            assert_eq!(u32::from((x + y).0), (a32 + b32) % Q);
            assert_eq!(u32::from((x - y).0), (a32 + Q - b32) % Q);
            assert_eq!(u32::from((x * y).0), (a32 * b32) % Q);
        }
    }
}

#[test]
fn base_case_multiply_formula() {
    // (3 + 5X)(7 + 11X) mod X^2 - 17 = 21 + 55*17 + (33 + 35)X
    let (c0, c1) = FieldElement::base_case_multiply(
        FieldElement(3),
        FieldElement(5),
        FieldElement(7),
        FieldElement(11),
        0,
    );
    assert_eq!(c0, FieldElement((21 + 55 * 17) % 3329));
    assert_eq!(c1, FieldElement(68));

    // with the largest values and the last constant
    let g = u64::from(GAMMA[127]);
    let (c0, c1) = FieldElement::base_case_multiply(
        FieldElement(3328),
        FieldElement(3328),
        FieldElement(3328),
        FieldElement(3328),
        127,
    );
    assert_eq!(u64::from(c0.0), (3328 * 3328 + 3328 * 3328 * g) % 3329);
    assert_eq!(u64::from(c1.0), (2 * 3328 * 3328) % 3329);
}

fn pow_mod(base: u64, exp: u32) -> u64 {
    (0..exp).fold(1, |acc, _| acc * base % 3329)
}

fn bit_reverse_7(i: usize) -> u32 {
    (0..7).fold(0, |acc, bit| (acc << 1) | ((i as u32 >> bit) & 1))
}

#[test]
fn twiddle_tables_are_powers_of_17() {
    for i in 0..128 {
        assert_eq!(u64::from(ZETA_POW_BITREV[i]), pow_mod(17, bit_reverse_7(i)));
        assert_eq!(u64::from(GAMMA[i]), pow_mod(17, 2 * bit_reverse_7(i) + 1));
    }
}

#[test]
fn ntt_of_a_constant_repeats_it_in_every_pair() {
    let mut p = Polynomial::default();
    p.0[0] = FieldElement(5);
    let p_hat = p.ntt();
    for i in 0..128 {
        assert_eq!(p_hat.0[2 * i], FieldElement(5));
        assert_eq!(p_hat.0[2 * i + 1], FieldElement(0));
    }
}

#[test]
fn ntt_evaluates_at_the_roots() {
    // pair i of the transform holds f modulo X^2 - GAMMA[i]
    let f = Polynomial(core::array::from_fn(|i| FieldElement(((i * i + 3) % 3329) as u16)));
    let f_hat = f.ntt();
    for i in 0..128 {
        let g = u64::from(GAMMA[i]);
        for k in 0..2 {
            let mut acc = 0u64;
            let mut power = 1u64;
            for m in 0..128 {
                acc = (acc + u64::from(f.0[2 * m + k].0) * power) % 3329;
                power = power * g % 3329;
            }
            assert_eq!(u64::from(f_hat.0[2 * i + k].0), acc);
        }
    }
}

#[test]
fn ntt_inverse_of_zero_and_default() {
    let zero = NttPolynomial::default();
    assert_eq!(zero.ntt_inverse(), Polynomial::default());
    assert_eq!(Polynomial::default().ntt(), zero);
    let from_array: NttPolynomial = [FieldElement(0); 256].into();
    assert_eq!(from_array, zero);
}
