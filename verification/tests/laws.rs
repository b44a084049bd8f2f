use ml_kem::algebra::{FieldElement, NttMatrix, NttPolynomial, NttVector, Polynomial};
use ml_kem::encode::{byte_decode, byte_encode};

// a small generator of its own, so that the inputs are the same on every run
struct Lcg(u64);

impl Lcg {
    fn next(&mut self) -> u64 {
        self.0 = self.0.wrapping_mul(6364136223846793005).wrapping_add(1442695040888963407);
        self.0 >> 33
    }

    fn element(&mut self, below: u64) -> FieldElement {
        FieldElement((self.next() % below) as u16)
    }

    fn polynomial(&mut self) -> Polynomial {
        Polynomial(core::array::from_fn(|_| self.element(3329)))
    }

    fn ntt_polynomial(&mut self) -> NttPolynomial {
        NttPolynomial(core::array::from_fn(|_| self.element(3329)))
    }

    fn vector<const K: usize>(&mut self) -> NttVector<K> {
        NttVector(core::array::from_fn(|_| self.ntt_polynomial()))
    }

    fn matrix<const K: usize>(&mut self) -> NttMatrix<K> {
        NttMatrix(core::array::from_fn(|_| self.vector()))
    }
}

fn reference_mul(lhs: &Polynomial, rhs: &Polynomial) -> Polynomial {
    let mut out = [0u64; 256];
    for i in 0..256 {
        for j in 0..256 {
            let term = u64::from(lhs.0[i].0) * u64::from(rhs.0[j].0) % 3329;
            if i + j < 256 {
                out[i + j] = (out[i + j] + term) % 3329;
            } else {
                out[i + j - 256] = (out[i + j - 256] + 3329 - term) % 3329;
            }
        }
    }
    Polynomial(core::array::from_fn(|i| FieldElement(out[i] as u16)))
}

fn canonical(values: &[FieldElement]) -> bool {
    values.iter().all(|v| v.0 < 3329)
}

#[test]
fn outputs_are_canonical() {
    let mut rng = Lcg(1);
    for _ in 0..8 {
        let (p, q) = (rng.polynomial(), rng.polynomial());
        assert!(canonical(&(&p + &q).0));
        assert!(canonical(&(&p - &q).0));
        assert!(canonical(&(rng.element(3329) * &p).0));
        let (p_hat, q_hat) = (p.ntt(), q.ntt());
        assert!(canonical(&p_hat.0));
        assert!(canonical(&(&p_hat * &q_hat).0));
        assert!(canonical(&(&p_hat + &q_hat).0));
        assert!(canonical(&p_hat.ntt_inverse().0));
    }
    // decoding gives canonical values whatever the bytes are
    let bytes: Vec<u8> = (0..384).map(|_| rng.next() as u8).collect();
    assert!(canonical(&byte_decode::<12>(&bytes).unwrap()));
    assert!(canonical(&byte_decode::<11>(&bytes[..352]).unwrap()));
    assert!(canonical(&byte_decode::<1>(&bytes[..32]).unwrap()));
}

fn round_trip<const D: usize>(rng: &mut Lcg) {
    let below = if D == 12 { 3329 } else { 1 << D };
    let vals: [FieldElement; 256] = core::array::from_fn(|_| rng.element(below));
    let enc = byte_encode::<D>(&vals);
    assert_eq!(enc.len(), 32 * D);
    assert_eq!(byte_decode::<D>(&enc), Ok(vals));
    // the largest values
    let top = [FieldElement((below - 1) as u16); 256];
    assert_eq!(byte_decode::<D>(&byte_encode::<D>(&top)), Ok(top));
}

#[test]
fn decoding_undoes_encoding() {
    let mut rng = Lcg(2);
    round_trip::<1>(&mut rng);
    round_trip::<4>(&mut rng);
    round_trip::<5>(&mut rng);
    round_trip::<6>(&mut rng);
    round_trip::<10>(&mut rng);
    round_trip::<11>(&mut rng);
    round_trip::<12>(&mut rng);
}

#[test]
fn inverse_transform_undoes_transform() {
    let mut rng = Lcg(3);
    for _ in 0..8 {
        let p = rng.polynomial();
        assert_eq!(p.ntt().ntt_inverse(), p);
    }
    let top = Polynomial([FieldElement(3328); 256]);
    assert_eq!(top.ntt().ntt_inverse(), top);
}

#[test]
fn transform_is_additive() {
    let mut rng = Lcg(4);
    for _ in 0..8 {
        let (p, q) = (rng.polynomial(), rng.polynomial());
        assert_eq!((&p + &q).ntt(), &p.ntt() + &q.ntt());
    }
}

#[test]
fn transform_is_multiplicative() {
    let mut rng = Lcg(5);
    for _ in 0..4 {
        let (p, q) = (rng.polynomial(), rng.polynomial());
        assert_eq!((&p.ntt() * &q.ntt()).ntt_inverse(), reference_mul(&p, &q));
    }
    // X^255 * X = X^256 = -1
    let mut x255 = Polynomial::default();
    x255.0[255] = FieldElement(1);
    let mut x1 = Polynomial::default();
    x1.0[1] = FieldElement(1);
    let mut minus_one = Polynomial::default();
    minus_one.0[0] = FieldElement(3328);
    assert_eq!((&x255.ntt() * &x1.ntt()).ntt_inverse(), minus_one);
}

#[test]
fn transposing_twice_changes_nothing() {
    let mut rng = Lcg(6);
    let a: NttMatrix<3> = rng.matrix();
    assert_eq!(a.transpose().transpose(), a);
    let t = a.transpose();
    for i in 0..3 {
        for j in 0..3 {
            assert_eq!(t.0[i].0[j], a.0[j].0[i]);
        }
    }
    let b: NttMatrix<1> = rng.matrix();
    assert_eq!(b.transpose(), b);
}

#[test]
fn matrix_times_vector_is_additive() {
    let mut rng = Lcg(7);
    let a: NttMatrix<3> = rng.matrix();
    let b: NttMatrix<3> = rng.matrix();
    let u: NttVector<3> = rng.vector();
    let v: NttVector<3> = rng.vector();
    assert_eq!(&a * &(&u + &v), &(&a * &u) + &(&a * &v));
    let a_plus_b = NttMatrix(core::array::from_fn(|i| &a.0[i] + &b.0[i]));
    assert_eq!(&a_plus_b * &v, &(&a * &v) + &(&b * &v));
}

#[test]
fn inner_product_sums_the_products() {
    let mut rng = Lcg(8);
    let u: NttVector<4> = rng.vector();
    let v: NttVector<4> = rng.vector();
    let mut expected = NttPolynomial::default();
    for i in 0..4 {
        expected = &expected + &(&u.0[i] * &v.0[i]);
    }
    assert_eq!(&u * &v, expected);
    let empty_u: NttVector<0> = NttVector([]);
    let empty_v: NttVector<0> = NttVector([]);
    assert_eq!(&empty_u * &empty_v, NttPolynomial::default());
}

fn bits_match<const D: usize>(rng: &mut Lcg) {
    let below = if D == 12 { 3329 } else { 1 << D };
    let vals: [FieldElement; 256] = core::array::from_fn(|_| rng.element(below));
    let enc = byte_encode::<D>(&vals);
    for n in 0..256 * D {
        let stream_bit = (enc[n / 8] >> (n % 8)) & 1;
        let value_bit = (vals[n / D].0 >> (n % D)) & 1;
        assert_eq!(u16::from(stream_bit), value_bit);
    }
}

#[test]
fn encoding_is_bit_by_bit() {
    let mut rng = Lcg(9);
    bits_match::<1>(&mut rng);
    bits_match::<4>(&mut rng);
    bits_match::<5>(&mut rng);
    bits_match::<6>(&mut rng);
    bits_match::<10>(&mut rng);
    bits_match::<11>(&mut rng);
    bits_match::<12>(&mut rng);
}
