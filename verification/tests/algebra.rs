use ml_kem::algebra::{
    FieldElement, Integer, NttMatrix, NttPolynomial, NttVector, Polynomial, PolynomialVector,
};
use ml_kem::crypto::{B32, PRF, XOF};
use ml_kem::util::Flatten;

// Multiplication in R_q, modulo X^256 + 1
fn reference_mul(lhs: &Polynomial, rhs: &Polynomial) -> Polynomial {
    let mut out = Polynomial::default();
    for (i, x) in lhs.0.iter().enumerate() {
        for (j, y) in rhs.0.iter().enumerate() {
            let (sign, index) = if i + j < 256 {
                (FieldElement(1), i + j)
            } else {
                (FieldElement(FieldElement::Q - 1), i + j - 256)
            };

            out.0[index] = out.0[index] + (sign * *x * *y);
        }
    }
    out
}

// A polynomial with only a scalar component, to make simple test cases
fn const_ntt(x: Integer) -> NttPolynomial {
    let mut p = Polynomial::default();
    p.0[0] = FieldElement(x);
    p.ntt()
}

fn ramp(step: usize) -> Polynomial {
    Polynomial(core::array::from_fn(|i| FieldElement((step * i) as Integer)))
}

#[test]
fn polynomial_ops() {
    let f = ramp(1);
    let g = ramp(2);
    let sum = ramp(3);
    assert_eq!((&f + &g), sum);
    assert_eq!((&sum - &g), f);
    assert_eq!(FieldElement(3) * &f, sum);
}

#[test]
fn ntt() {
    let f = ramp(1);
    let g = ramp(2);
    let f_hat = f.ntt();
    let g_hat = g.ntt();

    // Verify that NTT and NTT^-1 are actually inverses
    let f_unhat = f_hat.ntt_inverse();
    assert_eq!(f, f_unhat);

    // Verify that NTT is a homomorphism with regard to addition
    let fg = &f + &g;
    let f_hat_g_hat = &f_hat + &g_hat;
    let fg_unhat = f_hat_g_hat.ntt_inverse();
    assert_eq!(fg, fg_unhat);

    // Verify that NTT is a homomorphism with regard to multiplication
    let fg = reference_mul(&f, &g);
    let f_hat_g_hat = &f_hat * &g_hat;
    let fg_unhat = f_hat_g_hat.ntt_inverse();
    assert_eq!(fg, fg_unhat);
}

#[test]
fn ntt_vector() {
    // Verify vector addition
    let v1 = NttVector([const_ntt(1), const_ntt(1), const_ntt(1)]);
    let v2 = NttVector([const_ntt(2), const_ntt(2), const_ntt(2)]);
    let v3 = NttVector([const_ntt(3), const_ntt(3), const_ntt(3)]);
    assert_eq!((&v1 + &v2), v3);

    // Verify dot product
    assert_eq!((&v1 * &v2), const_ntt(6));
    assert_eq!((&v1 * &v3), const_ntt(9));
    assert_eq!((&v2 * &v3), const_ntt(18));
}

#[test]
fn ntt_matrix() {
    // Verify matrix multiplication by a vector
    let a = NttMatrix([
        NttVector([const_ntt(1), const_ntt(2), const_ntt(3)]),
        NttVector([const_ntt(4), const_ntt(5), const_ntt(6)]),
        NttVector([const_ntt(7), const_ntt(8), const_ntt(9)]),
    ]);
    let v_in = NttVector([const_ntt(1), const_ntt(2), const_ntt(3)]);
    let v_out = NttVector([const_ntt(14), const_ntt(32), const_ntt(50)]);
    assert_eq!(&a * &v_in, v_out);

    // Verify transpose
    let a_t = NttMatrix([
        NttVector([const_ntt(1), const_ntt(4), const_ntt(7)]),
        NttVector([const_ntt(2), const_ntt(5), const_ntt(8)]),
        NttVector([const_ntt(3), const_ntt(6), const_ntt(9)]),
    ]);
    assert_eq!(a.transpose(), a_t);
}

// To verify the accuracy of sampling, we use a theorem related to the law of large numbers,
// which bounds the convergence of the Kullback-Liebler distance between the empirical
// distribution and the hypothesized distribution.
//
// Theorem (Cover & Thomas, 1991, Theorem 12.2.1): Let $X_1, \ldots, X_n$ be i.i.d. $~P(x)$.
// Then:
//
//   Pr{ D(P_{x^n} || P) > \epsilon } \leq 2^{ -n ( \epsilon - |X|^{ log(n+1) / n } ) }
//
// So if we test by computing D(P_{x^n} || P) and requiring the value to be below a threshold
// \epsilon, then an unbiased sampling should pass with overwhelming probability 1 - 2^{-k},
// for some k based on \epsilon, |X|, and n.
//
// Taking epsilon = 2.05 makes us conservative enough in all cases, without significantly
// increasing the probability of false negatives.
const KL_THRESHOLD: f64 = 2.05;

// The centered binomial distributions are calculated as:
//
//   bin_\eta(k) = (2\eta \choose k + \eta) 2^{-2\eta}
//
// for k in $-\eta, \ldots, \eta$.  The cases of interest here are \eta = 2, 3.
type Distribution = [f64; Q_SIZE];
const Q_SIZE: usize = FieldElement::Q as usize;
const CBD2: Distribution = {
    let mut dist = [0.0; Q_SIZE];
    dist[Q_SIZE - 2] = 1.0 / 16.0;
    dist[Q_SIZE - 1] = 4.0 / 16.0;
    dist[0] = 6.0 / 16.0;
    dist[1] = 4.0 / 16.0;
    dist[2] = 1.0 / 16.0;
    dist
};
const CBD3: Distribution = {
    let mut dist = [0.0; Q_SIZE];
    dist[Q_SIZE - 3] = 1.0 / 64.0;
    dist[Q_SIZE - 2] = 6.0 / 64.0;
    dist[Q_SIZE - 1] = 15.0 / 64.0;
    dist[0] = 20.0 / 64.0;
    dist[1] = 15.0 / 64.0;
    dist[2] = 6.0 / 64.0;
    dist[3] = 1.0 / 64.0;
    dist
};
const UNIFORM: Distribution = [1.0 / (FieldElement::Q as f64); Q_SIZE];

fn kl_divergence(p: &Distribution, q: &Distribution) -> f64 {
    p.iter()
        .zip(q.iter())
        .map(|(p, q)| if *p == 0.0 { 0.0 } else { p * (p / q).log2() })
        .sum()
}

fn test_sample(sample: &[FieldElement], ref_dist: &Distribution) {
    // Verify data and compute the empirical distribution
    let mut sample_dist: Distribution = [0.0; Q_SIZE];
    let bump: f64 = 1.0 / (sample.len() as f64);
    for x in sample {
        assert!(x.0 < FieldElement::Q);
        assert!(ref_dist[x.0 as usize] > 0.0);

        sample_dist[x.0 as usize] += bump;
    }

    let d = kl_divergence(&sample_dist, ref_dist);
    assert!(d < KL_THRESHOLD);
}

#[test]
fn sample_uniform() {
    // We require roughly Q/2 samples to verify the uniform distribution.  This is because for
    // M < N, the uniform distribution over a subset of M elements has KL distance:
    //
    //   M sum(p * log(q / p)) = log(q / p) = log(N / M)
    //
    // Since Q ~= 2^11 and 256 == 2^8, we need 2^3 == 8 runs of 256 to get out of the bad
    // regime and get a meaningful measurement.
    let rho: B32 = [0u8; 32];
    let sample: [[FieldElement; 256]; 8] = core::array::from_fn(|i| {
        let mut xof = XOF(&rho, 0, i as u8);
        NttPolynomial::sample_uniform(&mut xof).unwrap().0
    });

    test_sample(&sample.flatten(), &UNIFORM);
}

#[test]
fn sample_cbd() {
    // Eta = 2
    let sigma: B32 = [0u8; 32];
    let prf_output = PRF::<2>(&sigma, 0);
    let sample = Polynomial::sample_cbd::<2>(&prf_output).0;
    test_sample(&sample, &CBD2);

    // Eta = 3
    let sigma: B32 = [0u8; 32];
    let prf_output = PRF::<3>(&sigma, 0);
    let sample = Polynomial::sample_cbd::<3>(&prf_output).0;
    test_sample(&sample, &CBD3);
}

#[test]
fn sample_cbd_vector_uses_consecutive_counters() {
    let sigma: B32 = [7u8; 32];
    let v = PolynomialVector::<3>::sample_cbd::<2>(&sigma, 5);
    for i in 0..3u8 {
        let expected = Polynomial::sample_cbd::<2>(&PRF::<2>(&sigma, 5 + i));
        assert_eq!(v.0[i as usize], expected);
    }

    // up to the last value of the counter
    let v = PolynomialVector::<3>::sample_cbd::<3>(&sigma, 253);
    for i in 0..3u8 {
        let expected = Polynomial::sample_cbd::<3>(&PRF::<3>(&sigma, 253 + i));
        assert_eq!(v.0[i as usize], expected);
    }
    assert_ne!(v.0[0], v.0[1]);
}
