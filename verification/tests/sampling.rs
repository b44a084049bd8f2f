use ml_kem::algebra::{FieldElement, NttMatrix, NttPolynomial, NttVector, Polynomial};
use ml_kem::crypto::{B32, PRF, XOF};
use ml_kem::sampling::FieldElementReader;
use sha3::digest::{ExtendableOutput, Update, XofReader};

// the candidates below q of a stream, in order, worked out apart from the library
fn accepted(stream: &[u8]) -> Vec<FieldElement> {
    let mut out = Vec::new();
    for b in stream.chunks(3) {
        let d1 = u16::from(b[0]) | ((u16::from(b[1]) & 0x0f) << 8);
        let d2 = (u16::from(b[1]) >> 4) | (u16::from(b[2]) << 4);
        if d1 < 3329 {
            out.push(FieldElement(d1));
        }
        if d2 < 3329 {
            out.push(FieldElement(d2));
        }
    }
    out
}

fn shake128(input: &[u8], len: usize) -> Vec<u8> {
    let mut h = sha3::Shake128::default();
    h.update(input);
    let mut out = vec![0u8; len];
    h.finalize_xof().read(&mut out);
    out
}

fn expected_sample(rho: &B32, i: u8, j: u8) -> NttPolynomial {
    let mut input = rho.to_vec();
    input.push(i);
    input.push(j);
    let all = accepted(&shake128(&input, 96 * 20));
    NttPolynomial(core::array::from_fn(|k| all[k]))
}

#[test]
fn uniform_sample_is_the_first_accepted_candidates() {
    let rho: B32 = core::array::from_fn(|i| i as u8);
    for (i, j) in [(0u8, 0u8), (1, 2), (2, 1), (255, 7)] {
        let mut xof = XOF(&rho, i, j);
        let sample = NttPolynomial::sample_uniform(&mut xof);
        assert_eq!(sample, Some(expected_sample(&rho, i, j)));
    }
}

#[test]
fn reader_delivers_the_accepted_candidates_one_by_one() {
    let rho: B32 = [1u8; 32];
    let mut input = rho.to_vec();
    input.extend_from_slice(&[8, 9]);
    let all = accepted(&shake128(&input, 96 * 30));

    let mut xof = XOF(&rho, 8, 9);
    let mut reader = FieldElementReader::new(&mut xof);
    // well past one sample, over several refills of the buffer
    for expected in all.iter().take(1000) {
        assert_eq!(reader.next(&mut xof), Some(*expected));
    }
}

#[test]
fn uniform_sample_goes_on_where_the_stream_stands() {
    // a second sample from the same stream begins at the block after the last one read
    let rho: B32 = [9u8; 32];
    let mut xof = XOF(&rho, 3, 4);
    let first = NttPolynomial::sample_uniform(&mut xof).unwrap();
    let second = NttPolynomial::sample_uniform(&mut xof).unwrap();

    let mut input = rho.to_vec();
    input.extend_from_slice(&[3, 4]);
    let stream = shake128(&input, 96 * 40);
    // the least number of blocks that hold 256 accepted candidates
    let blocks = (1..).find(|n| accepted(&stream[..96 * n]).len() >= 256).unwrap();
    let all = accepted(&stream[..96 * blocks]);
    assert_eq!(&first.0[..], &all[..256]);
    let rest = accepted(&stream[96 * blocks..]);
    assert_eq!(&second.0[..], &rest[..256]);
}

#[test]
fn matrix_entries_come_from_the_streams_of_their_indices() {
    let rho: B32 = [42u8; 32];
    let a = NttMatrix::<3>::sample_uniform(&rho, false).unwrap();
    let a_t = NttMatrix::<3>::sample_uniform(&rho, true).unwrap();
    for i in 0..3u8 {
        for j in 0..3u8 {
            assert_eq!(a.0[i as usize].0[j as usize], expected_sample(&rho, i, j));
            assert_eq!(a_t.0[i as usize].0[j as usize], expected_sample(&rho, j, i));
        }
    }
    assert_eq!(a.transpose(), a_t);
    let row = NttVector::<3>::sample_uniform(&rho, 2, false).unwrap();
    assert_eq!(row, a.0[2]);
    let row = NttVector::<3>::sample_uniform(&rho, 2, true).unwrap();
    assert_eq!(row, a_t.0[2]);
}

#[test]
fn prf_is_shake256_of_seed_and_counter() {
    let sigma: B32 = core::array::from_fn(|i| (3 * i) as u8);
    let mut input = sigma.to_vec();
    input.push(200);
    let mut expected = vec![0u8; 192];
    let mut h = sha3::Shake256::default();
    h.update(&input);
    h.finalize_xof().read(&mut expected);
    assert_eq!(PRF::<3>(&sigma, 200), expected);
    assert_eq!(PRF::<2>(&sigma, 200), &expected[..128]);
    assert_ne!(PRF::<2>(&sigma, 201), &expected[..128]);
}

#[test]
fn cbd_counts_ones() {
    // eta = 2: each nibble is two bits minus two bits
    let mut bytes = [0u8; 128];
    bytes[0] = 0b1100_0011; // x = 3, y = 0 gives 2; x = 0, y = 3 gives -2
    bytes[1] = 0b0110_1001; // x = 1, y = 2 gives 0; x = 2, y = 1 gives 0
    bytes[2] = 0b0100_0001; // x = 1, y = 0 gives 1; x = 0, y = 1 gives -1
    let p = Polynomial::sample_cbd::<2>(&bytes);
    let head: Vec<u16> = p.0[..6].iter().map(|c| c.0).collect();
    assert_eq!(head, [2, 3327, 0, 0, 1, 3328]);
    assert!(p.0[6..].iter().all(|c| c.0 == 0));

    // eta = 3: values of six bits; three bytes hold four of them
    let mut bytes = [0u8; 192];
    // values 0b000_111 (3), 0b111_000 (-3), 0b010_101 (1), 0b111_111 (0), packed from the low bits
    let packed: u32 = 0b000_111 | (0b111_000 << 6) | (0b010_101 << 12) | (0b111_111 << 18);
    bytes[..3].copy_from_slice(&packed.to_le_bytes()[..3]);
    let p = Polynomial::sample_cbd::<3>(&bytes);
    let head: Vec<u16> = p.0[..4].iter().map(|c| c.0).collect();
    assert_eq!(head, [3, 3326, 1, 0]);
}

fn count(sample: &[FieldElement], value: u16) -> usize {
    sample.iter().filter(|c| c.0 == value).count()
}

#[test]
fn cbd_weights_are_binomial() {
    // every value of four bits once, then zeros
    let mut vals = [FieldElement(0); 256];
    for v in 0..16 {
        vals[v] = FieldElement(v as u16);
    }
    let p = Polynomial::sample_cbd::<2>(&ml_kem::encode::byte_encode::<4>(&vals));
    let weights: Vec<usize> = [3327, 3328, 0, 1, 2].iter().map(|c| count(&p.0[..16], *c)).collect();
    assert_eq!(weights, [1, 4, 6, 4, 1]);

    // every value of six bits once, then zeros
    let mut vals = [FieldElement(0); 256];
    for v in 0..64 {
        vals[v] = FieldElement(v as u16);
    }
    let p = Polynomial::sample_cbd::<3>(&ml_kem::encode::byte_encode::<6>(&vals));
    let weights: Vec<usize> =
        [3326, 3327, 3328, 0, 1, 2, 3].iter().map(|c| count(&p.0[..64], *c)).collect();
    assert_eq!(weights, [1, 6, 15, 20, 15, 6, 1]);
}
