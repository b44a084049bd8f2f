use ml_kem::algebra::{FieldElement, Integer, NttPolynomial, NttVector, Polynomial, PolynomialVector};
use ml_kem::encode::{byte_decode, byte_encode, CodecError, Encode};
use rand::Rng;

type DecodedValue = [FieldElement; 256];

// Construct larger arrays by repeating smaller ones
fn repeat_values(pattern: &[Integer]) -> DecodedValue {
    core::array::from_fn(|i| FieldElement(pattern[i % pattern.len()]))
}

fn repeat_bytes(pattern: &[u8], len: usize) -> Vec<u8> {
    (0..len).map(|i| pattern[i % pattern.len()]).collect()
}

fn byte_codec_test<const D: usize>(decoded: DecodedValue, encoded: Vec<u8>) {
    // Test known answer
    let actual_encoded = byte_encode::<D>(&decoded);
    assert_eq!(actual_encoded, encoded);

    let actual_decoded = byte_decode::<D>(&encoded);
    assert_eq!(actual_decoded, Ok(decoded));

    // Test random decode/encode and encode/decode round trips
    let mut rng = rand::thread_rng();
    let mut decoded: [Integer; 256] = [0; 256];
    rng.fill(decoded.as_mut_slice());
    let m = match D {
        12 => FieldElement::Q,
        d => (1 as Integer) << d,
    };
    let decoded: DecodedValue = core::array::from_fn(|i| FieldElement(decoded[i] % m));

    let actual_encoded = byte_encode::<D>(&decoded);
    let actual_decoded = byte_decode::<D>(&actual_encoded);
    assert_eq!(actual_decoded, Ok(decoded));

    let actual_reencoded = byte_encode::<D>(&decoded);
    assert_eq!(actual_reencoded, actual_encoded);
}

#[test]
fn byte_codec() {
    // The 1-bit can only represent decoded values equal to 0 or 1.
    let decoded: DecodedValue = repeat_values(&[0, 1]);
    let encoded = vec![0xaa; 32];
    byte_codec_test::<1>(decoded, encoded);

    // For other codec widths, we use a standard sequence
    let decoded: DecodedValue = repeat_values(&[0, 1, 2, 3, 4, 5, 6, 7]);

    let encoded = repeat_bytes(&[0x10, 0x32, 0x54, 0x76], 128);
    byte_codec_test::<4>(decoded, encoded);

    let encoded = repeat_bytes(&[0x20, 0x88, 0x41, 0x8a, 0x39], 160);
    byte_codec_test::<5>(decoded, encoded);

    let encoded = repeat_bytes(&[0x40, 0x20, 0x0c, 0x44, 0x61, 0x1c], 192);
    byte_codec_test::<6>(decoded, encoded);

    let encoded = repeat_bytes(
        &[0x00, 0x04, 0x20, 0xc0, 0x00, 0x04, 0x14, 0x60, 0xc0, 0x01],
        320,
    );
    byte_codec_test::<10>(decoded, encoded);

    let encoded = repeat_bytes(
        &[0x00, 0x08, 0x80, 0x00, 0x06, 0x40, 0x80, 0x02, 0x18, 0xe0, 0x00],
        352,
    );
    byte_codec_test::<11>(decoded, encoded);

    let encoded = repeat_bytes(
        &[0x00, 0x10, 0x00, 0x02, 0x30, 0x00, 0x04, 0x50, 0x00, 0x06, 0x70, 0x00],
        384,
    );
    byte_codec_test::<12>(decoded, encoded);
}

#[test]
fn byte_codec_12_mod() {
    // DecodeBytes_12 is required to reduce mod q
    let encoded = vec![0xff; 384];
    let decoded: DecodedValue = [FieldElement(0xfff % FieldElement::Q); 256];

    let actual_decoded = byte_decode::<12>(&encoded);
    assert_eq!(actual_decoded, Ok(decoded));
}

fn vector_codec_known_answer_test<const D: usize, T>(decoded: T, encoded: Vec<u8>)
where
    T: Encode<D> + PartialEq + core::fmt::Debug,
{
    let actual_encoded = decoded.encode();
    assert_eq!(actual_encoded, encoded);

    let actual_decoded: Result<T, CodecError> = Encode::<D>::decode(&encoded);
    assert_eq!(actual_decoded, Ok(decoded));
}

#[test]
fn vector_codec() {
    let poly = Polynomial(repeat_values(&[0, 1, 2, 3, 4, 5, 6, 7]));

    // The required vector sizes are 2, 3, and 4.
    let decoded: PolynomialVector<2> = PolynomialVector([poly, poly]);
    let encoded = repeat_bytes(&[0x20, 0x88, 0x41, 0x8a, 0x39], 320);
    vector_codec_known_answer_test::<5, PolynomialVector<2>>(decoded, encoded);

    let decoded: PolynomialVector<3> = PolynomialVector([poly, poly, poly]);
    let encoded = repeat_bytes(&[0x20, 0x88, 0x41, 0x8a, 0x39], 480);
    vector_codec_known_answer_test::<5, PolynomialVector<3>>(decoded, encoded);

    let decoded: PolynomialVector<4> = PolynomialVector([poly, poly, poly, poly]);
    let encoded = repeat_bytes(&[0x20, 0x88, 0x41, 0x8a, 0x39], 640);
    vector_codec_known_answer_test::<5, PolynomialVector<4>>(decoded, encoded);
}

#[test]
fn decode_rejects_wrong_length() {
    assert_eq!(byte_decode::<12>(&[0u8; 383]), Err(CodecError::MalformedEncoding));
    assert_eq!(byte_decode::<12>(&[0u8; 385]), Err(CodecError::MalformedEncoding));
    assert_eq!(byte_decode::<1>(&[]), Err(CodecError::MalformedEncoding));
    let r: Result<Polynomial, CodecError> = Encode::<4>::decode(&[0u8; 127]);
    assert_eq!(r, Err(CodecError::MalformedEncoding));
    let r: Result<NttPolynomial, CodecError> = Encode::<4>::decode(&[0u8; 129]);
    assert_eq!(r, Err(CodecError::MalformedEncoding));
    let r: Result<PolynomialVector<2>, CodecError> = Encode::<4>::decode(&[0u8; 128]);
    assert_eq!(r, Err(CodecError::MalformedEncoding));
    let r: Result<NttVector<3>, CodecError> = Encode::<10>::decode(&[0u8; 961]);
    assert_eq!(r, Err(CodecError::MalformedEncoding));
}

#[test]
fn vector_decode_splits_in_order() {
    // three different polynomials, so that a decoder that mixed up the slices would show
    let polys: [NttPolynomial; 3] = core::array::from_fn(|k| {
        NttPolynomial(core::array::from_fn(|i| FieldElement(((7 * i + 1000 * k) % 3329) as Integer)))
    });
    let v = NttVector(polys);
    let enc = <NttVector<3> as Encode<12>>::encode(&v);
    assert_eq!(enc.len(), 3 * 384);
    for k in 0..3 {
        let part = <NttPolynomial as Encode<12>>::encode(&polys[k]);
        assert_eq!(&enc[k * 384..(k + 1) * 384], part.as_slice());
    }
    let back: Result<NttVector<3>, CodecError> = Encode::<12>::decode(&enc);
    assert_eq!(back, Ok(v));
}

#[test]
fn encode_ors_values_that_do_not_fit() {
    // with width 4, the value 0x13 spills its fifth bit into the next value's field
    let mut vals = [FieldElement(0); 256];
    vals[0] = FieldElement(0x13);
    vals[1] = FieldElement(0x2);
    let enc = byte_encode::<4>(&vals);
    assert_eq!(enc[0], 0x33);
    assert_eq!(&enc[1..], &[0u8; 127][..]);
}

#[test]
fn decode_width_12_reduces_each_field() {
    // 3329 = 0xd01 decodes to 0, 3328 stays
    let mut enc = vec![0u8; 384];
    enc[0] = 0x01;
    enc[1] = 0x0d;
    enc[2] = 0xd0;
    let decoded = byte_decode::<12>(&enc).unwrap();
    assert_eq!(decoded[0], FieldElement(0));
    assert_eq!(decoded[1], FieldElement(3328));
    assert_eq!(decoded[2], FieldElement(0));
}
