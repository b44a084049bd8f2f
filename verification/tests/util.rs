use ml_kem::util::{FastClone, Flatten, FunctionalArray, Truncate, Unflatten};

#[test]
fn flatten() {
    let flat: [u8; 10] = [1, 2, 3, 4, 5, 6, 7, 8, 9, 10];
    let unflat2: [[u8; 2]; 5] = [[1, 2], [3, 4], [5, 6], [7, 8], [9, 10]];
    let unflat5: [[u8; 5]; 2] = [[1, 2, 3, 4, 5], [6, 7, 8, 9, 10]];

    // Flatten
    let actual = unflat2.flatten();
    assert_eq!(flat.as_slice(), actual.as_slice());

    let actual = unflat5.flatten();
    assert_eq!(flat.as_slice(), actual.as_slice());

    // Unflatten
    let actual: Vec<Vec<u8>> = <[u8; 10] as Unflatten<5>>::unflatten(flat);
    assert_eq!(unflat2.map(|part| part.to_vec()).to_vec(), actual);

    let actual: Vec<Vec<u8>> = <[u8; 10] as Unflatten<2>>::unflatten(flat);
    assert_eq!(unflat5.map(|part| part.to_vec()).to_vec(), actual);

    // Unflatten on references
    let actual: Vec<&[u8]> = <&[u8; 10] as Unflatten<5>>::unflatten(&flat);
    assert_eq!(actual.len(), 5);
    for (i, part) in actual.iter().enumerate() {
        assert_eq!(&unflat2[i][..], *part);
    }

    let actual: Vec<&[u8]> = <&[u8; 10] as Unflatten<2>>::unflatten(&flat);
    assert_eq!(actual.len(), 2);
    for (i, part) in actual.iter().enumerate() {
        assert_eq!(&unflat5[i][..], *part);
    }
}

#[test]
fn truncate_keeps_low_bits() {
    let x: u16 = 0x1234_5678u32.truncate();
    assert_eq!(x, 0x5678);
    let x: u32 = 0x1234_5678_9abc_def0u64.truncate();
    assert_eq!(x, 0x9abc_def0);
    let x: u8 = 0x1ffusize.truncate();
    assert_eq!(x, 0xff);
    let x: u16 = 0x1_0000_0000_0000_0000_abcdu128.truncate();
    assert_eq!(x, 0xabcd);
    let x: u8 = 0xfedc_ba98u128.truncate();
    assert_eq!(x, 0x98);
    let x: u16 = 0xffffu32.truncate();
    assert_eq!(x, 0xffff);
}

#[test]
fn fast_clone_copies() {
    let a: [u16; 4] = [1, 2, 3, 4];
    assert_eq!(a.fast_clone(), a);
}

#[test]
fn map_zip_fold() {
    let a: [u32; 4] = [1, 2, 3, 4];
    let b: [u32; 4] = [10, 20, 30, 40];
    let doubled: [u32; 4] = a.map(|x| 2 * x);
    assert_eq!(doubled, [2, 4, 6, 8]);
    let sums: [u32; 4] = a.zip(&b, |x, y| x + y);
    assert_eq!(sums, [11, 22, 33, 44]);
    // from the left: ((1 - 2) - 3) - 4, with wrapping to show the order
    let folded = a.fold(|x, y| x.wrapping_sub(*y));
    assert_eq!(folded, 1u32.wrapping_sub(2).wrapping_sub(3).wrapping_sub(4));
    let single: [u32; 1] = [7];
    assert_eq!(single.fold(|x, y| x + y), 7);
}
