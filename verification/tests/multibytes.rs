use aqueduct::multibytes::{MultiBytes, TooFewBytesError};

fn filled(n: usize) -> Vec<u8> {
    (0..n).map(|i| (i % 251) as u8).collect()
}

#[test]
fn multibytes_write_then_read_round_trips() {
    let mut m = MultiBytes::new();
    m.write(&[1, 2, 3]);
    m.write(&[4, 5]);
    assert_eq!(m.len(), 5);
    let mut buf = [0u8; 4];
    assert_eq!(m.read(&mut buf), Ok(()));
    assert_eq!(buf, [1, 2, 3, 4]);
    assert_eq!(m.len(), 1);
    assert!(m.equals_bytes(&[5]));
}

#[test]
fn multibytes_read_too_many_changes_nothing() {
    let mut m = MultiBytes::from_vec(vec![9, 8]);
    let mut buf = [7u8; 3];
    assert_eq!(m.read(&mut buf), Err(TooFewBytesError));
    assert_eq!(buf, [7, 7, 7]);
    assert!(m.equals_bytes(&[9, 8]));
}

#[test]
fn multibytes_read_zc_and_skip() {
    let mut m = MultiBytes::from_vec(vec![1, 2, 3]);
    m.write(&[4, 5, 6]);
    let head = m.read_zc(4).unwrap();
    assert!(head.equals_bytes(&[1, 2, 3, 4]));
    assert!(m.equals_bytes(&[5, 6]));
    assert_eq!(m.skip(3), Err(TooFewBytesError));
    assert_eq!(m.skip(1), Ok(()));
    assert!(m.equals_bytes(&[6]));
    assert!(matches!(m.read_zc(2), Err(TooFewBytesError)));
}

#[test]
fn multibytes_write_zc_short_and_long() {
    let mut m = MultiBytes::from_vec(vec![0xaa]);
    let short = MultiBytes::from_vec(vec![1, 2]);
    m.write_zc(short);
    assert!(m.equals_bytes(&[0xaa, 1, 2]));
    let long = filled(200);
    let mut big = MultiBytes::from_vec(long[..100].to_vec());
    big.write(&long[100..]);
    m.write_zc(big);
    let mut expect = vec![0xaa, 1, 2];
    expect.extend_from_slice(&long);
    assert_eq!(m.len(), expect.len());
    assert_eq!(m.defragment(), expect);
}

#[test]
fn multibytes_fragments_and_equality() {
    let mut a = MultiBytes::from_vec(vec![1, 2]);
    a.write(&[3]);
    let b = MultiBytes::from_vec(vec![1, 2, 3]);
    assert!(a.equals(&b));
    let c = MultiBytes::from_vec(vec![1, 2, 4]);
    assert!(!a.equals(&c));
    assert!(!a.equals_bytes(&[1, 2]));
    let flat: Vec<u8> = a.fragments().into_iter().flatten().collect();
    assert_eq!(flat, vec![1, 2, 3]);
    assert_eq!(MultiBytes::new().len(), 0);
    assert_eq!(MultiBytes::from_vec(Vec::new()).defragment(), Vec::<u8>::new());
}
