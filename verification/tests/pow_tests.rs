use dero_miner::pow::{pow16, sha3, stage1, STAGE1_LENGTH};

#[test]
fn test_pow16() {
    let input: [u8; 48] = [
        65, 90, 158, 0, 0, 0, 131, 134, 179, 254, 154, 24, 0, 0, 0, 0, 76, 45, 130, 143, 5, 131,
        168, 109, 185, 99, 157, 54, 84, 143, 129, 113, 0, 0, 0, 0, 222, 179, 70, 94, 29, 49, 111,
        0, 0, 0, 2, 1,
    ];
    let result = pow16(&input);
    assert_eq!(
        result,
        [
            129, 80, 247, 57, 240, 97, 71, 68, 66, 61, 172, 6, 56, 169, 252, 234, 128, 202, 217,
            52, 88, 75, 175, 166, 165, 225, 153, 165, 170, 45, 122, 61
        ]
    );
}

#[test]
fn pow16_deterministic() {
    let input: Vec<u8> = (0u8..48u8).collect();
    let a = pow16(&input);
    let b = pow16(&input);
    assert_eq!(a, b);
}

#[test]
fn stage1_len_empty_input() {
    assert_eq!(stage1(&[]).len(), STAGE1_LENGTH);
}

#[test]
fn stage1_len_various_inputs() {
    assert_eq!(stage1(&[0u8]).len(), STAGE1_LENGTH);
    assert_eq!(stage1(&[1, 2, 3]).len(), STAGE1_LENGTH);
    let long: Vec<u8> = vec![7u8; 20000];
    assert_eq!(stage1(&long).len(), STAGE1_LENGTH);
}

#[test]
fn stage1_is_not_zeros() {
    let s = stage1(&[]);
    assert!(s.iter().any(|&b| b != 0));
}

#[test]
fn stage1_depends_on_input() {
    assert_ne!(stage1(&[0u8]), stage1(&[1u8]));
}

#[test]
fn sha3_differs_by_input() {
    let a = sha3(&[]);
    let b = sha3(&[0u8]);
    assert_ne!(a, b);
    assert_eq!(a.len(), 32);
}
