use num_bigint::BigUint;
use proving_pairings::naf::{biguint_to_naf, to_naf};

#[test]
fn test_biguint_naf() {
    let mut expect = to_naf(29793968203157093288);
    expect.reverse();
    expect.remove(0);
    println!("res: {:?}", expect);

    let e = BigUint::parse_bytes(b"29793968203157093288", 10).unwrap();
    println!("E :{:?}", e);
    let mut actual = biguint_to_naf(e).unwrap();
    actual.reverse();
    actual.remove(0);
    println!("res: {:?}", actual);

    assert_eq!(expect, actual);
}

fn value(z: &[i8]) -> i128 {
    z.iter().rev().fold(0i128, |acc, d| acc * 2 + *d as i128)
}

#[test]
fn naf_of_small_values() {
    assert_eq!(to_naf(7), vec![-1, 0, 0, 1]);
    assert_eq!(to_naf(1), vec![1]);
    assert_eq!(to_naf(2), vec![0, 1]);
    assert_eq!(to_naf(3), vec![-1, 0, 1]);
}

#[test]
fn naf_of_non_positive_is_empty() {
    assert!(to_naf(0).is_empty());
    assert!(to_naf(-5).is_empty());
}

#[test]
fn naf_is_non_adjacent_and_exact() {
    for x in [5i128, 29793968203157093288, (1i128 << 120) + 12345] {
        let z = to_naf(x);
        assert_eq!(value(&z), x);
        for w in z.windows(2) {
            assert!(w[0] == 0 || w[1] == 0);
        }
        assert_ne!(*z.last().unwrap(), 0);
    }
}

#[test]
fn biguint_naf_too_large() {
    let big = BigUint::parse_bytes(b"340282366920938463463374607431768211456", 10).unwrap();
    assert!(biguint_to_naf(big).is_none());
}

#[test]
fn naf_of_largest_value() {
    let z = to_naf(i128::MAX);
    assert_eq!(z.len(), 128);
    assert_eq!(z[0], -1);
    assert_eq!(z[127], 1);
    assert!(z[1..127].iter().all(|d| *d == 0));
}
