use drand_bench::gas::{calldata_gas, measure, INTRINSIC_GAS};

#[test]
fn calldata_gas_counts_zero_and_nonzero_bytes() {
    assert_eq!(calldata_gas(&[]), 0);
    assert_eq!(calldata_gas(&[0]), 4);
    assert_eq!(calldata_gas(&[7]), 16);
    assert_eq!(calldata_gas(&[0, 1, 0, 255]), 40);
}

#[test]
fn calldata_gas_bounds() {
    let zeros = vec![0u8; 100];
    let ones = vec![1u8; 100];
    assert_eq!(calldata_gas(&zeros), 400);
    assert_eq!(calldata_gas(&ones), 1600);
}

#[test]
fn calldata_gas_of_concatenation() {
    let a = [0u8, 3, 0];
    let b = [9u8, 0];
    let ab = [0u8, 3, 0, 9, 0];
    assert_eq!(calldata_gas(&ab), calldata_gas(&a) + calldata_gas(&b));
}

#[test]
fn measure_splits_gas() {
    let calldata = [0u8, 1, 2];
    assert_eq!(INTRINSIC_GAS, 21000);
    assert_eq!(measure(&calldata, 100_000), (100_000 - 21000 - 36, 36));
    assert_eq!(measure(&calldata, 21036), (0, 36));
}
