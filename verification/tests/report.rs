use drand_bench::report::{aligned_gas_row, aligned_text_row, csv_gas_row, csv_row, pad_end, pad_start};

#[test]
fn csv_rows() {
    assert_eq!(csv_row("exec_gas", "data_gas", "algorithm"), "exec_gas,data_gas,algorithm\n");
    assert_eq!(csv_gas_row(123456, 7890, "compressed"), "123456,7890,compressed\n");
    assert_eq!(csv_gas_row(0, 0, "uncompressed"), format!("{},{},{}\n", 0, 0, "uncompressed"));
}

#[test]
fn padding() {
    assert_eq!(pad_end("ab", 5), "ab   ");
    assert_eq!(pad_start("ab", 5), "   ab");
    assert_eq!(pad_end("abcdef", 3), "abcdef");
    assert_eq!(pad_start("abcdef", 3), "abcdef");
    assert_eq!(pad_end("", 0), "");
}

#[test]
fn aligned_rows_match_width_twenty_formatting() {
    assert_eq!(
        aligned_text_row("exec_gas", "data_gas", "algorithm"),
        format!("{:20}\t{:20}\t{:20}\n", "exec_gas", "data_gas", "algorithm")
    );
    assert_eq!(
        aligned_gas_row(123456, 7890, "compressed"),
        format!("{:20}\t{:20}\t{:20}\n", 123456u64, 7890u64, "compressed")
    );
    assert_eq!(
        aligned_gas_row(u64::MAX, 1, "a-name-longer-than-twenty"),
        format!("{:20}\t{:20}\t{:20}\n", u64::MAX, 1u64, "a-name-longer-than-twenty")
    );
}
