use ebpf_trace::benchmark::Function;
use ebpf_trace::naming::{file_name, test_file_path};

#[test]
fn direct_file_name_at_time() {
    assert_eq!(file_name(&Function::SequentialDirect, 1234), "file-sequential_direct-1234.dat");
    assert_eq!(file_name(&Function::RandomDirectDoubleWrites, 0), "file-random_direct_double_writes-0.dat");
    assert_eq!(
        file_name(&Function::RandomDirect, u64::MAX),
        "file-random_direct-18446744073709551615.dat"
    );
}

#[test]
fn buffered_file_name_at_time() {
    assert_eq!(test_file_path(42), "test-42.txt");
    assert_eq!(test_file_path(7), "test-7.txt");
    assert_eq!(test_file_path(1700000000123456789), "test-1700000000123456789.txt");
}
