//! Exact-output tests of the JSON serializer.

use parquet_row_group_stats::json::stats2buf;
use parquet_row_group_stats::json::stats2bytes;
use parquet_row_group_stats::stats::BasicRowGroupStats;

fn to_json(s: &BasicRowGroupStats) -> String {
    let mut buf: Vec<u8> = Vec::new();
    stats2buf(s, &mut buf);
    String::from_utf8(buf).unwrap()
}

#[test]
fn one_row_group_example_exact_json() {
    let s = BasicRowGroupStats {
        num_columns: 3,
        num_rows: 1000,
        total_byte_size: 50000,
        compressed_size: 20000,
        ordinal: Some(0),
        file_offset: Some(4),
    };
    assert_eq!(
        to_json(&s),
        "{\"num_columns\":3,\"num_rows\":1000,\"total_byte_size\":50000,\
         \"compressed_size\":20000,\"ordinal\":0,\"file_offset\":4}"
    );
}

#[test]
fn missing_optionals_serialize_as_null() {
    let s = BasicRowGroupStats {
        num_columns: 0,
        num_rows: 0,
        total_byte_size: 0,
        compressed_size: 0,
        ordinal: None,
        file_offset: None,
    };
    assert_eq!(
        to_json(&s),
        "{\"num_columns\":0,\"num_rows\":0,\"total_byte_size\":0,\
         \"compressed_size\":0,\"ordinal\":null,\"file_offset\":null}"
    );
}

#[test]
fn negative_and_extreme_values() {
    let s = BasicRowGroupStats {
        num_columns: usize::MAX,
        num_rows: -1,
        total_byte_size: i64::MIN,
        compressed_size: i64::MAX,
        ordinal: Some(-7),
        file_offset: Some(-9000000000),
    };
    let expected = format!(
        "{{\"num_columns\":{},\"num_rows\":-1,\"total_byte_size\":-9223372036854775808,\
         \"compressed_size\":9223372036854775807,\"ordinal\":-7,\"file_offset\":-9000000000}}",
        usize::MAX
    );
    assert_eq!(to_json(&s), expected);
}

#[test]
fn scratch_buffer_is_cleared_between_records() {
    let a = BasicRowGroupStats {
        num_columns: 12345,
        num_rows: 67890,
        total_byte_size: 111,
        compressed_size: 222,
        ordinal: Some(1),
        file_offset: Some(2),
    };
    let b = BasicRowGroupStats {
        num_columns: 1,
        num_rows: 2,
        total_byte_size: 3,
        compressed_size: 4,
        ordinal: None,
        file_offset: None,
    };
    let mut buf: Vec<u8> = Vec::new();
    stats2buf(&a, &mut buf);
    let first = String::from_utf8(buf.clone()).unwrap();
    stats2buf(&b, &mut buf);
    let second = String::from_utf8(buf).unwrap();
    assert!(first.contains("12345"));
    assert_eq!(
        second,
        "{\"num_columns\":1,\"num_rows\":2,\"total_byte_size\":3,\
         \"compressed_size\":4,\"ordinal\":null,\"file_offset\":null}"
    );
}

#[test]
fn zero_records_zero_bytes() {
    let stats: Vec<BasicRowGroupStats> = Vec::new();
    let out = stats2bytes(&stats);
    assert!(out.is_empty());
}

#[test]
fn stream_is_undelimited_concatenation() {
    let a = BasicRowGroupStats {
        num_columns: 2,
        num_rows: 10,
        total_byte_size: 100,
        compressed_size: 50,
        ordinal: Some(0),
        file_offset: Some(4),
    };
    let b = BasicRowGroupStats {
        num_columns: 2,
        num_rows: 20,
        total_byte_size: 200,
        compressed_size: 60,
        ordinal: Some(1),
        file_offset: Some(104),
    };
    let stats = vec![a.clone(), b.clone()];
    let out = String::from_utf8(stats2bytes(&stats)).unwrap();
    let expected = format!("{}{}", to_json(&a), to_json(&b));
    assert_eq!(out, expected);
}

#[test]
fn serialization_is_deterministic() {
    let a = BasicRowGroupStats {
        num_columns: 5,
        num_rows: 42,
        total_byte_size: 4096,
        compressed_size: 1024,
        ordinal: Some(3),
        file_offset: None,
    };
    let stats = vec![a];
    let out1 = stats2bytes(&stats);
    let out2 = stats2bytes(&stats);
    assert_eq!(out1, out2);
}
