//! End-to-end tests against real Parquet files built in memory.

use std::sync::Arc;

use parquet::data_type::Int32Type;
use parquet::file::metadata::ParquetMetaData;
use parquet::file::properties::WriterProperties;
use parquet::file::writer::SerializedFileWriter;
use parquet::schema::parser::parse_message_type;

use parquet_row_group_stats::footer::footer_region_len;
use parquet_row_group_stats::json::stats2buf;
use parquet_row_group_stats::metadata::count_row_groups;
use parquet_row_group_stats::metadata::metadata2bytes;
use parquet_row_group_stats::metadata::metadata2stats;
use parquet_row_group_stats::metadata::parse_metadata;
use parquet_row_group_stats::metadata::row_group_stats_at;
use parquet_row_group_stats::stats::BasicRowGroupStats;

/// Writes a three-column Parquet file with the given number of row groups
/// and rows per group; returns the file's bytes and the writer's metadata.
fn sample_file(row_groups: usize, rows_per_group: usize) -> (Vec<u8>, ParquetMetaData) {
    let schema = Arc::new(
        parse_message_type(
            "message sample { REQUIRED INT32 a; REQUIRED INT32 b; REQUIRED INT32 c; }",
        )
        .unwrap(),
    );
    let props = Arc::new(WriterProperties::builder().build());
    let mut out: Vec<u8> = Vec::new();
    let md = {
        let mut writer = SerializedFileWriter::new(&mut out, schema, props).unwrap();
        for _ in 0..row_groups {
            let mut rg = writer.next_row_group().unwrap();
            while let Some(mut col) = rg.next_column().unwrap() {
                let values: Vec<i32> = (0..rows_per_group as i32).collect();
                col.typed::<Int32Type>()
                    .write_batch(&values, None, None)
                    .unwrap();
                col.close().unwrap();
            }
            rg.close().unwrap();
        }
        writer.close().unwrap()
    };
    (out, md)
}

#[test]
fn one_record_per_row_group_in_order() {
    let (data, _) = sample_file(3, 100);
    let md = parse_metadata(&data).unwrap();
    let stats = metadata2stats(&md);
    assert_eq!(stats.len(), 3);
    for (i, s) in stats.iter().enumerate() {
        assert_eq!(s.num_columns, 3);
        assert_eq!(s.num_rows, 100);
        assert_eq!(s.ordinal, Some(i as i32));
    }
}

#[test]
fn record_fields_equal_parquet_metadata() {
    let (data, expected) = sample_file(2, 64);
    let md = parse_metadata(&data).unwrap();
    let stats = metadata2stats(&md);
    assert_eq!(stats.len(), expected.num_row_groups());
    for (i, s) in stats.iter().enumerate() {
        let rg = expected.row_group(i);
        assert_eq!(s.num_columns, rg.num_columns());
        assert_eq!(s.num_rows, rg.num_rows());
        assert_eq!(s.total_byte_size, rg.total_byte_size());
        assert_eq!(s.compressed_size, rg.compressed_size());
        assert_eq!(s.ordinal, rg.ordinal());
        assert_eq!(s.file_offset, rg.file_offset());
    }
}

#[test]
fn zero_row_groups_zero_output_bytes() {
    let (data, _) = sample_file(0, 0);
    let md = parse_metadata(&data).unwrap();
    let out = metadata2bytes(&md);
    assert!(out.is_empty());
}

#[test]
fn garbage_bytes_are_rejected() {
    let r = parse_metadata(b"this is not a parquet file at all");
    assert!(r.is_err());
}

#[test]
fn truncated_footer_is_rejected() {
    let (data, _) = sample_file(1, 10);
    let truncated = &data[..data.len() / 2];
    assert!(parse_metadata(truncated).is_err());
}

#[test]
fn bad_magic_is_rejected() {
    let (mut data, _) = sample_file(1, 10);
    let n = data.len();
    data[n - 1] = b'X';
    assert!(parse_metadata(&data).is_err());
}

#[test]
fn output_is_byte_identical_across_runs() {
    let (data, _) = sample_file(2, 33);
    let md1 = parse_metadata(&data).unwrap();
    let md2 = parse_metadata(&data).unwrap();
    let out1 = metadata2bytes(&md1);
    let out2 = metadata2bytes(&md2);
    assert_eq!(out1, out2);
}

fn record_bytes(s: &BasicRowGroupStats) -> Vec<u8> {
    let mut buf: Vec<u8> = Vec::new();
    stats2buf(s, &mut buf);
    buf
}

#[test]
fn lazy_accessors_match_full_projection() {
    let (data, _) = sample_file(3, 20);
    let md = parse_metadata(&data).unwrap();
    let all = metadata2stats(&md);
    let n = count_row_groups(&md);
    assert_eq!(n, all.len());
    for (i, expected) in all.iter().enumerate() {
        let got = row_group_stats_at(&md, i).unwrap();
        assert_eq!(record_bytes(&got), record_bytes(expected));
    }
    assert!(row_group_stats_at(&md, n).is_none());
}

#[test]
fn footer_tail_decoding() {
    let tail: [u8; 8] = [0x1c, 0x00, 0x00, 0x00, b'P', b'A', b'R', b'1'];
    assert_eq!(footer_region_len(&tail), Some(0x1c + 8));
    let encrypted: [u8; 8] = [0x1c, 0x00, 0x00, 0x00, b'P', b'A', b'R', b'E'];
    assert_eq!(footer_region_len(&encrypted), None);
    let garbage: [u8; 8] = [0xff, 0xff, 0xff, 0xff, 0x00, 0x00, 0x00, 0x00];
    assert_eq!(footer_region_len(&garbage), None);
}

#[test]
fn footer_region_parses_like_whole_file() {
    let (data, _) = sample_file(2, 10);
    let tail: [u8; 8] = data[data.len() - 8..].try_into().unwrap();
    let n = footer_region_len(&tail).unwrap() as usize;
    assert!(n <= data.len());
    let region = &data[data.len() - n..];
    let md_full = parse_metadata(&data).unwrap();
    let md_region = parse_metadata(region).unwrap();
    assert_eq!(metadata2bytes(&md_full), metadata2bytes(&md_region));
}

#[test]
fn output_parses_as_json_values_with_expected_fields() {
    let (data, expected) = sample_file(2, 50);
    let md = parse_metadata(&data).unwrap();
    let out = metadata2bytes(&md);
    let values: Vec<serde_json::Value> = serde_json::Deserializer::from_slice(&out)
        .into_iter::<serde_json::Value>()
        .map(|v| v.unwrap())
        .collect();
    assert_eq!(values.len(), 2);
    for (i, v) in values.iter().enumerate() {
        let obj = v.as_object().unwrap();
        assert_eq!(obj.len(), 6);
        let rg = expected.row_group(i);
        assert_eq!(v["num_columns"].as_u64().unwrap(), rg.num_columns() as u64);
        assert_eq!(v["num_rows"].as_i64().unwrap(), rg.num_rows());
        assert_eq!(v["total_byte_size"].as_i64().unwrap(), rg.total_byte_size());
        assert_eq!(v["compressed_size"].as_i64().unwrap(), rg.compressed_size());
        assert_eq!(v["ordinal"].as_i64().unwrap(), rg.ordinal().unwrap() as i64);
        assert_eq!(
            v["file_offset"].as_i64().unwrap(),
            rg.file_offset().unwrap()
        );
    }
}
