//! The row-group statistics record and its mathematical model.

use vstd::prelude::*;

verus! {

/// Structural statistics of one row group, read off the file's footer
/// metadata: column count, row count, byte sizes, and the optional ordinal
/// position and byte offset within the file.
#[derive(Clone, Debug)]
pub struct BasicRowGroupStats {
    pub num_columns: usize,
    pub num_rows: i64,
    pub total_byte_size: i64,
    pub compressed_size: i64,
    pub ordinal: Option<i32>,
    pub file_offset: Option<i64>,
}

/// Mathematical model of one statistics record: every field as an
/// unbounded integer, the two optional fields as `Option<int>`.
pub struct StatsView {
    pub num_columns: int,
    pub num_rows: int,
    pub total_byte_size: int,
    pub compressed_size: int,
    pub ordinal: Option<int>,
    pub file_offset: Option<int>,
}

/// The model of an optional 32-bit integer.
pub open spec fn opt_i32_view(v: Option<i32>) -> Option<int> {
    match v {
        Some(x) => Some(x as int),
        None => None,
    }
}

/// The model of an optional 64-bit integer.
pub open spec fn opt_i64_view(v: Option<i64>) -> Option<int> {
    match v {
        Some(x) => Some(x as int),
        None => None,
    }
}

impl View for BasicRowGroupStats {
    type V = StatsView;

    open spec fn view(&self) -> StatsView {
        StatsView {
            num_columns: self.num_columns as int,
            num_rows: self.num_rows as int,
            total_byte_size: self.total_byte_size as int,
            compressed_size: self.compressed_size as int,
            ordinal: opt_i32_view(self.ordinal),
            file_offset: opt_i64_view(self.file_offset),
        }
    }
}

} // verus!
