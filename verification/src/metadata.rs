//! Reading row-group statistics out of a Parquet file's footer metadata.
//!
//! The binary footer format is decoded by the `parquet` crate; this module
//! declares that crate's parsed-metadata type, names the plain values it
//! holds, and builds the library's records from them with verified code.
//!
//! The footer stores five of a record's six fields directly; a row group's
//! compressed size is not stored but is the sum of its columns' stored
//! compressed sizes. The trusted items below therefore hand out only stored
//! values — plain field reads that cannot fail — and the sum is computed
//! here, saturating at `i64`'s bounds, since a crafted footer may carry
//! column sizes whose raw sum exceeds them.

use vstd::prelude::*;

use parquet::file::metadata::ParquetMetaData;
use parquet::file::metadata::ParquetMetaDataReader;

use crate::json::stats2bytes;
use crate::json::stats_views;
use crate::json::stream_json;
use crate::stats::opt_i32_view;
use crate::stats::opt_i64_view;
use crate::stats::BasicRowGroupStats;
use crate::stats::StatsView;

verus! {

#[verifier::external_type_specification]
#[verifier::external_body]
pub struct ExParquetMetaData(ParquetMetaData);

/// The five directly stored fields of one row group's footer entry.
pub struct RowGroupBase {
    pub num_columns: int,
    pub num_rows: int,
    pub total_byte_size: int,
    pub ordinal: Option<int>,
    pub file_offset: Option<int>,
}

/// The stored row-group fields held by parsed footer metadata: one entry
/// per row group, in the file's native row-group order, each the values the
/// footer stores for that group.
pub uninterp spec fn rg_base_of(m: ParquetMetaData) -> Seq<RowGroupBase>;

/// The stored compressed size of every column chunk held by parsed footer
/// metadata: one inner sequence per row group, in the file's native order,
/// holding that group's columns' `total_compressed_size` values in column
/// order.
pub uninterp spec fn col_compressed_of(m: ParquetMetaData) -> Seq<Seq<int>>;

/// Whether a byte buffer ends in a structurally valid Parquet footer, as
/// the `parquet` crate's metadata reader decides it.
pub uninterp spec fn parse_ok_of(data: Seq<u8>) -> bool;

/// The statistics model of the metadata that parsing a byte buffer yields,
/// when it parses at all.
pub uninterp spec fn parsed_stats_of(data: Seq<u8>) -> Seq<StatsView>;

/// `v` clamped to `i64`'s range.
pub open spec fn clamp_i64(v: int) -> int {
    if v > i64::MAX as int {
        i64::MAX as int
    } else if v < i64::MIN as int {
        i64::MIN as int
    } else {
        v
    }
}

/// Left-to-right sum of a sequence, each partial sum clamped to `i64`'s
/// range: the value a chain of saturating additions computes.
pub open spec fn sat_sum_i64(s: Seq<int>) -> int
    decreases s.len(),
{
    if s.len() == 0 {
        0
    } else {
        clamp_i64(sat_sum_i64(s.drop_last()) + s.last())
    }
}

/// The records this library emits for parsed metadata: per row group, the
/// five stored fields unchanged, and as `compressed_size` the saturating
/// sum of the group's columns' stored compressed sizes.
pub open spec fn stats_model(m: ParquetMetaData) -> Seq<StatsView> {
    Seq::new(
        rg_base_of(m).len(),
        |i: int|
            StatsView {
                num_columns: rg_base_of(m)[i].num_columns,
                num_rows: rg_base_of(m)[i].num_rows,
                total_byte_size: rg_base_of(m)[i].total_byte_size,
                compressed_size: sat_sum_i64(col_compressed_of(m)[i]),
                ordinal: rg_base_of(m)[i].ordinal,
                file_offset: rg_base_of(m)[i].file_offset,
            },
    )
}

/// The pipeline's single error type: a descriptive message, covering a
/// missing input as well as a malformed file.
#[derive(Debug)]
pub struct StatsError {
    pub message: String,
}

/// Relies on parquet's `ParquetMetaDataReader::parse_and_finish` to decode
/// the footer held in `data`. The call reads nothing but the given bytes, so
/// its outcome is a function of them alone: `Ok` with the parsed metadata
/// exactly when the bytes end in a structurally valid footer, and then the
/// metadata's statistics model is likewise fixed by the bytes; `Err` with
/// the parser's message (a truncated footer, bad magic bytes) otherwise.
/// Which bytes are valid is the parser's decision alone.
#[verifier::external_body]
pub fn parse_metadata(data: &[u8]) -> (r: Result<ParquetMetaData, StatsError>)
    ensures
        r is Ok <==> parse_ok_of(data@),
        r matches Ok(m) ==> stats_model(m) == parsed_stats_of(data@),
{
    let bytes = bytes::Bytes::copy_from_slice(data);
    match ParquetMetaDataReader::new().parse_and_finish(&bytes) {
        Ok(m) => Ok(m),
        Err(e) => Err(StatsError { message: format!("{e}") }),
    }
}

/// Relies on parquet's `ParquetMetaData::num_row_groups`: the number of row
/// groups in the parsed footer, which bounds both models.
#[verifier::external_body]
fn num_row_groups(m: &ParquetMetaData) -> (r: usize)
    ensures
        r == rg_base_of(*m).len(),
        r == col_compressed_of(*m).len(),
{
    m.num_row_groups()
}

/// Relies on parquet's `ParquetMetaData::row_group` (index guarded by the
/// `requires`) and the row-group accessors `num_columns`, `num_rows`,
/// `total_byte_size`, `ordinal` and `file_offset`: hands out the `i`th row
/// group's five stored fields, unchanged — each a plain read with no
/// arithmetic. `num_columns` is the length of the group's column list, so
/// it also bounds the group's per-column size sequence.
#[verifier::external_body]
fn row_group_base(m: &ParquetMetaData, i: usize) -> (r: (
    usize,
    i64,
    i64,
    Option<i32>,
    Option<i64>,
))
    requires
        i < rg_base_of(*m).len(),
    ensures
        r.0 as int == rg_base_of(*m)[i as int].num_columns,
        r.1 as int == rg_base_of(*m)[i as int].num_rows,
        r.2 as int == rg_base_of(*m)[i as int].total_byte_size,
        opt_i32_view(r.3) == rg_base_of(*m)[i as int].ordinal,
        opt_i64_view(r.4) == rg_base_of(*m)[i as int].file_offset,
        r.0 as int == col_compressed_of(*m)[i as int].len(),
{
    let rg = m.row_group(i);
    (rg.num_columns(), rg.num_rows(), rg.total_byte_size(), rg.ordinal(), rg.file_offset())
}

/// Relies on parquet's `ParquetMetaData::row_group`, `RowGroupMetaData::
/// column` and `ColumnChunkMetaData::compressed_size` (both indexes guarded
/// by the `requires`): the stored `total_compressed_size` of column `j` of
/// row group `i`, a plain field read.
#[verifier::external_body]
fn column_compressed_size(m: &ParquetMetaData, i: usize, j: usize) -> (r: i64)
    requires
        i < rg_base_of(*m).len(),
        j < col_compressed_of(*m)[i as int].len(),
    ensures
        r as int == col_compressed_of(*m)[i as int][j as int],
{
    m.row_group(i).column(j).compressed_size()
}

/// Saturating 64-bit addition: the exact sum where it fits, else the
/// nearer bound.
fn sat_add_i64(a: i64, b: i64) -> (r: i64)
    ensures
        r as int == clamp_i64(a as int + b as int),
{
    match a.checked_add(b) {
        Some(v) => v,
        None => if b >= 0 {
            i64::MAX
        } else {
            i64::MIN
        },
    }
}

/// The compressed size reported for row group `i`: the saturating sum of
/// the group's columns' stored compressed sizes.
fn group_compressed_size(m: &ParquetMetaData, i: usize, n_cols: usize) -> (r: i64)
    requires
        i < rg_base_of(*m).len(),
        n_cols == col_compressed_of(*m)[i as int].len(),
    ensures
        r as int == sat_sum_i64(col_compressed_of(*m)[i as int]),
{
    let mut sum: i64 = 0;
    let mut j: usize = 0;
    while j < n_cols
        invariant
            i < rg_base_of(*m).len(),
            n_cols == col_compressed_of(*m)[i as int].len(),
            j <= n_cols,
            sum as int == sat_sum_i64(col_compressed_of(*m)[i as int].take(j as int)),
        decreases n_cols - j,
    {
        let c = column_compressed_size(m, i, j);
        sum = sat_add_i64(sum, c);
        proof {
            let cols = col_compressed_of(*m)[i as int];
            assert(cols.take(j + 1).drop_last() =~= cols.take(j as int));
            assert(cols.take(j + 1).last() == cols[j as int]);
        }
        j = j + 1;
    }
    proof {
        assert(col_compressed_of(*m)[i as int].take(n_cols as int) =~= col_compressed_of(
            *m,
        )[i as int]);
    }
    sum
}

/// Builds the statistics record of row group `i`.
fn build_record(m: &ParquetMetaData, i: usize) -> (r: BasicRowGroupStats)
    requires
        i < rg_base_of(*m).len(),
    ensures
        r@ == stats_model(*m)[i as int],
{
    let base = row_group_base(m, i);
    let compressed = group_compressed_size(m, i, base.0);
    BasicRowGroupStats {
        num_columns: base.0,
        num_rows: base.1,
        total_byte_size: base.2,
        compressed_size: compressed,
        ordinal: base.3,
        file_offset: base.4,
    }
}

/// The number of row groups in the parsed footer: exactly this many
/// statistics records describe the file.
pub fn count_row_groups(m: &ParquetMetaData) -> (r: usize)
    ensures
        r == stats_model(*m).len(),
{
    num_row_groups(m)
}

/// The statistics record of row group `i`, or `None` when `i` is not below
/// the file's row-group count. Together with [`count_row_groups`] this lets
/// a caller pull the records one at a time, in order, without materializing
/// them all.
pub fn row_group_stats_at(m: &ParquetMetaData, i: usize) -> (r: Option<BasicRowGroupStats>)
    ensures
        i < stats_model(*m).len() ==> (r matches Some(s) && s@ == stats_model(*m)[i as int]),
        i >= stats_model(*m).len() ==> r is None,
{
    let n: usize = num_row_groups(m);
    if i < n {
        Some(build_record(m, i))
    } else {
        None
    }
}

/// Projects parsed footer metadata onto flat statistics records: exactly one
/// record per row group, in the file's native row-group order, each record
/// equal to the model's values for that group.
pub fn metadata2stats(m: &ParquetMetaData) -> (r: Vec<BasicRowGroupStats>)
    ensures
        r@.len() == stats_model(*m).len(),
        stats_views(r@) == stats_model(*m),
{
    let n: usize = num_row_groups(m);
    let mut out: Vec<BasicRowGroupStats> = Vec::new();
    let mut i: usize = 0;
    while i < n
        invariant
            n == rg_base_of(*m).len(),
            i <= n,
            out@.len() == i,
            forall|k: int| 0 <= k < i ==> out@[k]@ == stats_model(*m)[k],
        decreases n - i,
    {
        out.push(build_record(m, i));
        i = i + 1;
    }
    proof {
        assert(stats_views(out@) =~= stats_model(*m));
    }
    out
}

/// The verified pipeline on parsed metadata: serializes the file's
/// row-group statistics as one compact JSON object per row group,
/// concatenated in the file's native order. A file with zero row groups
/// yields zero bytes.
pub fn metadata2bytes(m: &ParquetMetaData) -> (r: Vec<u8>)
    ensures
        r@ == stream_json(stats_model(*m)),
{
    let stats = metadata2stats(m);
    stats2bytes(&stats)
}

} // verus!
