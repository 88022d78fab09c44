//! Compact JSON serialization of statistics records.
//!
//! One record becomes one JSON object with exactly the keys `num_columns`,
//! `num_rows`, `total_byte_size`, `compressed_size`, `ordinal`, `file_offset`,
//! in that order, no whitespace. A stream of records is the records' objects
//! concatenated back to back, with no separator, matching the writer's
//! undelimited output framing.
//!
//! Verus does not accept byte-character literals, so the ASCII bytes of the
//! fixed JSON fragments are written in hex, each with the character beside it.

use vstd::prelude::*;

use crate::stats::BasicRowGroupStats;
use crate::stats::StatsView;

verus! {

/// The ASCII digit for `d` (`d` below 10).
pub open spec fn digit_byte(d: nat) -> u8 {
    (d + 0x30) as u8
}

/// Shortest decimal digit string of `n`, most significant digit first.
pub open spec fn dec_digits(n: nat) -> Seq<u8>
    decreases n,
{
    if n < 10 {
        seq![digit_byte(n)]
    } else {
        dec_digits(n / 10).push(digit_byte(n % 10))
    }
}

/// JSON rendering of an integer: a minus sign for negative values,
/// then the shortest decimal digit string of the magnitude.
pub open spec fn int_json(v: int) -> Seq<u8> {
    if v < 0 {
        seq![0x2du8] + dec_digits((-v) as nat)  // '-'
    } else {
        dec_digits(v as nat)
    }
}

/// The JSON literal `null`.
pub open spec fn null_json() -> Seq<u8> {
    seq![0x6eu8, 0x75, 0x6c, 0x6c]  // "null"
}

/// JSON rendering of an optional integer: the integer, or `null`.
pub open spec fn opt_json(v: Option<int>) -> Seq<u8> {
    match v {
        Some(x) => int_json(x),
        None => null_json(),
    }
}

/// The bytes of `{"num_columns":`.
pub open spec fn key_num_columns() -> Seq<u8> {
    seq![0x7bu8, 0x22, 0x6e, 0x75, 0x6d, 0x5f, 0x63, 0x6f, 0x6c, 0x75, 0x6d, 0x6e, 0x73, 0x22, 0x3a]
}

/// The bytes of `,"num_rows":`.
pub open spec fn key_num_rows() -> Seq<u8> {
    seq![0x2cu8, 0x22, 0x6e, 0x75, 0x6d, 0x5f, 0x72, 0x6f, 0x77, 0x73, 0x22, 0x3a]
}

/// The bytes of `,"total_byte_size":`.
pub open spec fn key_total_byte_size() -> Seq<u8> {
    seq![
        0x2cu8,
        0x22,
        0x74,
        0x6f,
        0x74,
        0x61,
        0x6c,
        0x5f,
        0x62,
        0x79,
        0x74,
        0x65,
        0x5f,
        0x73,
        0x69,
        0x7a,
        0x65,
        0x22,
        0x3a,
    ]
}

/// The bytes of `,"compressed_size":`.
pub open spec fn key_compressed_size() -> Seq<u8> {
    seq![
        0x2cu8,
        0x22,
        0x63,
        0x6f,
        0x6d,
        0x70,
        0x72,
        0x65,
        0x73,
        0x73,
        0x65,
        0x64,
        0x5f,
        0x73,
        0x69,
        0x7a,
        0x65,
        0x22,
        0x3a,
    ]
}

/// The bytes of `,"ordinal":`.
pub open spec fn key_ordinal() -> Seq<u8> {
    seq![0x2cu8, 0x22, 0x6f, 0x72, 0x64, 0x69, 0x6e, 0x61, 0x6c, 0x22, 0x3a]
}

/// The bytes of `,"file_offset":`.
pub open spec fn key_file_offset() -> Seq<u8> {
    seq![0x2cu8, 0x22, 0x66, 0x69, 0x6c, 0x65, 0x5f, 0x6f, 0x66, 0x66, 0x73, 0x65, 0x74, 0x22, 0x3a]
}

/// The full JSON object for one record.
pub open spec fn record_json(v: StatsView) -> Seq<u8> {
    key_num_columns() + int_json(v.num_columns) + key_num_rows() + int_json(v.num_rows)
        + key_total_byte_size() + int_json(v.total_byte_size) + key_compressed_size() + int_json(
        v.compressed_size,
    ) + key_ordinal() + opt_json(v.ordinal) + key_file_offset() + opt_json(v.file_offset) + seq![
        0x7du8,
    ]  // '}'
}

/// The byte stream for a sequence of records: their JSON objects
/// concatenated in order, nothing between or around them.
pub open spec fn stream_json(s: Seq<StatsView>) -> Seq<u8>
    decreases s.len(),
{
    if s.len() == 0 {
        Seq::empty()
    } else {
        record_json(s[0]) + stream_json(s.drop_first())
    }
}

/// The models of a sequence of records, in order.
pub open spec fn stats_views(s: Seq<BasicRowGroupStats>) -> Seq<StatsView> {
    Seq::new(s.len(), |i: int| s[i]@)
}

/// Appends the decimal digits of `n` to `buf`.
fn push_dec_u64(buf: &mut Vec<u8>, n: u64)
    ensures
        final(buf)@ == old(buf)@ + dec_digits(n as nat),
    decreases n,
{
    if n >= 10 {
        push_dec_u64(buf, n / 10);
    }
    buf.push(0x30 + (n % 10) as u8);  // '0' + digit
    proof {
        assert(final(buf)@ =~= old(buf)@ + dec_digits(n as nat));
    }
}

/// Appends the JSON rendering of a signed 64-bit integer to `buf`.
fn push_i64_json(buf: &mut Vec<u8>, v: i64)
    ensures
        final(buf)@ == old(buf)@ + int_json(v as int),
{
    if v < 0 {
        buf.push(0x2d);  // '-'
        let m: u64 = ((-(v + 1)) as u64) + 1;
        assert(m as int == -(v as int));
        push_dec_u64(buf, m);
        assert(final(buf)@ =~= old(buf)@ + int_json(v as int));
    } else {
        push_dec_u64(buf, v as u64);
    }
}

/// Appends the JSON rendering of a 32-bit integer to `buf`.
fn push_i32_json(buf: &mut Vec<u8>, v: i32)
    ensures
        final(buf)@ == old(buf)@ + int_json(v as int),
{
    push_i64_json(buf, v as i64);
}

/// Appends the decimal rendering of a `usize` to `buf`.
fn push_usize_json(buf: &mut Vec<u8>, v: usize)
    ensures
        final(buf)@ == old(buf)@ + int_json(v as int),
{
    push_dec_u64(buf, v as u64);
}

/// Appends the JSON literal `null` to `buf`.
fn push_null(buf: &mut Vec<u8>)
    ensures
        final(buf)@ == old(buf)@ + null_json(),
{
    buf.push(0x6e);  // 'n'
    buf.push(0x75);  // 'u'
    buf.push(0x6c);  // 'l'
    buf.push(0x6c);  // 'l'
    assert(final(buf)@ =~= old(buf)@ + null_json());
}

/// Appends `{"num_columns":` to `buf`.
fn push_key_num_columns(buf: &mut Vec<u8>)
    ensures
        final(buf)@ == old(buf)@ + key_num_columns(),
{
    buf.push(0x7b);  // '{'
    buf.push(0x22);  // '"'
    buf.push(0x6e);  // 'n'
    buf.push(0x75);  // 'u'
    buf.push(0x6d);  // 'm'
    buf.push(0x5f);  // '_'
    buf.push(0x63);  // 'c'
    buf.push(0x6f);  // 'o'
    buf.push(0x6c);  // 'l'
    buf.push(0x75);  // 'u'
    buf.push(0x6d);  // 'm'
    buf.push(0x6e);  // 'n'
    buf.push(0x73);  // 's'
    buf.push(0x22);  // '"'
    buf.push(0x3a);  // ':'
    assert(final(buf)@ =~= old(buf)@ + key_num_columns());
}

/// Appends `,"num_rows":` to `buf`.
fn push_key_num_rows(buf: &mut Vec<u8>)
    ensures
        final(buf)@ == old(buf)@ + key_num_rows(),
{
    buf.push(0x2c);  // ','
    buf.push(0x22);  // '"'
    buf.push(0x6e);  // 'n'
    buf.push(0x75);  // 'u'
    buf.push(0x6d);  // 'm'
    buf.push(0x5f);  // '_'
    buf.push(0x72);  // 'r'
    buf.push(0x6f);  // 'o'
    buf.push(0x77);  // 'w'
    buf.push(0x73);  // 's'
    buf.push(0x22);  // '"'
    buf.push(0x3a);  // ':'
    assert(final(buf)@ =~= old(buf)@ + key_num_rows());
}

/// Appends `,"total_byte_size":` to `buf`.
fn push_key_total_byte_size(buf: &mut Vec<u8>)
    ensures
        final(buf)@ == old(buf)@ + key_total_byte_size(),
{
    buf.push(0x2c);  // ','
    buf.push(0x22);  // '"'
    buf.push(0x74);  // 't'
    buf.push(0x6f);  // 'o'
    buf.push(0x74);  // 't'
    buf.push(0x61);  // 'a'
    buf.push(0x6c);  // 'l'
    buf.push(0x5f);  // '_'
    buf.push(0x62);  // 'b'
    buf.push(0x79);  // 'y'
    buf.push(0x74);  // 't'
    buf.push(0x65);  // 'e'
    buf.push(0x5f);  // '_'
    buf.push(0x73);  // 's'
    buf.push(0x69);  // 'i'
    buf.push(0x7a);  // 'z'
    buf.push(0x65);  // 'e'
    buf.push(0x22);  // '"'
    buf.push(0x3a);  // ':'
    assert(final(buf)@ =~= old(buf)@ + key_total_byte_size());
}

/// Appends `,"compressed_size":` to `buf`.
fn push_key_compressed_size(buf: &mut Vec<u8>)
    ensures
        final(buf)@ == old(buf)@ + key_compressed_size(),
{
    buf.push(0x2c);  // ','
    buf.push(0x22);  // '"'
    buf.push(0x63);  // 'c'
    buf.push(0x6f);  // 'o'
    buf.push(0x6d);  // 'm'
    buf.push(0x70);  // 'p'
    buf.push(0x72);  // 'r'
    buf.push(0x65);  // 'e'
    buf.push(0x73);  // 's'
    buf.push(0x73);  // 's'
    buf.push(0x65);  // 'e'
    buf.push(0x64);  // 'd'
    buf.push(0x5f);  // '_'
    buf.push(0x73);  // 's'
    buf.push(0x69);  // 'i'
    buf.push(0x7a);  // 'z'
    buf.push(0x65);  // 'e'
    buf.push(0x22);  // '"'
    buf.push(0x3a);  // ':'
    assert(final(buf)@ =~= old(buf)@ + key_compressed_size());
}

/// Appends `,"ordinal":` to `buf`.
fn push_key_ordinal(buf: &mut Vec<u8>)
    ensures
        final(buf)@ == old(buf)@ + key_ordinal(),
{
    buf.push(0x2c);  // ','
    buf.push(0x22);  // '"'
    buf.push(0x6f);  // 'o'
    buf.push(0x72);  // 'r'
    buf.push(0x64);  // 'd'
    buf.push(0x69);  // 'i'
    buf.push(0x6e);  // 'n'
    buf.push(0x61);  // 'a'
    buf.push(0x6c);  // 'l'
    buf.push(0x22);  // '"'
    buf.push(0x3a);  // ':'
    assert(final(buf)@ =~= old(buf)@ + key_ordinal());
}

/// Appends `,"file_offset":` to `buf`.
fn push_key_file_offset(buf: &mut Vec<u8>)
    ensures
        final(buf)@ == old(buf)@ + key_file_offset(),
{
    buf.push(0x2c);  // ','
    buf.push(0x22);  // '"'
    buf.push(0x66);  // 'f'
    buf.push(0x69);  // 'i'
    buf.push(0x6c);  // 'l'
    buf.push(0x65);  // 'e'
    buf.push(0x5f);  // '_'
    buf.push(0x6f);  // 'o'
    buf.push(0x66);  // 'f'
    buf.push(0x66);  // 'f'
    buf.push(0x73);  // 's'
    buf.push(0x65);  // 'e'
    buf.push(0x74);  // 't'
    buf.push(0x22);  // '"'
    buf.push(0x3a);  // ':'
    assert(final(buf)@ =~= old(buf)@ + key_file_offset());
}

/// Appends the full JSON object for `s` to `buf`.
#[verifier::rlimit(100)]
fn push_record(buf: &mut Vec<u8>, s: &BasicRowGroupStats)
    ensures
        final(buf)@ == old(buf)@ + record_json(s@),
{
    push_key_num_columns(buf);
    push_usize_json(buf, s.num_columns);
    push_key_num_rows(buf);
    push_i64_json(buf, s.num_rows);
    push_key_total_byte_size(buf);
    push_i64_json(buf, s.total_byte_size);
    push_key_compressed_size(buf);
    push_i64_json(buf, s.compressed_size);
    push_key_ordinal(buf);
    match s.ordinal {
        Some(x) => push_i32_json(buf, x),
        None => push_null(buf),
    }
    push_key_file_offset(buf);
    match s.file_offset {
        Some(x) => push_i64_json(buf, x),
        None => push_null(buf),
    }
    buf.push(0x7d);  // '}'
    assert(final(buf)@ =~= old(buf)@ + record_json(s@));
}

/// Serializes one record into `buf`, clearing it first: afterwards `buf`
/// holds exactly the record's JSON object.
pub fn stats2buf(s: &BasicRowGroupStats, buf: &mut Vec<u8>)
    ensures
        final(buf)@ == record_json(s@),
{
    buf.clear();
    push_record(buf, s);
}

/// Appending one record's model on the right extends the stream by that
/// record's JSON object.
proof fn lemma_stream_json_snoc(s: Seq<StatsView>, v: StatsView)
    ensures
        stream_json(s.push(v)) == stream_json(s) + record_json(v),
    decreases s.len(),
{
    if s.len() == 0 {
        assert(s.push(v)[0] == v);
        assert(s.push(v).drop_first() =~= Seq::<StatsView>::empty());
        assert(stream_json(s.push(v)) == record_json(v) + stream_json(s.push(v).drop_first()));
        assert(stream_json(s.push(v).drop_first()) == Seq::<u8>::empty());
        assert(stream_json(s) == Seq::<u8>::empty());
        assert(record_json(v) + Seq::<u8>::empty() =~= Seq::<u8>::empty() + record_json(v));
        assert(stream_json(s.push(v)) =~= stream_json(s) + record_json(v));
    } else {
        assert(s.push(v)[0] == s[0]);
        assert(s.push(v).drop_first() =~= s.drop_first().push(v));
        lemma_stream_json_snoc(s.drop_first(), v);
        assert(stream_json(s.push(v)) == record_json(s[0]) + stream_json(s.drop_first().push(v)));
        assert(stream_json(s) == record_json(s[0]) + stream_json(s.drop_first()));
        vstd::seq_lib::lemma_concat_associative(
            record_json(s[0]),
            stream_json(s.drop_first()),
            record_json(v),
        );
        assert(stream_json(s.push(v)) =~= stream_json(s) + record_json(v));
    }
}

/// Serializes a whole sequence of records: the result is their JSON
/// objects concatenated in the records' order, and nothing else. In
/// particular an empty sequence yields an empty byte vector.
pub fn stats2bytes(stats: &Vec<BasicRowGroupStats>) -> (r: Vec<u8>)
    ensures
        r@ == stream_json(stats_views(stats@)),
{
    let mut out: Vec<u8> = Vec::new();
    let mut buf: Vec<u8> = Vec::new();
    let mut i: usize = 0;
    while i < stats.len()
        invariant
            i <= stats.len(),
            out@ == stream_json(stats_views(stats@).take(i as int)),
        decreases stats.len() - i,
    {
        stats2buf(&stats[i], &mut buf);
        out.append(&mut buf);
        proof {
            let views = stats_views(stats@);
            assert(views.take(i + 1) =~= views.take(i as int).push(views[i as int]));
            lemma_stream_json_snoc(views.take(i as int), views[i as int]);
        }
        i = i + 1;
    }
    proof {
        assert(stats_views(stats@).take(stats@.len() as int) =~= stats_views(stats@));
    }
    out
}

/// A record sequence of length zero serializes to zero output bytes.
pub proof fn lemma_empty_stream_empty_output(s: Seq<StatsView>)
    requires
        s.len() == 0,
    ensures
        stream_json(s).len() == 0,
{
}

/// Serialization is deterministic: two runs over equal record sequences
/// produce byte-identical output.
pub proof fn lemma_stream_deterministic(s1: Seq<StatsView>, s2: Seq<StatsView>)
    requires
        s1 == s2,
    ensures
        stream_json(s1) == stream_json(s2),
{
}

} // verus!
