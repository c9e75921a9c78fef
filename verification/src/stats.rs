//! Per-chunk statistics of a column, and their rendering to display
//! strings.
//!
//! A chunk's min/max values are a tagged union over the physical types
//! of the storage format, stringified by one operation parameterized by
//! the variant. Byte-array values are decoded as UTF-8 for display; a
//! value that is not valid UTF-8 renders as a fixed placeholder rather
//! than failing.

use vstd::prelude::*;
use vstd::string::*;
use vstd::utf8::*;

use crate::numfmt::{bool_str, bool_to_string, dec_str, dec_str_signed, empty_string,
    i64_to_string, u64_to_string};

verus! {

/// The placeholder shown for a byte-array value that is not valid
/// UTF-8.
pub open spec fn binary_placeholder() -> Seq<char> {
    "<binary>"@
}

/// How a byte-array value is displayed: decoded as UTF-8 when the bytes
/// are valid UTF-8, as the placeholder otherwise.
pub open spec fn bytes_display(b: Seq<u8>) -> Seq<char> {
    if valid_utf8(b) {
        decode_utf8(b)
    } else {
        binary_placeholder()
    }
}

/// A single min or max value of a chunk, tagged by the physical type it
/// was stored as.
///
/// Floating-point values, and the 96-bit legacy timestamps, are carried
/// as the display strings the data source rendered them to: their
/// numeric forms live outside this library.
#[derive(Clone, Debug, PartialEq, Eq)]
pub enum StatValue {
    /// A boolean value.
    Boolean(bool),
    /// A 32-bit signed integer.
    Int32(i32),
    /// A 64-bit signed integer.
    Int64(i64),
    /// A 96-bit legacy timestamp, already rendered.
    Int96(String),
    /// A 32-bit floating-point value, already rendered.
    Float(String),
    /// A 64-bit floating-point value, already rendered.
    Double(String),
    /// A variable-length byte array.
    ByteArray(Vec<u8>),
    /// A fixed-length byte array.
    FixedLenByteArray(Vec<u8>),
}

/// The display string of a single statistic value.
pub open spec fn stat_value_str(v: StatValue) -> Seq<char> {
    match v {
        StatValue::Boolean(b) => bool_str(b),
        StatValue::Int32(x) => dec_str_signed(x as int),
        StatValue::Int64(x) => dec_str_signed(x as int),
        StatValue::Int96(s) => s@,
        StatValue::Float(s) => s@,
        StatValue::Double(s) => s@,
        StatValue::ByteArray(b) => bytes_display(b@),
        StatValue::FixedLenByteArray(b) => bytes_display(b@),
    }
}

/// The display string of an optional value: absent renders as the empty
/// string.
pub open spec fn opt_stat_value_str(v: Option<StatValue>) -> Seq<char> {
    match v {
        Some(x) => stat_value_str(x),
        None => Seq::empty(),
    }
}

/// The display string of an optional count: absent renders as the empty
/// string.
pub open spec fn opt_count_str(v: Option<u64>) -> Seq<char> {
    match v {
        Some(x) => dec_str(x as nat),
        None => Seq::empty(),
    }
}

/// Relies on `core::str::from_utf8`: it returns `Ok` exactly when the
/// bytes are valid UTF-8, and the resulting string slice is those bytes
/// read as UTF-8.
#[verifier::external_body]
fn utf8_to_string(bytes: &[u8]) -> (r: Option<String>)
    ensures
        match r {
            Some(s) => valid_utf8(bytes@) && s@ == decode_utf8(bytes@),
            None => !valid_utf8(bytes@),
        },
{
    match core::str::from_utf8(bytes) {
        Ok(s) => Some(s.to_owned()),
        Err(_) => None,
    }
}

/// Renders a byte-array value for display: the bytes decoded as UTF-8
/// when they are valid, the placeholder otherwise.
pub fn display_bytes(bytes: &Vec<u8>) -> (r: String)
    ensures
        r@ == bytes_display(bytes@),
{
    match utf8_to_string(bytes.as_slice()) {
        Some(s) => s,
        None => {
            proof {
                reveal_strlit("<binary>");
            }
            "<binary>".to_owned()
        },
    }
}

impl StatValue {
    /// Renders this value for display, by variant: booleans as words,
    /// integers in decimal, pre-rendered values as they are, byte
    /// arrays decoded as UTF-8 or as the placeholder.
    pub fn display(&self) -> (r: String)
        ensures
            r@ == stat_value_str(*self),
    {
        match self {
            StatValue::Boolean(b) => bool_to_string(*b),
            StatValue::Int32(x) => i64_to_string(*x as i64),
            StatValue::Int64(x) => i64_to_string(*x),
            StatValue::Int96(s) => s.clone(),
            StatValue::Float(s) => s.clone(),
            StatValue::Double(s) => s.clone(),
            StatValue::ByteArray(b) => display_bytes(b),
            StatValue::FixedLenByteArray(b) => display_bytes(b),
        }
    }
}

/// The value statistics of one column chunk: optional min and max
/// values, and optional distinct and null counts.
#[derive(Clone, Debug, PartialEq, Eq)]
pub struct ValueStatistics {
    /// The smallest value in the chunk, when recorded.
    pub min: Option<StatValue>,
    /// The largest value in the chunk, when recorded.
    pub max: Option<StatValue>,
    /// How many distinct values the chunk holds, when recorded.
    pub distinct_count: Option<u64>,
    /// How many null values the chunk holds, when recorded.
    pub null_count: Option<u64>,
}

impl ValueStatistics {
    /// Renders the minimum for display; absent renders empty.
    pub fn min_display(&self) -> (r: String)
        ensures
            r@ == opt_stat_value_str(self.min),
    {
        match &self.min {
            Some(v) => v.display(),
            None => empty_string(),
        }
    }

    /// Renders the maximum for display; absent renders empty.
    pub fn max_display(&self) -> (r: String)
        ensures
            r@ == opt_stat_value_str(self.max),
    {
        match &self.max {
            Some(v) => v.display(),
            None => empty_string(),
        }
    }

    /// Renders the distinct count for display; absent renders empty.
    pub fn distinct_count_display(&self) -> (r: String)
        ensures
            r@ == opt_count_str(self.distinct_count),
    {
        match self.distinct_count {
            Some(v) => u64_to_string(v),
            None => empty_string(),
        }
    }

    /// Renders the null count for display; absent renders empty.
    pub fn null_count_display(&self) -> (r: String)
        ensures
            r@ == opt_count_str(self.null_count),
    {
        match self.null_count {
            Some(v) => u64_to_string(v),
            None => empty_string(),
        }
    }
}

/// Truncation of a byte count to whole kilobytes: division by 1000
/// rounded toward zero.
pub open spec fn kb_of(v: int) -> int {
    if v >= 0 {
        v / 1000
    } else {
        -((-v) / 1000)
    }
}

/// Truncates a byte count to whole kilobytes, rounding toward zero.
pub fn size_kb(v: i64) -> (r: i64)
    ensures
        r as int == kb_of(v as int),
{
    proof {
        if v >= 0 {
            vstd::arithmetic::div_mod::lemma_div_pos_is_pos(v as int, 1000);
            vstd::arithmetic::div_mod::lemma_div_nonincreasing(v as int, 1000);
        } else {
            vstd::arithmetic::div_mod::lemma_div_pos_is_pos(-(v as int), 1000);
            vstd::arithmetic::div_mod::lemma_div_nonincreasing(-(v as int), 1000);
        }
    }
    match v.checked_div(1000) {
        Some(r) => r,
        None => 0,
    }
}

/// A sequence of strings joined by a separator.
pub open spec fn joined(parts: Seq<Seq<char>>, sep: Seq<char>) -> Seq<char>
    decreases parts.len(),
{
    if parts.len() == 0 {
        Seq::empty()
    } else if parts.len() == 1 {
        parts[0]
    } else {
        joined(parts.drop_last(), sep) + sep + parts.last()
    }
}

/// The metadata of one column chunk: the portion of one column's data
/// within one row group, with its counts, encodings, sizes, and
/// optional value statistics.
#[derive(Clone, Debug, PartialEq, Eq)]
pub struct ColumnChunkMeta {
    /// The name of the column this chunk belongs to.
    pub column_name: String,
    /// How many values the chunk holds.
    pub num_values: i64,
    /// The encodings used for the chunk, in the order recorded.
    pub encodings: Vec<String>,
    /// The compression applied to the chunk.
    pub compression: String,
    /// The chunk's size in bytes as stored.
    pub compressed_size: i64,
    /// The chunk's size in bytes once decompressed.
    pub uncompressed_size: i64,
    /// The chunk's value statistics, when recorded.
    pub statistics: Option<ValueStatistics>,
}

impl ColumnChunkMeta {
    /// The stored size truncated to whole kilobytes, for compact
    /// display.
    pub fn compressed_kb(&self) -> (r: i64)
        ensures
            r as int == kb_of(self.compressed_size as int),
    {
        size_kb(self.compressed_size)
    }

    /// The decompressed size truncated to whole kilobytes, for compact
    /// display.
    pub fn uncompressed_kb(&self) -> (r: i64)
        ensures
            r as int == kb_of(self.uncompressed_size as int),
    {
        size_kb(self.uncompressed_size)
    }

    /// Renders the value count in decimal.
    pub fn num_values_display(&self) -> (r: String)
        ensures
            r@ == dec_str_signed(self.num_values as int),
    {
        i64_to_string(self.num_values)
    }

    /// The encoding labels joined by a comma and a space.
    pub fn encodings_display(&self) -> (r: String)
        ensures
            r@ == joined(self.encodings.deep_view(), ", "@),
    {
        let ghost parts = self.encodings.deep_view();
        let mut out = empty_string();
        let n = self.encodings.len();
        let mut i: usize = 0;
        proof {
            assert(parts.take(0) =~= Seq::empty());
        }
        while i < n
            invariant
                i <= n,
                n == self.encodings@.len(),
                parts == self.encodings.deep_view(),
                parts.len() == n,
                forall|k: int| 0 <= k < n ==> parts[k] == (#[trigger] self.encodings@[k])@,
                out@ == joined(parts.take(i as int), ", "@),
            decreases n - i,
        {
            if i > 0 {
                out.append(", ");
            }
            out.append(self.encodings[i].as_str());
            i += 1;
            proof {
                assert(parts.take(i as int).drop_last() =~= parts.take(i - 1));
                assert(parts.take(i as int).last() == parts[i - 1]);
            }
        }
        proof {
            assert(parts.take(n as int) =~= parts);
        }
        out
    }
}

/// A byte-array statistic whose bytes are the UTF-8 encoding of a
/// character sequence displays as exactly that sequence: encoding and
/// display are mutually inverse on valid text.
pub proof fn lemma_bytes_display_round_trip(text: Seq<char>)
    ensures
        bytes_display(encode_utf8(text)) == text,
{
    broadcast use encode_utf8_valid_utf8, encode_utf8_decode_utf8;

}

/// A byte-array statistic whose bytes are not valid UTF-8 displays as
/// the placeholder, never as a fault.
pub proof fn lemma_bytes_display_invalid(b: Seq<u8>)
    requires
        !valid_utf8(b),
    ensures
        bytes_display(b) == binary_placeholder(),
{
}

} // verus!
