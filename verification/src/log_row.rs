//! The stored form of a log entry, and the conversions between it and the message
//! that clients send.
use vstd::prelude::*;

use crate::grpc::{
    entries_map, fields_text_entries, text_pairs, Kind, LogEntryRequest, Struct, Timestamp, Value,
};

verus! {

/// Rust's integer division, which rounds toward zero.
pub open spec fn trunc_div(a: int, b: int) -> int
    recommends
        b > 0,
{
    if a >= 0 {
        a / b
    } else {
        -((-a) / b)
    }
}

/// The remainder that goes with `trunc_div`; it has the sign of `a`.
pub open spec fn trunc_rem(a: int, b: int) -> int
    recommends
        b > 0,
{
    a - trunc_div(a, b) * b
}

/// The timestamp of a request, the Unix epoch when it has none.
pub open spec fn timestamp_or_epoch(ts: Option<Timestamp>) -> Timestamp {
    match ts {
        Some(t) => t,
        None => Timestamp { seconds: 0, nanos: 0 },
    }
}

/// Milliseconds since the epoch of a request's timestamp: its seconds times a
/// thousand, plus its nanoseconds divided by a million, rounded toward zero.
pub open spec fn timestamp_millis(ts: Option<Timestamp>) -> int {
    let t = timestamp_or_epoch(ts);
    t.seconds * 1000 + trunc_div(t.nanos as int, 1_000_000)
}

/// Whether the millisecond count of a timestamp, and the product of its seconds
/// by a thousand, fit in an `i64`.
pub open spec fn millis_fit(ts: Option<Timestamp>) -> bool {
    let t = timestamp_or_epoch(ts);
    &&& i64::MIN <= t.seconds * 1000 <= i64::MAX
    &&& i64::MIN <= timestamp_millis(ts) <= i64::MAX
}

/// The timestamp of a millisecond count: the whole seconds, rounded toward zero,
/// and the rest as nanoseconds (negative for a negative count).
pub open spec fn millis_timestamp(millis: int) -> Timestamp {
    Timestamp {
        seconds: trunc_div(millis, 1000) as i64,
        nanos: (trunc_rem(millis, 1000) * 1_000_000) as i32,
    }
}

/// The named texts of a request's metadata, in order; none without metadata.
pub open spec fn request_text_entries(metadata: Option<Struct>) -> Seq<(Seq<char>, Seq<char>)> {
    match metadata {
        Some(s) => fields_text_entries(s.fields@),
        None => Seq::empty(),
    }
}

/// A request's metadata as a map from names to texts; empty without metadata.
pub open spec fn request_metadata_map(metadata: Option<Struct>) -> Map<Seq<char>, Seq<char>> {
    match metadata {
        Some(s) => s.text_map(),
        None => Map::empty(),
    }
}

/// A log entry as it is stored: milliseconds since the epoch, a severity, the
/// emitting service, the message and metadata as named texts (read in order, a
/// later entry overriding an earlier one of the same name).
#[derive(Clone, Debug, PartialEq)]
pub struct LogRow {
    pub timestamp: i64,
    pub level: i8,
    pub service_name: String,
    pub message: String,
    pub metadata: Vec<(String, String)>,
}

impl LogRow {
    /// The metadata of this row as a map from names to texts.
    pub open spec fn metadata_map(self) -> Map<Seq<char>, Seq<char>> {
        entries_map(text_pairs(self.metadata@))
    }

    /// The millisecond count of a request's timestamp (the epoch when it has
    /// none), or `None` where it does not fit in an `i64`.
    pub fn millis_of(ts: &Option<Timestamp>) -> (r: Option<i64>)
        ensures
            r == (if millis_fit(*ts) {
                Some(timestamp_millis(*ts) as i64)
            } else {
                None
            }),
    {
        let (seconds, nanos): (i64, i32) = match ts {
            Some(t) => (t.seconds, t.nanos),
            None => (0, 0),
        };
        let scaled: i128 = seconds as i128 * 1000;
        let millis: i128 = scaled + (nanos as i128) / 1_000_000;
        if scaled < i64::MIN as i128 || scaled > i64::MAX as i128 {
            return None;
        }
        if millis < i64::MIN as i128 || millis > i64::MAX as i128 {
            return None;
        }
        Some(millis as i64)
    }

    /// The row stored for a request.
    ///
    /// Its time is the request's timestamp in milliseconds (the epoch when it has
    /// none), its level the request's level cut to eight bits, its service name
    /// and message those of the request, and its metadata the request's fields
    /// as text, in order, leaving out the fields without a value (no metadata
    /// where the request has none).
    pub fn from(value: LogEntryRequest) -> (row: LogRow)
        requires
            millis_fit(value.timestamp),
        ensures
            row.timestamp == timestamp_millis(value.timestamp),
            row.level == value.level as i8,
            row.service_name == value.service_name,
            row.message == value.message,
            text_pairs(row.metadata@) == request_text_entries(value.metadata),
            row.metadata_map() == request_metadata_map(value.metadata),
    {
        let ts = match value.timestamp {
            Some(t) => t,
            None => Timestamp { seconds: 0, nanos: 0 },
        };
        let millis = (ts.seconds * 1000) + (ts.nanos as i64 / 1_000_000);
        let metadata: Vec<(String, String)> = match &value.metadata {
            Some(s) => s.text_entries(),
            None => Vec::new(),
        };
        LogRow {
            timestamp: millis,
            level: value.level as i8,
            service_name: value.service_name,
            message: value.message,
            metadata,
        }
    }
}

/// Whether a sequence of fields holds, in order, the named texts of a row's
/// metadata, each as a string value.
pub open spec fn fields_hold_texts(fields: Seq<(String, Value)>, texts: Seq<(String, String)>) -> bool {
    &&& fields.len() == texts.len()
    &&& forall|i: int|
        #![trigger fields[i]]
        0 <= i < fields.len() ==> {
            &&& fields[i].0@ == texts[i].0@
            &&& fields[i].1.kind matches Some(Kind::StringValue(t)) && t@ == texts[i].1@
        }
}

impl LogEntryRequest {
    /// The request that carries a row: the row's milliseconds split into whole
    /// seconds (rounded toward zero) and the remaining nanoseconds, its level,
    /// service name and message, and its metadata as string values, or no
    /// metadata where the row has none.
    pub fn from(value: LogRow) -> (r: LogEntryRequest)
        ensures
            r.timestamp == Some(millis_timestamp(value.timestamp as int)),
            r.level == value.level as i32,
            r.service_name == value.service_name,
            r.message == value.message,
            value.metadata@.len() == 0 ==> r.metadata is None,
            value.metadata@.len() != 0 ==> (r.metadata matches Some(s) && fields_hold_texts(
                s.fields@,
                value.metadata@,
            ) && s.text_map() == value.metadata_map()),
    {
        let timestamp = Some(
            Timestamp {
                seconds: value.timestamp / 1000,
                nanos: ((value.timestamp % 1000) * 1_000_000) as i32,
            },
        );
        let metadata = if value.metadata.len() == 0 {
            None
        } else {
            Some(metadata_struct(&value.metadata))
        };
        LogEntryRequest {
            timestamp,
            level: value.level as i32,
            service_name: value.service_name,
            message: value.message,
            metadata,
        }
    }
}

/// Metadata whose fields are the given named texts, each as a string value.
fn metadata_struct(texts: &Vec<(String, String)>) -> (s: Struct)
    ensures
        fields_hold_texts(s.fields@, texts@),
        s.text_map() == entries_map(text_pairs(texts@)),
{
    let mut fields: Vec<(String, Value)> = Vec::new();
    let n = texts.len();
    let mut i: usize = 0;
    while i < n
        invariant
            n == texts@.len(),
            i <= n,
            fields_hold_texts(fields@, texts@.take(i as int)),
        decreases n - i,
    {
        let (name, text) = &texts[i];
        fields.push((name.clone(), Value { kind: Some(Kind::StringValue(text.clone())) }));
        i = i + 1;
    }
    assert(texts@.take(n as int) =~= texts@);
    let s = Struct { fields };
    proof {
        lemma_string_fields_text_entries(s.fields@, texts@);
    }
    s
}

/// Fields that hold given texts as string values read back as those texts.
proof fn lemma_string_fields_text_entries(fields: Seq<(String, Value)>, texts: Seq<(String, String)>)
    requires
        fields_hold_texts(fields, texts),
    ensures
        crate::grpc::fields_text_entries(fields) == text_pairs(texts),
    decreases fields.len(),
{
    if fields.len() > 0 {
        let f0 = fields.drop_last();
        let t0 = texts.drop_last();
        assert(fields_hold_texts(f0, t0)) by {
            assert forall|i: int| 0 <= i < f0.len() implies {
                &&& f0[i].0@ == t0[i].0@
                &&& f0[i].1.kind matches Some(Kind::StringValue(t)) && t@ == t0[i].1@
            } by {
                assert(f0[i] == fields[i]);
            }
        }
        lemma_string_fields_text_entries(f0, t0);
        let last = fields.len() - 1;
        assert(fields[last] == fields.last());
        assert(text_pairs(texts) =~= text_pairs(t0).push((texts.last().0@, texts.last().1@)));
    } else {
        assert(text_pairs(texts) =~= Seq::empty());
    }
}

/// Facts about division by a positive constant, rounded toward zero.
proof fn lemma_trunc_div_facts(a: int, b: int)
    requires
        b > 0,
    ensures
        trunc_div(a, b) * b + trunc_rem(a, b) == a,
        a >= 0 ==> 0 <= trunc_rem(a, b) < b && 0 <= trunc_div(a, b) * b <= a,
        a < 0 ==> -b < trunc_rem(a, b) <= 0 && a <= trunc_div(a, b) * b <= 0,
{
    if a >= 0 {
        assert(0 <= a % b < b && a == b * (a / b) + a % b && a / b >= 0) by (nonlinear_arith)
            requires
                a >= 0,
                b > 0,
        ;
        assert((a / b) * b == b * (a / b)) by (nonlinear_arith);
    } else {
        let c = -a;
        assert(0 <= c % b < b && c == b * (c / b) + c % b && c / b >= 0) by (nonlinear_arith)
            requires
                c > 0,
                b > 0,
        ;
        assert((c / b) * b == b * (c / b)) by (nonlinear_arith);
        assert(-(c / b) * b == -((c / b) * b)) by (nonlinear_arith);
    }
}

/// An exact multiple divided back gives the factor.
proof fn lemma_trunc_div_multiple(x: int, b: int)
    requires
        b > 0,
    ensures
        trunc_div(x * b, b) == x,
{
    if x >= 0 {
        assert(x * b >= 0 && (x * b) / b == x) by (nonlinear_arith)
            requires
                x >= 0,
                b > 0,
        ;
    } else {
        assert(x * b < 0 && (-(x * b)) / b == -x) by (nonlinear_arith)
            requires
                x < 0,
                b > 0,
        ;
    }
}

/// A row turned into a request and back keeps its time to the millisecond, its
/// level, its service name, its message and its metadata: the request's time
/// fits, and reads back as the row's milliseconds; the level survives the
/// widening and the cut; a row without metadata gives a request without, which
/// gives an empty map again; and fields that hold the row's texts as string
/// values read back as the row's metadata map.
pub proof fn lemma_row_request_round_trip(row: LogRow)
    ensures
        millis_fit(Some(millis_timestamp(row.timestamp as int))),
        timestamp_millis(Some(millis_timestamp(row.timestamp as int))) == row.timestamp,
        ((row.level as i32) as i8) == row.level,
        row.metadata@.len() == 0 ==> request_metadata_map(None) == row.metadata_map(),
        forall|fields: Seq<(String, Value)>|
            fields_hold_texts(fields, row.metadata@) ==> entries_map(fields_text_entries(fields))
                == row.metadata_map(),
{
    if row.metadata@.len() == 0 {
        assert(text_pairs(row.metadata@) =~= Seq::empty());
        assert(row.metadata_map() =~= Map::empty());
    }
    assert forall|fields: Seq<(String, Value)>|
        fields_hold_texts(fields, row.metadata@) implies entries_map(fields_text_entries(fields))
        == row.metadata_map() by {
        lemma_string_fields_text_entries(fields, row.metadata@);
    }

    let m = row.timestamp as int;
    let q = trunc_div(m, 1000);
    let r = trunc_rem(m, 1000);
    lemma_trunc_div_facts(m, 1000);
    assert(i64::MIN <= q <= i64::MAX);
    assert(-1_000_000_000 < r * 1_000_000 < 1_000_000_000) by (nonlinear_arith)
        requires
            -1000 < r < 1000,
    ;
    let t = millis_timestamp(m);
    assert(t.seconds == q);
    assert(t.nanos == r * 1_000_000);
    lemma_trunc_div_multiple(r, 1_000_000);
    let level = row.level;
    assert(((level as i32) as i8) == level) by (bit_vector);
}

/// A request whose time is at or after the epoch, with its nanoseconds under a
/// second, turned into a row and back keeps its seconds and its nanoseconds cut
/// to whole milliseconds; a level that fits in eight bits is kept as it is.
pub proof fn lemma_request_row_round_trip(request: LogEntryRequest)
    requires
        request.timestamp matches Some(t) && 0 <= t.seconds && 0 <= t.nanos < 1_000_000_000
            && t.seconds * 1000 + 999 <= i64::MAX,
        -128 <= request.level <= 127,
    ensures
        millis_fit(request.timestamp),
        ({
            let t = timestamp_or_epoch(request.timestamp);
            millis_timestamp(timestamp_millis(request.timestamp)) == Timestamp {
                seconds: t.seconds,
                nanos: (t.nanos - t.nanos % 1_000_000) as i32,
            }
        }),
        ((request.level as i8) as i32) == request.level,
{
    let t = timestamp_or_epoch(request.timestamp);
    let s = t.seconds as int;
    let n = t.nanos as int;
    let k = n / 1_000_000;
    assert(0 <= k < 1000 && k * 1_000_000 == n - n % 1_000_000) by (nonlinear_arith)
        requires
            0 <= n < 1_000_000_000,
            k == n / 1_000_000,
    ;
    let m = s * 1000 + k;
    assert(timestamp_millis(request.timestamp) == m);
    assert(m / 1000 == s && m % 1000 == k) by (nonlinear_arith)
        requires
            s >= 0,
            0 <= k < 1000,
            m == s * 1000 + k,
    ;
    assert(trunc_div(m, 1000) == s);
    assert(trunc_rem(m, 1000) == k);
    let level = request.level;
    assert(-128 <= level <= 127 ==> ((level as i8) as i32) == level) by (bit_vector);
}

/// A stored row keeps every metadata field of its request that has a value: the
/// row's entries are the request's fields with a value, in order, each as its
/// name and the text of its value; when every field has a value, the row has
/// exactly as many entries as the request has fields, however many that is.
pub proof fn lemma_row_metadata_keeps_every_field(metadata: Struct)
    ensures
        request_text_entries(Some(metadata)) == fields_text_entries(metadata.fields@),
        (forall|i: int|
            0 <= i < metadata.fields@.len() ==> (#[trigger] metadata.fields@[i]).1.kind is Some)
            ==> {
            &&& request_text_entries(Some(metadata)).len() == metadata.fields@.len()
            &&& forall|i: int|
                0 <= i < metadata.fields@.len() ==> #[trigger] request_text_entries(
                    Some(metadata),
                )[i] == (
                    metadata.fields@[i].0@,
                    crate::grpc::kind_text(metadata.fields@[i].1.kind.unwrap()),
                )
        },
        request_text_entries(None) == Seq::<(Seq<char>, Seq<char>)>::empty(),
{
    if forall|i: int|
        0 <= i < metadata.fields@.len() ==> (#[trigger] metadata.fields@[i]).1.kind is Some {
        crate::grpc::lemma_fields_text_entries_keep_every_field(metadata.fields@);
    }
}

} // verus!
