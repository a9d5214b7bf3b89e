//! Event batches as Parquet files: the columns of a batch laid out in the
//! stored schema's order, handed to the Arrow writer.

use std::sync::Arc;
use vstd::prelude::*;
use arrow_array::{ArrayRef, RecordBatch, StringArray, TimestampMicrosecondArray};
use parquet::arrow::ArrowWriter;
use crate::ingest::{
    ColumnSpec, ColumnType, EventColumns, event_columns, event_schema, event_schema_spec,
    event_instants_valid,
};
use crate::normalize::{IngestError, NormalizedEvent, EventView, opt_text};
use crate::text::copy_str;
use crate::time::{UtcTimestamp, micros_of};
use vstd::utf8::encode_utf8;

verus! {

/// The values of one stored column, one entry per row, `None` for null.
pub enum ColumnData {
    /// Instants in microseconds since the epoch, in UTC.
    Times(Vec<Option<i64>>),
    /// Texts.
    Texts(Vec<Option<String>>),
}

/// The values a column holds, as plain values.
pub enum ColumnValues {
    Times(Seq<Option<i64>>),
    Texts(Seq<Option<Seq<char>>>),
}

/// The plain values of a column.
pub open spec fn column_values(c: ColumnData) -> ColumnValues {
    match c {
        ColumnData::Times(v) => ColumnValues::Times(v@),
        ColumnData::Texts(v) => ColumnValues::Texts(v@.map_values(|o: Option<String>| opt_text(o))),
    }
}

/// A schema as plain values: each column's name, type and nullability.
pub open spec fn schema_values(specs: Seq<ColumnSpec>) -> Seq<(Seq<char>, ColumnType, bool)> {
    specs.map_values(|s: ColumnSpec| (s.name@, s.column_type, s.nullable))
}

/// The bytes of the Parquet file the Arrow writer (`parquet::arrow::ArrowWriter`
/// with default properties) writes for one record batch of the given schema
/// and columns.
pub uninterp spec fn parquet_file_of(schema: Seq<(Seq<char>, ColumnType, bool)>, columns: Seq<ColumnValues>) -> Seq<u8>;

/// Column `c` holds values of type `t`.
pub open spec fn column_has_type(t: ColumnType, c: ColumnData) -> bool {
    match c {
        ColumnData::Times(_) => t == ColumnType::UtcTimestampMicros,
        ColumnData::Texts(_) => t == ColumnType::Text,
    }
}

/// The UTF-8 bytes of the texts of a column.
pub open spec fn text_bytes(v: Seq<Option<Seq<char>>>) -> nat
    decreases v.len(),
{
    if v.len() == 0 {
        0
    } else {
        text_bytes(v.drop_last()) + match v.last() {
            Some(t) => encode_utf8(t).len(),
            None => 0,
        }
    }
}

/// A text column's bytes fit the 32-bit offsets of an Arrow string array
/// (`StringArray::from` panics beyond them).
pub open spec fn fits_string_array(c: ColumnValues) -> bool {
    match c {
        ColumnValues::Texts(v) => text_bytes(v) <= i32::MAX,
        ColumnValues::Times(_) => true,
    }
}

/// The number of rows of a column.
pub open spec fn values_len(c: ColumnValues) -> nat {
    match c {
        ColumnValues::Texts(v) => v.len(),
        ColumnValues::Times(v) => v.len(),
    }
}

/// A column holds no null.
pub open spec fn values_without_null(c: ColumnValues) -> bool {
    match c {
        ColumnValues::Texts(v) => forall|i: int| 0 <= i < v.len() ==> (#[trigger] v[i]) is Some,
        ColumnValues::Times(v) => forall|i: int| 0 <= i < v.len() ==> (#[trigger] v[i]) is Some,
    }
}

/// A table the writer takes: at least one column, every column as long as
/// the first, and no null in a column its schema declares non-nullable.
/// These are the checks a record batch is built with; writing a valid batch
/// into memory does not fail.
pub open spec fn table_writable(schema: Seq<(Seq<char>, ColumnType, bool)>, columns: Seq<ColumnValues>) -> bool {
    &&& columns.len() > 0
    &&& schema.len() == columns.len()
    &&& forall|i: int| 0 <= i < columns.len() ==> values_len(#[trigger] columns[i]) == values_len(columns[0])
    &&& forall|i: int| 0 <= i < columns.len() && !schema[i].2 ==> values_without_null(#[trigger] columns[i])
}

/// Writes one record batch into memory with
/// `RecordBatch::try_from_iter_with_nullable` (each column named and marked
/// nullable as its spec says, its type the array's: UTC microsecond
/// timestamps or UTF-8 text) and `ArrowWriter` (`try_new` with default
/// properties, `write`, `close`). What is stated: a file that is written is
/// the one the writer produces for this schema and these columns; a table
/// of equal-length columns without nulls where the schema forbids them is
/// written. Any other error of Arrow and Parquet is handed back as its
/// message. Text columns must fit 32-bit offsets, or the array builder
/// panics.
#[verifier::external_body]
fn write_parquet_table(specs: &Vec<ColumnSpec>, columns: Vec<ColumnData>) -> (r: Result<Vec<u8>, String>)
    requires
        specs@.len() == columns@.len(),
        forall|i: int| 0 <= i < specs@.len() ==> column_has_type(specs@[i].column_type, #[trigger] columns@[i]),
        forall|i: int| 0 <= i < columns@.len() ==> fits_string_array(column_values(#[trigger] columns@[i])),
    ensures
        r matches Ok(b) ==> b@ == parquet_file_of(schema_values(specs@), columns@.map_values(|c: ColumnData| column_values(c))),
        table_writable(schema_values(specs@), columns@.map_values(|c: ColumnData| column_values(c))) ==> r is Ok,
{
    let arrays = specs.iter().zip(columns).map(|(s, c)| (s.name, match c {
        ColumnData::Times(v) => Arc::new(TimestampMicrosecondArray::from(v).with_timezone("UTC")) as ArrayRef,
        ColumnData::Texts(v) => Arc::new(StringArray::from(v)) as ArrayRef,
    }, s.nullable));
    let batch = RecordBatch::try_from_iter_with_nullable(arrays).map_err(|e| e.to_string())?;
    let mut file = Vec::new();
    let mut writer = ArrowWriter::try_new(&mut file, batch.schema(), None).map_err(|e| e.to_string())?;
    writer.write(&batch).map_err(|e| e.to_string())?;
    writer.close().map_err(|e| e.to_string())?;
    Ok(file)
}

/// An optional instant, given as (seconds, nanoseconds), in microseconds
/// since the epoch.
pub open spec fn instant_micros(t: Option<(i64, u32)>) -> Option<i64> {
    match t {
        Some((seconds, nanos)) => Some((seconds * 1_000_000 + nanos / 1000) as i64),
        None => None,
    }
}

/// The stored columns of a batch of events, in the schema's order.
pub open spec fn event_table(events: Seq<EventView>) -> Seq<ColumnValues> {
    let n = events.len();
    seq![
        ColumnValues::Times(Seq::new(n, |i: int| Some(micros_of(events[i].received_at) as i64))),
        ColumnValues::Texts(Seq::new(n, |i: int| events[i].service)),
        ColumnValues::Texts(Seq::new(n, |i: int| events[i].api)),
        ColumnValues::Texts(Seq::new(n, |i: int| events[i].content_id)),
        ColumnValues::Texts(Seq::new(n, |i: int| events[i].event_type)),
        ColumnValues::Texts(Seq::new(n, |i: int| events[i].event_kind)),
        ColumnValues::Texts(Seq::new(n, |i: int| events[i].old_status)),
        ColumnValues::Texts(Seq::new(n, |i: int| events[i].new_status)),
        ColumnValues::Times(Seq::new(n, |i: int| instant_micros(events[i].old_updated_at))),
        ColumnValues::Times(Seq::new(n, |i: int| instant_micros(events[i].new_updated_at))),
        ColumnValues::Times(Seq::new(n, |i: int| instant_micros(events[i].draft_created_at))),
        ColumnValues::Times(Seq::new(n, |i: int| instant_micros(events[i].content_created_at))),
        ColumnValues::Times(Seq::new(n, |i: int| instant_micros(events[i].content_published_at))),
        ColumnValues::Texts(Seq::new(n, |i: int| Some(events[i].raw_payload))),
    ]
}

/// The views of a batch of events.
pub open spec fn event_views(events: Seq<NormalizedEvent>) -> Seq<EventView> {
    events.map_values(|e: NormalizedEvent| e@)
}

fn required_times(v: Vec<i64>) -> (r: Vec<Option<i64>>)
    ensures
        r@ == v@.map_values(|x: i64| Some(x)),
{
    let mut r: Vec<Option<i64>> = Vec::new();
    let mut i: usize = 0;
    while i < v.len()
        invariant
            i <= v.len(),
            r@ == v@.subrange(0, i as int).map_values(|x: i64| Some(x)),
        decreases v.len() - i,
    {
        r.push(Some(v[i]));
        i = i + 1;
        assert(r@ =~= v@.subrange(0, i as int).map_values(|x: i64| Some(x)));
    }
    assert(v@.subrange(0, v.len() as int) =~= v@);
    r
}

fn required_texts(v: Vec<String>) -> (r: Vec<Option<String>>)
    ensures
        r@.map_values(|o: Option<String>| opt_text(o)) == v@.map_values(|s: String| Some(s@)),
{
    let mut r: Vec<Option<String>> = Vec::new();
    let mut i: usize = 0;
    while i < v.len()
        invariant
            i <= v.len(),
            r@.len() == i,
            forall|j: int| 0 <= j < i ==> opt_text(#[trigger] r@[j]) == Some(v@[j]@),
        decreases v.len() - i,
    {
        r.push(Some(v[i].clone()));
        i = i + 1;
    }
    assert(r@.map_values(|o: Option<String>| opt_text(o)) =~= v@.map_values(|s: String| Some(s@)));
    r
}

/// The columns in the stored schema's order.
fn table_of(c: EventColumns) -> (r: Vec<ColumnData>)
    ensures
        r@.len() == 14,
        r@[0] == ColumnData::Times(r@[0]->Times_0) && r@[0]->Times_0@ == c.received_at@.map_values(|x: i64| Some(x)),
        r@[1] == ColumnData::Texts(c.service),
        r@[2] == ColumnData::Texts(c.api),
        r@[3] == ColumnData::Texts(c.content_id),
        r@[4] == ColumnData::Texts(c.event_type),
        r@[5] == ColumnData::Texts(c.event_kind),
        r@[6] == ColumnData::Texts(c.old_status),
        r@[7] == ColumnData::Texts(c.new_status),
        r@[8] == ColumnData::Times(c.old_updated_at),
        r@[9] == ColumnData::Times(c.new_updated_at),
        r@[10] == ColumnData::Times(c.draft_created_at),
        r@[11] == ColumnData::Times(c.content_created_at),
        r@[12] == ColumnData::Times(c.content_published_at),
        r@[13] == ColumnData::Texts(r@[13]->Texts_0)
            && r@[13]->Texts_0@.map_values(|o: Option<String>| opt_text(o)) == c.raw_payload@.map_values(|s: String| Some(s@)),
{
    let received_at = required_times(c.received_at);
    let raw_payload = required_texts(c.raw_payload);
    vec![
        ColumnData::Times(received_at),
        ColumnData::Texts(c.service),
        ColumnData::Texts(c.api),
        ColumnData::Texts(c.content_id),
        ColumnData::Texts(c.event_type),
        ColumnData::Texts(c.event_kind),
        ColumnData::Texts(c.old_status),
        ColumnData::Texts(c.new_status),
        ColumnData::Times(c.old_updated_at),
        ColumnData::Times(c.new_updated_at),
        ColumnData::Times(c.draft_created_at),
        ColumnData::Times(c.content_created_at),
        ColumnData::Times(c.content_published_at),
        ColumnData::Texts(raw_payload),
    ]
}

/// The texts of every column of the batch fit 32-bit string offsets.
pub open spec fn event_texts_fit(events: Seq<EventView>) -> bool {
    forall|k: int| 0 <= k < 14 ==> fits_string_array(#[trigger] event_table(events)[k])
}

proof fn lemma_event_table_writable(events: Seq<EventView>)
    requires
        events.len() > 0,
    ensures
        table_writable(event_schema_spec(), event_table(events)),
{
    let t = event_table(events);
    assert(t.len() == 14);
    assert forall|i: int| 0 <= i < 14 implies values_len(#[trigger] t[i]) == values_len(t[0]) by {
        assert(values_len(t[i]) == events.len());
    }
    assert(values_without_null(t[0]));
    assert(values_without_null(t[13]));
}

/// The stored columns of a non-empty batch, checked to be the event table.
fn event_table_columns(events: &[NormalizedEvent]) -> (r: (Vec<ColumnSpec>, Vec<ColumnData>))
    requires
        events@.len() > 0,
        forall|i: int| 0 <= i < events@.len() ==> event_instants_valid(#[trigger] events@[i]),
    ensures
        schema_values(r.0@) == event_schema_spec(),
        r.1@.len() == 14,
        r.1@.map_values(|d: ColumnData| column_values(d)) == event_table(event_views(events@)),
        forall|k: int| 0 <= k < 14 ==> column_has_type(r.0@[k].column_type, #[trigger] r.1@[k]),
{
    let columns = match event_columns(events) {
        Ok(c) => c,
        Err(_) => { return (event_schema(), Vec::new()); },
    };
    let ghost c = columns;
    let specs = event_schema();
    let table = table_of(columns);
    proof {
        let n = events@.len();
        let views = table@.map_values(|d: ColumnData| column_values(d));
        let expected = event_table(event_views(events@));
        let ev = event_views(events@);
        assert(schema_values(specs@) =~= event_schema_spec());
        assert(forall|k: int| 0 <= k < 14 ==> column_has_type(specs@[k].column_type, #[trigger] table@[k]));
        assert forall|k: int| 0 <= k < 14 implies views[k] == expected[k] by {
            if k == 0 {
                assert(table@[0]->Times_0@ =~= Seq::new(n, |i: int| Some(micros_of(ev[i].received_at) as i64)));
            } else if k == 1 {
                assert(c.service@.map_values(|o: Option<String>| opt_text(o)) =~= Seq::new(n, |i: int| ev[i].service));
            } else if k == 2 {
                assert(c.api@.map_values(|o: Option<String>| opt_text(o)) =~= Seq::new(n, |i: int| ev[i].api));
            } else if k == 3 {
                assert(c.content_id@.map_values(|o: Option<String>| opt_text(o)) =~= Seq::new(n, |i: int| ev[i].content_id));
            } else if k == 4 {
                assert(c.event_type@.map_values(|o: Option<String>| opt_text(o)) =~= Seq::new(n, |i: int| ev[i].event_type));
            } else if k == 5 {
                assert(c.event_kind@.map_values(|o: Option<String>| opt_text(o)) =~= Seq::new(n, |i: int| ev[i].event_kind));
            } else if k == 6 {
                assert(c.old_status@.map_values(|o: Option<String>| opt_text(o)) =~= Seq::new(n, |i: int| ev[i].old_status));
            } else if k == 7 {
                assert(c.new_status@.map_values(|o: Option<String>| opt_text(o)) =~= Seq::new(n, |i: int| ev[i].new_status));
            } else if k == 8 {
                assert(c.old_updated_at@ =~= Seq::new(n, |i: int| instant_micros(ev[i].old_updated_at)));
            } else if k == 9 {
                assert(c.new_updated_at@ =~= Seq::new(n, |i: int| instant_micros(ev[i].new_updated_at)));
            } else if k == 10 {
                assert(c.draft_created_at@ =~= Seq::new(n, |i: int| instant_micros(ev[i].draft_created_at)));
            } else if k == 11 {
                assert(c.content_created_at@ =~= Seq::new(n, |i: int| instant_micros(ev[i].content_created_at)));
            } else if k == 12 {
                assert(c.content_published_at@ =~= Seq::new(n, |i: int| instant_micros(ev[i].content_published_at)));
            } else {
                assert(table@[13]->Texts_0@.map_values(|o: Option<String>| opt_text(o))
                    =~= Seq::new(n, |i: int| Some(ev[i].raw_payload)));
            }
        }
        assert(views =~= expected);
    }
    (specs, table)
}

proof fn lemma_text_bytes_prefix(v: Seq<Option<Seq<char>>>, i: int)
    requires
        0 <= i <= v.len(),
    ensures
        text_bytes(v.subrange(0, i)) <= text_bytes(v),
    decreases v.len() - i,
{
    if i < v.len() {
        lemma_text_bytes_prefix(v, i + 1);
        assert(v.subrange(0, i + 1).drop_last() =~= v.subrange(0, i));
    } else {
        assert(v.subrange(0, i) =~= v);
    }
}

fn texts_fit(v: &Vec<Option<String>>) -> (r: bool)
    ensures
        r == (text_bytes(v@.map_values(|o: Option<String>| opt_text(o))) <= i32::MAX),
{
    let ghost all = v@.map_values(|o: Option<String>| opt_text(o));
    let mut total: usize = 0;
    let mut i: usize = 0;
    assert(all.subrange(0, 0) =~= Seq::<Option<Seq<char>>>::empty());
    while i < v.len()
        invariant
            i <= v.len(),
            all == v@.map_values(|o: Option<String>| opt_text(o)),
            total == text_bytes(all.subrange(0, i as int)),
            total <= i32::MAX,
        decreases v.len() - i,
    {
        assert(all.subrange(0, i + 1).drop_last() =~= all.subrange(0, i as int));
        let len: usize = match &v[i] {
            Some(s) => {
                let t = s.as_str();
                assert(t@ == s@);
                let bytes = t.as_bytes();
                bytes.len()
            },
            None => 0,
        };
        assert(all[i as int] == opt_text(v@[i as int]));
        assert(all.subrange(0, i + 1).last() == all[i as int]);
        assert(len == match all[i as int] { Some(t) => encode_utf8(t).len(), None => 0 });
        if len > 2_147_483_647 - total {
            proof { lemma_text_bytes_prefix(all, i + 1); }
            return false;
        }
        total = total + len;
        i = i + 1;
    }
    assert(all.subrange(0, i as int) =~= all);
    true
}

/// Whether the texts of every column of a batch fit the 32-bit offsets of
/// Arrow string arrays, as `events_to_parquet` needs.
pub fn event_texts_in_range(events: &[NormalizedEvent]) -> (r: bool)
    requires
        forall|i: int| 0 <= i < events@.len() ==> event_instants_valid(#[trigger] events@[i]),
    ensures
        r == event_texts_fit(event_views(events@)),
{
    if events.len() == 0 {
        assert forall|k: int| 0 <= k < 14 implies fits_string_array(
            #[trigger] event_table(event_views(events@))[k]) by {
            let t = event_table(event_views(events@));
            if t[k] is Texts {
                assert(t[k]->Texts_0 =~= Seq::<Option<Seq<char>>>::empty());
            }
        }
        return true;
    }
    let (_specs, table) = event_table_columns(events);
    let ghost views = table@.map_values(|d: ColumnData| column_values(d));
    let mut k: usize = 0;
    while k < table.len()
        invariant
            k <= table.len() == 14,
            views == table@.map_values(|d: ColumnData| column_values(d)),
            views == event_table(event_views(events@)),
            forall|j: int| 0 <= j < k ==> fits_string_array(#[trigger] views[j]),
        decreases table.len() - k,
    {
        assert(views[k as int] == column_values(table@[k as int]));
        match &table[k] {
            ColumnData::Texts(v) => {
                if !texts_fit(v) {
                    return false;
                }
            },
            ColumnData::Times(_) => {},
        }
        k = k + 1;
    }
    true
}

/// Encodes a batch of events as one Parquet file, one row per event in
/// order, with the stored schema. An empty batch is refused with
/// `Parquet("no events to write")`; any other batch is written.
pub fn events_to_parquet(events: &[NormalizedEvent]) -> (r: Result<Vec<u8>, IngestError>)
    requires
        forall|i: int| 0 <= i < events@.len() ==> event_instants_valid(#[trigger] events@[i]),
        event_texts_fit(event_views(events@)),
    ensures
        events@.len() == 0 ==> (r matches Err(IngestError::Parquet(m)) && m@ == "no events to write"@),
        events@.len() > 0 ==> (r matches Ok(b)
            && b@ == parquet_file_of(event_schema_spec(), event_table(event_views(events@)))),
{
    if events.len() == 0 {
        return Err(IngestError::Parquet(copy_str("no events to write")));
    }
    let (specs, table) = event_table_columns(events);
    proof {
        lemma_event_table_writable(event_views(events@));
        assert forall|i: int| 0 <= i < table@.len() implies fits_string_array(column_values(#[trigger] table@[i])) by {
            assert(column_values(table@[i]) == table@.map_values(|d: ColumnData| column_values(d))[i]);
        }
    }
    match write_parquet_table(&specs, table) {
        Ok(bytes) => Ok(bytes),
        Err(m) => Err(IngestError::Parquet(m)),
    }
}

/// Whether every instant of the event is one `chrono` represents, as
/// `events_to_parquet` needs.
pub fn event_instants_in_range(e: &NormalizedEvent) -> (r: bool)
    ensures
        r == event_instants_valid(*e),
{
    e.received_at.is_valid()
        && opt_instant_valid(e.old_updated_at)
        && opt_instant_valid(e.new_updated_at)
        && opt_instant_valid(e.draft_created_at)
        && opt_instant_valid(e.content_created_at)
        && opt_instant_valid(e.content_published_at)
}

fn opt_instant_valid(t: Option<UtcTimestamp>) -> (r: bool)
    ensures
        r == (t matches Some(x) ==> x.valid()),
{
    match t {
        Some(x) => x.is_valid(),
        None => true,
    }
}

/// Encodes one event as a Parquet file of one row.
pub fn event_to_parquet(event: &NormalizedEvent) -> (r: Result<Vec<u8>, IngestError>)
    requires
        event_instants_valid(*event),
        event_texts_fit(event_views(seq![*event])),
    ensures
        r matches Ok(b) && b@ == parquet_file_of(event_schema_spec(), event_table(event_views(seq![*event]))),
{
    let events = vec![copy_event(event)];
    assert(event_views(events@) =~= event_views(seq![*event]));
    events_to_parquet(events.as_slice())
}

fn copy_text(v: &Option<String>) -> (r: Option<String>)
    ensures
        opt_text(r) == opt_text(*v),
{
    match v {
        Some(s) => Some(s.clone()),
        None => None,
    }
}

fn copy_event(e: &NormalizedEvent) -> (r: NormalizedEvent)
    ensures
        r@ == e@,
        r.received_at == e.received_at,
        r.old_updated_at == e.old_updated_at,
        r.new_updated_at == e.new_updated_at,
        r.draft_created_at == e.draft_created_at,
        r.content_created_at == e.content_created_at,
        r.content_published_at == e.content_published_at,
{
    NormalizedEvent {
        received_at: e.received_at,
        service: copy_text(&e.service),
        api: copy_text(&e.api),
        content_id: copy_text(&e.content_id),
        event_type: copy_text(&e.event_type),
        event_kind: copy_text(&e.event_kind),
        old_status: copy_text(&e.old_status),
        new_status: copy_text(&e.new_status),
        old_updated_at: e.old_updated_at,
        new_updated_at: e.new_updated_at,
        draft_created_at: e.draft_created_at,
        content_created_at: e.content_created_at,
        content_published_at: e.content_published_at,
        raw_payload: e.raw_payload.clone(),
    }
}

} // verus!
