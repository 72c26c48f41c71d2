use vstd::prelude::*;

use crate::reading::{DataType, ReadingEntry, ReadingSnapshot, Scalar};

verus! {

/// Where the time-series database is reached and written to.
#[derive(Clone, Debug)]
pub struct Options {
    pub url: String,
    pub token: String,
    pub bucket: String,
    pub org: String,
}

/// The typed field value of a point. A float is held as its IEEE-754 bit pattern.
#[derive(Clone, Debug)]
pub enum FieldValue {
    Boolean(bool),
    Integer(i64),
    Float(u64),
    String(String),
}

/// One encoded reading: a measurement name, a single field `value` and a timestamp
/// in nanoseconds.
#[derive(Clone, Debug)]
pub struct SinkPoint {
    pub measurement: String,
    pub value: FieldValue,
    pub timestamp: i64,
}

/// The mathematical value of a field.
pub enum FieldView {
    Boolean(bool),
    Integer(i64),
    Float(u64),
    String(Seq<char>),
}

/// The mathematical value of a point.
pub struct PointView {
    pub measurement: Seq<char>,
    pub value: FieldView,
    pub timestamp: i64,
}

impl View for FieldValue {
    type V = FieldView;

    open spec fn view(&self) -> FieldView {
        match self {
            FieldValue::Boolean(b) => FieldView::Boolean(*b),
            FieldValue::Integer(i) => FieldView::Integer(*i),
            FieldValue::Float(f) => FieldView::Float(*f),
            FieldValue::String(s) => FieldView::String(s@),
        }
    }
}

impl View for SinkPoint {
    type V = PointView;

    open spec fn view(&self) -> PointView {
        PointView { measurement: self.measurement@, value: self.value@, timestamp: self.timestamp }
    }
}

/// The pattern of a run of whitespace in a measurement name.
pub const WHITESPACE_RUN: &'static str = "\\s+";

/// What a run of whitespace becomes in a measurement name.
pub const WHITESPACE_REPLACEMENT: &'static str = "-";

/// What `str::to_lowercase` returns for a string.
pub uninterp spec fn lower_of(s: Seq<char>) -> Seq<char>;

/// What `regex::Regex::replace_all` returns for a pattern, a text and a replacement.
pub uninterp spec fn regex_replaced(pattern: Seq<char>, text: Seq<char>, rep: Seq<char>) -> Seq<char>;

/// Relies on `str::to_lowercase`: the lowercase form depends on the characters alone.
#[verifier::external_body]
fn lowercase(s: &str) -> (r: String)
    ensures
        r@ == lower_of(s@),
{
    s.to_lowercase()
}

/// Relies on `regex::Regex::new` and `regex::Regex::replace_all`: where the pattern
/// compiles, every match in the text is replaced, and the result depends on the
/// three strings alone. `None` where the pattern does not compile; `Regex::new`
/// fails only on an invalid pattern or one over the default size limit, and the
/// whitespace-run pattern is neither.
#[verifier::external_body]
fn regex_replace_all(pattern: &str, text: &str, rep: &str) -> (r: Option<String>)
    ensures
        r matches Some(s) ==> s@ == regex_replaced(pattern@, text@, rep@),
        pattern@ == WHITESPACE_RUN@ ==> r is Some,
{
    match regex::Regex::new(pattern) {
        Ok(re) => Some(re.replace_all(text, rep).into_owned()),
        Err(_) => None,
    }
}

/// `id`, an underscore and `name`, before case folding.
pub open spec fn spec_measurement_key(id: Seq<char>, name: Seq<char>) -> Seq<char> {
    id + seq!['_'] + name
}

/// The measurement name of a reading: `id_name`, lowercased, each run of whitespace
/// turned into one hyphen.
pub open spec fn spec_measurement_name(id: Seq<char>, name: Seq<char>) -> Seq<char> {
    regex_replaced(WHITESPACE_RUN@, lower_of(spec_measurement_key(id, name)), WHITESPACE_REPLACEMENT@)
}

/// `id` and `name` joined by an underscore, lowercased.
pub fn measurement_key(id: &str, name: &str) -> (r: String)
    ensures
        r@ == lower_of(spec_measurement_key(id@, name@)),
{
    let mut key = id.to_owned();
    key.append("_");
    key.append(name);
    proof {
        reveal_strlit("_");
        assert(key@ =~= spec_measurement_key(id@, name@));
    }
    lowercase(key.as_str())
}

/// The measurement name of a reading.
pub fn measurement_name(id: &str, name: &str) -> (r: String)
    ensures
        r@ == spec_measurement_name(id@, name@),
{
    let key = measurement_key(id, name);
    regex_replace_all(WHITESPACE_RUN, key.as_str(), WHITESPACE_REPLACEMENT).unwrap()
}

/// The field of a reading: the value read as its declared type, or that type's
/// default (`false`, `0`, `0.0`, `""`) where it cannot be read so.
pub open spec fn spec_field_value(typ: DataType, v: Scalar) -> FieldView {
    match typ {
        DataType::Boolean => FieldView::Boolean(
            match v.as_bool {
                Some(b) => b,
                None => false,
            },
        ),
        DataType::Integer => FieldView::Integer(
            match v.as_i64 {
                Some(i) => i,
                None => 0,
            },
        ),
        DataType::Float => FieldView::Float(
            match v.as_f64_bits {
                Some(f) => f,
                None => 0,
            },
        ),
        DataType::String => FieldView::String(
            match v.as_str {
                Some(s) => s@,
                None => Seq::empty(),
            },
        ),
    }
}

/// The point that a reading encodes to under a given measurement name and timestamp.
pub open spec fn spec_point_named(e: ReadingEntry, measurement: Seq<char>, timestamp: i64) -> PointView {
    PointView {
        measurement,
        value: spec_field_value(e.description.typ, e.value),
        timestamp,
    }
}

/// The point that a reading encodes to at a given timestamp.
pub open spec fn spec_point(e: ReadingEntry, timestamp: i64) -> PointView {
    spec_point_named(
        e,
        spec_measurement_name(e.description.id@, e.description.name@),
        timestamp,
    )
}

/// The points that a snapshot encodes to, one per reading, in order, all at one
/// timestamp.
pub open spec fn spec_points(values: Seq<ReadingEntry>, timestamp: i64) -> Seq<PointView> {
    values.map_values(|e: ReadingEntry| spec_point(e, timestamp))
}

/// The timestamp of a batch: nanoseconds since the epoch, saturated at `i64::MAX`.
pub open spec fn spec_timestamp(nanos: u128) -> i64 {
    if nanos <= i64::MAX as u128 {
        nanos as i64
    } else {
        i64::MAX
    }
}

/// Reads a value as the given type, falling back to that type's default; never fails.
pub fn field_value(typ: DataType, v: &Scalar) -> (r: FieldValue)
    ensures
        r@ == spec_field_value(typ, *v),
{
    match typ {
        DataType::Boolean => FieldValue::Boolean(
            match v.as_bool {
                Some(b) => b,
                None => false,
            },
        ),
        DataType::Integer => FieldValue::Integer(
            match v.as_i64 {
                Some(i) => i,
                None => 0,
            },
        ),
        DataType::Float => FieldValue::Float(
            match v.as_f64_bits {
                Some(f) => f,
                None => 0,
            },
        ),
        DataType::String => FieldValue::String(
            match &v.as_str {
                Some(s) => s.clone(),
                None => String::new(),
            },
        ),
    }
}

/// Encodes one reading under an already computed measurement name.
pub fn entry_to_point(entry: &ReadingEntry, measurement: String, timestamp: i64) -> (r: SinkPoint)
    ensures
        r@ == spec_point_named(*entry, measurement@, timestamp),
{
    let value = field_value(entry.description.typ, &entry.value);
    SinkPoint { measurement, value, timestamp }
}

/// The batch timestamp for a wall-clock reading in nanoseconds since the epoch.
pub fn timestamp_from_nanos(nanos: u128) -> (r: i64)
    ensures
        r == spec_timestamp(nanos),
{
    if nanos <= i64::MAX as u128 {
        nanos as i64
    } else {
        i64::MAX
    }
}

/// Encodes each reading under the measurement name at the same position; total,
/// whatever the values hold.
pub fn points_from_names(daq: &ReadingSnapshot, names: &Vec<String>, timestamp: i64) -> (r: Vec<SinkPoint>)
    requires
        names@.len() == daq.values@.len(),
    ensures
        r@.len() == daq.values@.len(),
        forall|j: int|
            0 <= j < r@.len() ==> #[trigger] r@[j]@ == spec_point_named(daq.values@[j], names@[j]@, timestamp),
{
    let mut points: Vec<SinkPoint> = Vec::new();
    let n = daq.values.len();
    let mut i: usize = 0;
    while i < n
        invariant
            n == daq.values@.len(),
            n == names@.len(),
            i <= n,
            points@.len() == i,
            forall|j: int|
                0 <= j < i ==> #[trigger] points@[j]@ == spec_point_named(daq.values@[j], names@[j]@, timestamp),
        decreases n - i,
    {
        points.push(entry_to_point(&daq.values[i], names[i].clone(), timestamp));
        i = i + 1;
    }
    points
}

/// Encodes a snapshot into one point per reading, all sharing `timestamp`.
///
/// A value that does not match its declared type is encoded as that type's
/// default; encoding never fails.
pub fn daq_data_to_points(daq: ReadingSnapshot, timestamp: i64) -> (r: Vec<SinkPoint>)
    ensures
        r@.map_values(|p: SinkPoint| p@) == spec_points(daq.values@, timestamp),
{
    let mut names: Vec<String> = Vec::new();
    let n = daq.values.len();
    let mut i: usize = 0;
    while i < n
        invariant
            n == daq.values@.len(),
            i <= n,
            names@.len() == i,
            forall|j: int|
                0 <= j < i ==> #[trigger] names@[j]@ == spec_measurement_name(
                    daq.values@[j].description.id@,
                    daq.values@[j].description.name@,
                ),
        decreases n - i,
    {
        let d = &daq.values[i].description;
        names.push(measurement_name(d.id.as_str(), d.name.as_str()));
        i = i + 1;
    }
    let points = points_from_names(&daq, &names, timestamp);
    proof {
        assert(points@.map_values(|p: SinkPoint| p@) =~= spec_points(daq.values@, timestamp));
    }
    points
}

/// Encoding a snapshot twice at the same timestamp gives the same points.
pub proof fn lemma_encoding_idempotent(
    daq: ReadingSnapshot,
    timestamp: i64,
    first: Seq<SinkPoint>,
    second: Seq<SinkPoint>,
)
    requires
        first.map_values(|p: SinkPoint| p@) == spec_points(daq.values@, timestamp),
        second.map_values(|p: SinkPoint| p@) == spec_points(daq.values@, timestamp),
    ensures
        first.len() == second.len(),
        forall|j: int| 0 <= j < first.len() ==> #[trigger] first[j]@ == second[j]@,
{
    assert(first.map_values(|p: SinkPoint| p@).len() == first.len());
    assert(second.map_values(|p: SinkPoint| p@).len() == second.len());
    assert forall|j: int| 0 <= j < first.len() implies #[trigger] first[j]@ == second[j]@ by {
        assert(first.map_values(|p: SinkPoint| p@)[j] == first[j]@);
        assert(second.map_values(|p: SinkPoint| p@)[j] == second[j]@);
    }
}

/// A reading declared `Integer` whose value cannot be read as an integer encodes
/// as `0`, under any name and timestamp.
pub proof fn lemma_integer_mismatch_is_zero(e: ReadingEntry, measurement: Seq<char>, timestamp: i64)
    requires
        e.description.typ == DataType::Integer,
        e.value.as_i64 is None,
    ensures
        spec_point_named(e, measurement, timestamp).value == FieldView::Integer(0),
{
}

} // verus!
