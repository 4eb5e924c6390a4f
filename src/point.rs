use crate::record::{Record, ResultRecord, WorkingRecord};
use influxdb2::models::data_point::{DataPointBuilder, DataPointError};
use influxdb2::models::DataPoint;
use vstd::prelude::*;

verus! {

#[verifier::external_type_specification]
#[verifier::external_body]
pub struct ExDataPoint(DataPoint);

#[verifier::external_type_specification]
#[verifier::external_body]
pub struct ExDataPointBuilder(DataPointBuilder);

#[verifier::external_type_specification]
#[verifier::external_body]
pub struct ExDataPointError(DataPointError);

/// A field value as this library writes it.
#[derive(Debug, Clone, Copy, PartialEq, Eq, Structural)]
pub enum PointField {
    Bool(bool),
    Int(i64),
}

/// An empty tag map.
pub open spec fn no_tags() -> Map<Seq<char>, Seq<char>> {
    Map::empty()
}

/// An empty field map.
pub open spec fn no_fields() -> Map<Seq<char>, PointField> {
    Map::empty()
}

/// The measurement that a point builder holds.
pub uninterp spec fn builder_measurement(b: DataPointBuilder) -> Seq<char>;

/// The tags that a point builder holds (its tag map).
pub uninterp spec fn builder_tags(b: DataPointBuilder) -> Map<Seq<char>, Seq<char>>;

/// The fields that a point builder holds (its field map).
pub uninterp spec fn builder_fields(b: DataPointBuilder) -> Map<Seq<char>, PointField>;

/// The timestamp that a point builder holds.
pub uninterp spec fn builder_timestamp(b: DataPointBuilder) -> Option<i64>;

/// The measurement of a point.
pub uninterp spec fn point_measurement(p: DataPoint) -> Seq<char>;

/// The tags of a point.
pub uninterp spec fn point_tags(p: DataPoint) -> Map<Seq<char>, Seq<char>>;

/// The fields of a point.
pub uninterp spec fn point_fields(p: DataPoint) -> Map<Seq<char>, PointField>;

/// The timestamp of a point, in nanoseconds.
pub uninterp spec fn point_timestamp(p: DataPoint) -> Option<i64>;

/// Relies on influxdb2's `DataPoint::builder`: a builder for the
/// measurement with no tag, no field and no timestamp.
#[verifier::external_body]
fn point_builder(measurement: &str) -> (r: DataPointBuilder)
    ensures
        builder_measurement(r) == measurement@,
        builder_tags(r) == no_tags(),
        builder_fields(r) == no_fields(),
        builder_timestamp(r) == None::<i64>,
{
    DataPoint::builder(measurement)
}

/// Relies on influxdb2's `DataPointBuilder::tag`, which inserts the tag
/// into the builder's tag map and leaves the rest alone.
#[verifier::external_body]
fn with_tag(b: DataPointBuilder, name: &str, value: &str) -> (r: DataPointBuilder)
    ensures
        builder_measurement(r) == builder_measurement(b),
        builder_tags(r) == builder_tags(b).insert(name@, value@),
        builder_fields(r) == builder_fields(b),
        builder_timestamp(r) == builder_timestamp(b),
{
    b.tag(name, value)
}

/// Relies on influxdb2's `DataPointBuilder::field` with a `bool` (turned
/// into `FieldValue::Bool`), which inserts the field into the builder's
/// field map and leaves the rest alone.
#[verifier::external_body]
fn with_bool_field(b: DataPointBuilder, name: &str, value: bool) -> (r: DataPointBuilder)
    ensures
        builder_measurement(r) == builder_measurement(b),
        builder_tags(r) == builder_tags(b),
        builder_fields(r) == builder_fields(b).insert(name@, PointField::Bool(value)),
        builder_timestamp(r) == builder_timestamp(b),
{
    b.field(name, value)
}

/// Relies on influxdb2's `DataPointBuilder::field` with an `i64` (turned
/// into `FieldValue::I64`), which inserts the field into the builder's
/// field map and leaves the rest alone.
#[verifier::external_body]
fn with_int_field(b: DataPointBuilder, name: &str, value: i64) -> (r: DataPointBuilder)
    ensures
        builder_measurement(r) == builder_measurement(b),
        builder_tags(r) == builder_tags(b),
        builder_fields(r) == builder_fields(b).insert(name@, PointField::Int(value)),
        builder_timestamp(r) == builder_timestamp(b),
{
    b.field(name, value)
}

/// Relies on influxdb2's `DataPointBuilder::timestamp`, which sets the
/// timestamp and leaves the rest alone.
#[verifier::external_body]
fn with_timestamp(b: DataPointBuilder, t: i64) -> (r: DataPointBuilder)
    ensures
        builder_measurement(r) == builder_measurement(b),
        builder_tags(r) == builder_tags(b),
        builder_fields(r) == builder_fields(b),
        builder_timestamp(r) == Some(t),
{
    b.timestamp(t)
}

/// Relies on influxdb2's `DataPointBuilder::build`, which fails only when
/// the builder holds no field and otherwise moves the builder's
/// measurement, tags, fields and timestamp into the point.
#[verifier::external_body]
fn build_point(b: DataPointBuilder) -> (r: Result<DataPoint, DataPointError>)
    ensures
        r is Ok <==> builder_fields(b).dom() != Set::<Seq<char>>::empty(),
        r matches Ok(p) ==> point_measurement(p) == builder_measurement(b) && point_tags(p)
            == builder_tags(b) && point_fields(p) == builder_fields(b) && point_timestamp(p)
            == builder_timestamp(b),
{
    b.build()
}

/// The measurement that every record is written under.
pub const MEASUREMENT: &'static str = "demo_cpb16";

/// The tag that tells the two kinds of record apart.
pub const INFO_TYPE_TAG: &'static str = "info_type";

/// The tags of a record of the given kind.
pub open spec fn info_tags(kind: Seq<char>) -> Map<Seq<char>, Seq<char>> {
    no_tags().insert(INFO_TYPE_TAG@, kind)
}

/// The fields of a working record's point.
pub open spec fn working_fields(w: WorkingRecord) -> Map<Seq<char>, PointField> {
    no_fields().insert("is_working"@, PointField::Bool(w.is_working)).insert(
        "working_second"@,
        PointField::Int(w.working_second),
    ).insert("production"@, PointField::Int(w.production)).insert(
        "defect"@,
        PointField::Int(w.defect),
    )
}

/// The fields of a result record's point.
pub open spec fn result_fields(r: ResultRecord) -> Map<Seq<char>, PointField> {
    no_fields().insert("is_working"@, PointField::Bool(r.is_working)).insert(
        "start_time"@,
        PointField::Int(r.start_time),
    ).insert("end_time"@, PointField::Int(r.end_time)).insert(
        "worked_second"@,
        PointField::Int(r.worked_second),
    ).insert("production_count"@, PointField::Int(r.production_count)).insert(
        "defect_count"@,
        PointField::Int(r.defect_count),
    )
}

/// `p` is the point of record `rec`: measurement `demo_cpb16`, tag
/// `info_type` naming the kind, the record's fields, and its timestamp.
pub open spec fn is_point_of(p: DataPoint, rec: Record) -> bool {
    &&& point_measurement(p) == MEASUREMENT@
    &&& point_timestamp(p) == Some(
        match rec {
            Record::Working(w) => w.timestamp,
            Record::Result(r) => r.timestamp,
        },
    )
    &&& match rec {
        Record::Working(w) => point_tags(p) == info_tags("working"@) && point_fields(p)
            == working_fields(w),
        Record::Result(r) => point_tags(p) == info_tags("result"@) && point_fields(p)
            == result_fields(r),
    }
}

fn finish_point(b: DataPointBuilder) -> (r: DataPoint)
    requires
        builder_fields(b).dom() != Set::<Seq<char>>::empty(),
    ensures
        point_measurement(r) == builder_measurement(b),
        point_tags(r) == builder_tags(b),
        point_fields(r) == builder_fields(b),
        point_timestamp(r) == builder_timestamp(b),
{
    build_point(b).unwrap()
}

impl WorkingRecord {
    /// The point of a working record.
    pub fn to_data_point(&self) -> (r: DataPoint)
        ensures
            is_point_of(r, Record::Working(*self)),
    {
        let b = point_builder(MEASUREMENT);
        let b = with_tag(b, INFO_TYPE_TAG, "working");
        let b = with_bool_field(b, "is_working", self.is_working);
        let b = with_int_field(b, "working_second", self.working_second);
        let b = with_int_field(b, "production", self.production);
        let b = with_int_field(b, "defect", self.defect);
        let b = with_timestamp(b, self.timestamp);
        assert(builder_fields(b).dom().contains("defect"@));
        finish_point(b)
    }
}

impl ResultRecord {
    /// The point of a result record.
    pub fn to_data_point(&self) -> (r: DataPoint)
        ensures
            is_point_of(r, Record::Result(*self)),
    {
        let b = point_builder(MEASUREMENT);
        let b = with_tag(b, INFO_TYPE_TAG, "result");
        let b = with_bool_field(b, "is_working", self.is_working);
        let b = with_int_field(b, "start_time", self.start_time);
        let b = with_int_field(b, "end_time", self.end_time);
        let b = with_int_field(b, "worked_second", self.worked_second);
        let b = with_int_field(b, "production_count", self.production_count);
        let b = with_int_field(b, "defect_count", self.defect_count);
        let b = with_timestamp(b, self.timestamp);
        assert(builder_fields(b).dom().contains("defect_count"@));
        finish_point(b)
    }
}

impl Record {
    pub fn to_data_point(&self) -> (r: DataPoint)
        ensures
            is_point_of(r, *self),
    {
        match self {
            Record::Working(w) => w.to_data_point(),
            Record::Result(r) => r.to_data_point(),
        }
    }
}

/// The points of a batch, one per record, in the batch's order.
pub fn batch_to_points(batch: &Vec<Record>) -> (r: Vec<DataPoint>)
    ensures
        r@.len() == batch@.len(),
        forall|i: int| 0 <= i < batch@.len() ==> is_point_of(#[trigger] r@[i], batch@[i]),
{
    let mut out: Vec<DataPoint> = Vec::new();
    let mut i: usize = 0;
    while i < batch.len()
        invariant
            0 <= i <= batch@.len(),
            out@.len() == i,
            forall|k: int| 0 <= k < i ==> is_point_of(#[trigger] out@[k], batch@[k]),
        decreases batch.len() - i,
    {
        out.push(batch[i].to_data_point());
        i = i + 1;
    }
    out
}

} // verus!
