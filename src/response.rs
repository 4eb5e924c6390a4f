use crate::clock::{is_civil_time, local_timestamp_nanos};
use crate::fields::{field_value, fields_of, parse_u32_field, split_fields, views_of};
use crate::status::{decode_status, is_marker_set, is_running_marker, status_of, DemoCpb16Status};
use vstd::prelude::*;

verus! {

/// The length of a readout reply once its trailing CR LF is gone.
pub const RESPONSE_LENGTH: usize = 149;

/// The number of fields in a readout reply.
pub const DATA_LENGTH: usize = 25;

/// Why a readout reply could not be turned into an observation.
#[derive(Debug, Clone, Copy, PartialEq, Eq, Structural)]
pub enum ParseError {
    /// The reply does not have the expected byte length.
    WrongLength,
    /// The reply does not split into the expected number of fields.
    WrongFieldCount,
    /// A field that is read as a number is not a decimal `u32`.
    BadNumber,
    /// An embedded date and time does not name one instant of the local zone.
    InvalidTime,
}

/// A length-checked readout reply, stamped with the instant it arrived.
#[derive(Debug, Clone)]
pub struct DemoCpb16ReceiveData {
    /// Arrival time, in nanoseconds since the Unix epoch.
    pub dt: i64,
    pub data: Vec<u8>,
    pub status: DemoCpb16Status,
}

impl DemoCpb16ReceiveData {
    /// Accepts a reply (CR LF already trimmed) of exactly the expected
    /// length, and decodes the machine status from its first field.
    pub fn create(dt: i64, data: Vec<u8>) -> (r: Result<Self, ParseError>)
        ensures
            data@.len() != RESPONSE_LENGTH ==> r == Err::<Self, ParseError>(
                ParseError::WrongLength,
            ),
            data@.len() == RESPONSE_LENGTH ==> r is Ok,
            r matches Ok(v) ==> v.dt == dt && v.data@ == data@ && v.status == status_of(
                fields_of(data@)[0],
            ),
    {
        if data.len() != RESPONSE_LENGTH {
            return Err(ParseError::WrongLength);
        }
        let fields = split_fields(data.as_slice());
        proof {
            crate::fields::lemma_fields_nonempty(data@);
            assert(views_of(fields@)[0] == fields@[0]@);
            lemma_views_len(fields@);
        }
        let status = decode_status(fields[0].as_slice());
        Ok(DemoCpb16ReceiveData { dt, data, status })
    }

    pub fn get_status(&self) -> (r: DemoCpb16Status)
        ensures
            r == self.status,
    {
        self.status
    }

    pub fn get_dt(&self) -> (r: i64)
        ensures
            r == self.dt,
    {
        self.dt
    }

    pub fn get_data(&self) -> (r: Vec<u8>)
        ensures
            r@ == self.data@,
    {
        self.data.clone()
    }
}

proof fn lemma_views_len(v: Seq<Vec<u8>>)
    ensures
        views_of(v).len() == v.len(),
        forall|i: int| 0 <= i < v.len() ==> #[trigger] views_of(v)[i] == v[i]@,
{
}

/// The counters and times of the job that ran before the current one.
#[derive(Debug, Clone, Copy, PartialEq, Eq, Structural)]
pub struct LastWorkingData {
    pub last_production_count: u32,
    pub last_defect_count: u32,
    /// Nanoseconds since the Unix epoch.
    pub last_start_time: i64,
    /// Nanoseconds since the Unix epoch.
    pub last_end_time: i64,
}

/// One parsed snapshot of the machine.
#[derive(Debug, Clone, Copy, PartialEq, Eq, Structural)]
pub struct DemoCpb16ReceiveState {
    /// Arrival time, in nanoseconds since the Unix epoch.
    pub receive_time: i64,
    pub status: DemoCpb16Status,
    pub working_id: u32,
    pub production_count: u32,
    pub defect_count: u32,
    /// Start of the current job, present while the machine runs.
    pub start_time: Option<i64>,
    /// The previous job, present when the past-data register is set.
    pub last_working_data: Option<LastWorkingData>,
}

/// Positions of the fields in a readout reply.
pub const STATUS_FIELD: usize = 0;
pub const WORKING_ID_FIELD: usize = 1;
pub const PRODUCTION_FIELD: usize = 2;
pub const DEFECT_FIELD: usize = 3;
pub const LAST_PRODUCTION_FIELD: usize = 4;
pub const LAST_DEFECT_FIELD: usize = 5;
pub const START_TIME_FIELD: usize = 6;
pub const LAST_START_TIME_FIELD: usize = 12;
pub const LAST_END_TIME_FIELD: usize = 18;
pub const PAST_DATA_FIELD: usize = 24;

pub open spec fn fv(f: Seq<Seq<u8>>, i: int) -> Option<u32> {
    field_value(f[i])
}

/// The six fields of a stamp (year, month, day, hour, minute, second) are numbers.
pub open spec fn stamp_numbers_ok(f: Seq<Seq<u8>>, b: int) -> bool {
    &&& fv(f, b) is Some
    &&& fv(f, b + 1) is Some
    &&& fv(f, b + 2) is Some
    &&& fv(f, b + 3) is Some
    &&& fv(f, b + 4) is Some
    &&& fv(f, b + 5) is Some
}

/// The stamp's two-digit year, counted from 2000, and its other fields name
/// an existing civil time.
pub open spec fn stamp_civil(f: Seq<Seq<u8>>, b: int) -> bool {
    &&& fv(f, b).unwrap() + 2000 <= i32::MAX
    &&& is_civil_time(
        fv(f, b).unwrap() + 2000,
        fv(f, b + 1).unwrap() as int,
        fv(f, b + 2).unwrap() as int,
        fv(f, b + 3).unwrap() as int,
        fv(f, b + 4).unwrap() as int,
        fv(f, b + 5).unwrap() as int,
    )
}

/// Every field that the reply's status and past-data flag call for is a number.
pub open spec fn numbers_ok(f: Seq<Seq<u8>>) -> bool {
    &&& fv(f, 1) is Some
    &&& fv(f, 2) is Some
    &&& fv(f, 3) is Some
    &&& status_of(f[0]) == DemoCpb16Status::Running ==> stamp_numbers_ok(f, 6)
    &&& is_running_marker(f[24]) ==> {
        &&& fv(f, 4) is Some
        &&& fv(f, 5) is Some
        &&& stamp_numbers_ok(f, 12)
        &&& stamp_numbers_ok(f, 18)
    }
}

/// Reads six fields from `b` as a local civil time, the year counted from
/// 2000, and gives its instant in nanoseconds.
fn parse_stamp(f: &Vec<Vec<u8>>, b: usize) -> (r: Result<i64, ParseError>)
    requires
        f@.len() == DATA_LENGTH,
        b <= 18,
    ensures
        !stamp_numbers_ok(views_of(f@), b as int) <==> r == Err::<i64, ParseError>(
            ParseError::BadNumber,
        ),
        stamp_numbers_ok(views_of(f@), b as int) && !stamp_civil(views_of(f@), b as int) ==> r
            == Err::<i64, ParseError>(ParseError::InvalidTime),
        r is Ok ==> stamp_numbers_ok(views_of(f@), b as int) && stamp_civil(
            views_of(f@),
            b as int,
        ),
        r is Err ==> r == Err::<i64, ParseError>(ParseError::BadNumber) || r == Err::<
            i64,
            ParseError,
        >(ParseError::InvalidTime),
{
    proof {
        lemma_views_len(f@);
    }
    let year = parse_u32_field(f[b].as_slice());
    let month = parse_u32_field(f[b + 1].as_slice());
    let day = parse_u32_field(f[b + 2].as_slice());
    let hour = parse_u32_field(f[b + 3].as_slice());
    let minute = parse_u32_field(f[b + 4].as_slice());
    let second = parse_u32_field(f[b + 5].as_slice());
    match (year, month, day, hour, minute, second) {
        (Some(y), Some(mo), Some(d), Some(h), Some(mi), Some(s)) => {
            if y > 0x7fff_ffffu32 - 2000 {
                return Err(ParseError::InvalidTime);
            }
            let full_year: i32 = (y + 2000) as i32;
            match local_timestamp_nanos(full_year, mo, d, h, mi, s) {
                Some(t) => Ok(t),
                None => Err(ParseError::InvalidTime),
            }
        },
        _ => Err(ParseError::BadNumber),
    }
}

/// `o` is the observation that `data` holds: its numbers are the
/// reply's fields, and its stamps are present as the status and the
/// past-data flag call for, each naming an existing civil time.
pub open spec fn parsed_from(data: DemoCpb16ReceiveData, o: DemoCpb16ReceiveState) -> bool {
    let f = fields_of(data.data@);
    &&& o.receive_time == data.dt
    &&& o.status == status_of(f[0])
    &&& o.working_id == fv(f, 1).unwrap()
    &&& o.production_count == fv(f, 2).unwrap()
    &&& o.defect_count == fv(f, 3).unwrap()
    &&& (o.start_time is Some <==> o.status == DemoCpb16Status::Running)
    &&& (o.status == DemoCpb16Status::Running ==> stamp_civil(f, 6))
    &&& (o.last_working_data is Some <==> is_running_marker(f[24]))
    &&& (o.last_working_data matches Some(l) ==> {
        &&& l.last_production_count == fv(f, 4).unwrap()
        &&& l.last_defect_count == fv(f, 5).unwrap()
        &&& stamp_civil(f, 12)
        &&& stamp_civil(f, 18)
    })
}

/// Whether a stamp result failed on a number.
pub open spec fn is_bad_number(r: Result<i64, ParseError>) -> bool {
    r == Err::<i64, ParseError>(ParseError::BadNumber)
}

/// The observation assembled from a reply's parsed parts: the three
/// counters, the previous job's counters, and the results of resolving the
/// start stamp (read only while running) and the previous job's two stamps
/// (read only when `has_past`). A missing number wins over a stamp the
/// local zone does not have.
pub open spec fn assemble(
    receive_time: i64,
    status: DemoCpb16Status,
    has_past: bool,
    working_id: Option<u32>,
    production: Option<u32>,
    defect: Option<u32>,
    last_production: Option<u32>,
    last_defect: Option<u32>,
    start: Result<i64, ParseError>,
    last_start: Result<i64, ParseError>,
    last_end: Result<i64, ParseError>,
) -> Result<DemoCpb16ReceiveState, ParseError> {
    let running = status == DemoCpb16Status::Running;
    if working_id is None || production is None || defect is None || (has_past && (
    last_production is None || last_defect is None)) || (running && is_bad_number(start)) || (
    has_past && (is_bad_number(last_start) || is_bad_number(last_end))) {
        Err(ParseError::BadNumber)
    } else if (running && start is Err) || (has_past && (last_start is Err || last_end is Err)) {
        Err(ParseError::InvalidTime)
    } else {
        Ok(
            DemoCpb16ReceiveState {
                receive_time,
                status,
                working_id: working_id.unwrap(),
                production_count: production.unwrap(),
                defect_count: defect.unwrap(),
                start_time: if running {
                    Some(start.unwrap())
                } else {
                    None
                },
                last_working_data: if has_past {
                    Some(
                        LastWorkingData {
                            last_production_count: last_production.unwrap(),
                            last_defect_count: last_defect.unwrap(),
                            last_start_time: last_start.unwrap(),
                            last_end_time: last_end.unwrap(),
                        },
                    )
                } else {
                    None
                },
            },
        )
    }
}

impl DemoCpb16ReceiveState {
    /// Assembles an observation from a reply's parsed parts.
    pub fn from_fields(
        receive_time: i64,
        status: DemoCpb16Status,
        has_past: bool,
        working_id: Option<u32>,
        production: Option<u32>,
        defect: Option<u32>,
        last_production: Option<u32>,
        last_defect: Option<u32>,
        start: Result<i64, ParseError>,
        last_start: Result<i64, ParseError>,
        last_end: Result<i64, ParseError>,
    ) -> (r: Result<Self, ParseError>)
        ensures
            r == assemble(
                receive_time,
                status,
                has_past,
                working_id,
                production,
                defect,
                last_production,
                last_defect,
                start,
                last_start,
                last_end,
            ),
    {
        let running = status == DemoCpb16Status::Running;
        if working_id.is_none() || production.is_none() || defect.is_none() || (has_past && (
        last_production.is_none() || last_defect.is_none())) || (running && matches!(
            start,
            Err(ParseError::BadNumber)
        )) || (has_past && (matches!(last_start, Err(ParseError::BadNumber)) || matches!(
            last_end,
            Err(ParseError::BadNumber)
        ))) {
            return Err(ParseError::BadNumber);
        }
        if (running && start.is_err()) || (has_past && (last_start.is_err() || last_end.is_err())) {
            return Err(ParseError::InvalidTime);
        }
        let start_time = if running {
            Some(start.unwrap())
        } else {
            None
        };
        let last_working_data = if has_past {
            Some(
                LastWorkingData {
                    last_production_count: last_production.unwrap(),
                    last_defect_count: last_defect.unwrap(),
                    last_start_time: last_start.unwrap(),
                    last_end_time: last_end.unwrap(),
                },
            )
        } else {
            None
        };
        Ok(DemoCpb16ReceiveState {
            receive_time,
            status,
            working_id: working_id.unwrap(),
            production_count: production.unwrap(),
            defect_count: defect.unwrap(),
            start_time,
            last_working_data,
        })
    }

    /// Parses a length-checked reply into an observation.
    pub fn new(data: DemoCpb16ReceiveData) -> (r: Result<Self, ParseError>)
        ensures
            data.data@.len() != RESPONSE_LENGTH ==> r == Err::<Self, ParseError>(
                ParseError::WrongLength,
            ),
            ({
                let f = fields_of(data.data@);
                let len_ok = data.data@.len() == RESPONSE_LENGTH;
                &&& len_ok && f.len() != DATA_LENGTH ==> r == Err::<Self, ParseError>(
                    ParseError::WrongFieldCount,
                )
                &&& len_ok && f.len() == DATA_LENGTH && !numbers_ok(f) ==> r == Err::<
                    Self,
                    ParseError,
                >(ParseError::BadNumber)
                &&& r is Err ==> !len_ok || f.len() != DATA_LENGTH || !numbers_ok(f) || r
                    == Err::<Self, ParseError>(ParseError::InvalidTime)
                &&& len_ok && f.len() == DATA_LENGTH && numbers_ok(f) && status_of(f[0])
                    == DemoCpb16Status::Stopping && !is_running_marker(f[24]) ==> r is Ok
                &&& r matches Ok(o) ==> len_ok && f.len() == DATA_LENGTH && numbers_ok(f)
                    && parsed_from(data, o)
            }),
    {
        if data.data.len() != RESPONSE_LENGTH {
            return Err(ParseError::WrongLength);
        }
        let f = split_fields(data.data.as_slice());
        proof {
            lemma_views_len(f@);
        }
        if f.len() != DATA_LENGTH {
            return Err(ParseError::WrongFieldCount);
        }
        let status = decode_status(f[STATUS_FIELD].as_slice());
        let running = status == DemoCpb16Status::Running;
        let has_past = is_marker_set(f[PAST_DATA_FIELD].as_slice());
        let working_id = parse_u32_field(f[WORKING_ID_FIELD].as_slice());
        let production_count = parse_u32_field(f[PRODUCTION_FIELD].as_slice());
        let defect_count = parse_u32_field(f[DEFECT_FIELD].as_slice());
        let last_production = parse_u32_field(f[LAST_PRODUCTION_FIELD].as_slice());
        let last_defect = parse_u32_field(f[LAST_DEFECT_FIELD].as_slice());
        // Every stamp that is called for is read before any error is
        // reported, so that a bad number wins over a time that does not exist.
        let start = if running {
            parse_stamp(&f, START_TIME_FIELD)
        } else {
            Ok(0i64)
        };
        let (last_start, last_end) = if has_past {
            (parse_stamp(&f, LAST_START_TIME_FIELD), parse_stamp(&f, LAST_END_TIME_FIELD))
        } else {
            (Ok(0i64), Ok(0i64))
        };
        DemoCpb16ReceiveState::from_fields(
            data.dt,
            status,
            has_past,
            working_id,
            production_count,
            defect_count,
            last_production,
            last_defect,
            start,
            last_start,
            last_end,
        )
    }
}

} // verus!
