use plc_collector::fields::{parse_u32_field, render_reply, reply_values_of, split_fields};
use plc_collector::response::{DemoCpb16ReceiveData, DemoCpb16ReceiveState, ParseError};
use plc_collector::status::{decode_status, DemoCpb16Status};

fn reply(fields: &[u32]) -> Vec<u8> {
    let parts: Vec<String> = fields.iter().map(|v| format!("{:05}", v)).collect();
    parts.join(" ").into_bytes()
}

fn running_fields() -> Vec<u32> {
    let mut f = vec![0u32; 25];
    f[0] = 1;
    f[1] = 7;
    f[2] = 120;
    f[3] = 3;
    // current job started 2024-05-01 08:00:00
    f[6] = 24;
    f[7] = 5;
    f[8] = 1;
    f[9] = 8;
    f[10] = 0;
    f[11] = 0;
    f
}

#[test]
fn status_field_decodes() {
    assert_eq!(decode_status(b"00001"), DemoCpb16Status::Running);
    assert_eq!(decode_status(b"00000"), DemoCpb16Status::Stopping);
    assert_eq!(decode_status(b"00002"), DemoCpb16Status::Stopping);
    assert_eq!(decode_status(b"1"), DemoCpb16Status::Stopping);
}

#[test]
fn canonical_reply_is_149_bytes() {
    assert_eq!(reply(&running_fields()).len(), 149);
}

#[test]
fn reply_of_148_or_150_bytes_is_rejected() {
    let mut short = reply(&running_fields());
    short.pop();
    assert_eq!(short.len(), 148);
    assert_eq!(DemoCpb16ReceiveData::create(0, short).unwrap_err(), ParseError::WrongLength);
    let mut long = reply(&running_fields());
    long.push(b'0');
    assert_eq!(long.len(), 150);
    assert_eq!(DemoCpb16ReceiveData::create(0, long).unwrap_err(), ParseError::WrongLength);
}

#[test]
fn receive_data_keeps_time_and_status() {
    let data = DemoCpb16ReceiveData::create(42, reply(&running_fields())).unwrap();
    assert_eq!(data.get_dt(), 42);
    assert_eq!(data.get_status(), DemoCpb16Status::Running);
    assert_eq!(data.get_data(), reply(&running_fields()));
    let mut f = running_fields();
    f[0] = 3;
    let data = DemoCpb16ReceiveData::create(42, reply(&f)).unwrap();
    assert_eq!(data.get_status(), DemoCpb16Status::Stopping);
}

#[test]
fn split_keeps_empty_fields() {
    let f = split_fields(b"a  b");
    assert_eq!(f, vec![b"a".to_vec(), Vec::new(), b"b".to_vec()]);
    assert_eq!(split_fields(b""), vec![Vec::<u8>::new()]);
}

#[test]
fn decimal_fields() {
    assert_eq!(parse_u32_field(b"00120"), Some(120));
    assert_eq!(parse_u32_field(b"4294967295"), Some(u32::MAX));
    assert_eq!(parse_u32_field(b"4294967296"), None);
    assert_eq!(parse_u32_field(b""), None);
    assert_eq!(parse_u32_field(b"12a"), None);
    assert_eq!(parse_u32_field(b"+12"), Some(12));
    assert_eq!(parse_u32_field(b"+"), None);
    assert_eq!(parse_u32_field(b"++1"), None);
}

#[test]
fn running_reply_parses() {
    let data = DemoCpb16ReceiveData::create(5, reply(&running_fields())).unwrap();
    let o = DemoCpb16ReceiveState::new(data).unwrap();
    assert_eq!(o.receive_time, 5);
    assert_eq!(o.status, DemoCpb16Status::Running);
    assert_eq!(o.working_id, 7);
    assert_eq!(o.production_count, 120);
    assert_eq!(o.defect_count, 3);
    assert!(o.start_time.is_some());
    assert!(o.last_working_data.is_none());
}

#[test]
fn stopping_reply_without_past_data_parses() {
    let mut f = running_fields();
    f[0] = 0;
    f[24] = 0;
    for i in 6..24 {
        f[i] = 99;
    }
    let data = DemoCpb16ReceiveData::create(9, reply(&f)).unwrap();
    let o = DemoCpb16ReceiveState::new(data).unwrap();
    assert_eq!(o.receive_time, 9);
    assert!(o.start_time.is_none() && o.last_working_data.is_none());
}

#[test]
fn assembling_prefers_bad_numbers() {
    let ok = DemoCpb16ReceiveState::from_fields(
        1, DemoCpb16Status::Running, false, Some(1), Some(2), Some(3), None, None,
        Ok(50), Err(ParseError::BadNumber), Err(ParseError::BadNumber),
    )
    .unwrap();
    assert_eq!(ok.start_time, Some(50));
    assert_eq!((ok.working_id, ok.production_count, ok.defect_count), (1, 2, 3));
    let e = DemoCpb16ReceiveState::from_fields(
        1, DemoCpb16Status::Running, true, Some(1), Some(2), Some(3), Some(4), Some(5),
        Err(ParseError::InvalidTime), Ok(0), Err(ParseError::BadNumber),
    );
    assert_eq!(e.unwrap_err(), ParseError::BadNumber);
    let e = DemoCpb16ReceiveState::from_fields(
        1, DemoCpb16Status::Stopping, true, Some(1), Some(2), Some(3), Some(4), Some(5),
        Err(ParseError::BadNumber), Ok(0), Err(ParseError::InvalidTime),
    );
    assert_eq!(e.unwrap_err(), ParseError::InvalidTime);
}

#[test]
fn stopping_reply_has_no_start_time() {
    let mut f = running_fields();
    f[0] = 0;
    // the start stamp is not read while the machine stands
    f[7] = 0;
    let data = DemoCpb16ReceiveData::create(5, reply(&f)).unwrap();
    let o = DemoCpb16ReceiveState::new(data).unwrap();
    assert_eq!(o.status, DemoCpb16Status::Stopping);
    assert!(o.start_time.is_none());
}

#[test]
fn wrong_field_count_is_rejected() {
    let mut bytes = reply(&running_fields());
    bytes[5] = b'0';
    let data = DemoCpb16ReceiveData::create(0, bytes).unwrap();
    assert_eq!(DemoCpb16ReceiveState::new(data).unwrap_err(), ParseError::WrongFieldCount);
}

#[test]
fn bad_number_is_rejected() {
    let mut bytes = reply(&running_fields());
    bytes[6] = b'x';
    let data = DemoCpb16ReceiveData::create(0, bytes).unwrap();
    assert_eq!(DemoCpb16ReceiveState::new(data).unwrap_err(), ParseError::BadNumber);
}

#[test]
fn invalid_month_is_rejected() {
    let mut f = running_fields();
    f[7] = 13;
    let data = DemoCpb16ReceiveData::create(0, reply(&f)).unwrap();
    assert_eq!(DemoCpb16ReceiveState::new(data).unwrap_err(), ParseError::InvalidTime);
    let mut f = running_fields();
    f[7] = 2;
    f[8] = 30;
    let data = DemoCpb16ReceiveData::create(0, reply(&f)).unwrap();
    assert_eq!(DemoCpb16ReceiveState::new(data).unwrap_err(), ParseError::InvalidTime);
}

#[test]
fn past_job_is_read_when_flagged() {
    let mut f = running_fields();
    f[4] = 100;
    f[5] = 4;
    for (i, v) in [24u32, 5, 1, 6, 0, 0, 24, 5, 1, 6, 2, 0].iter().enumerate() {
        f[12 + i] = *v;
    }
    f[24] = 1;
    let data = DemoCpb16ReceiveData::create(0, reply(&f)).unwrap();
    let o = DemoCpb16ReceiveState::new(data).unwrap();
    let l = o.last_working_data.unwrap();
    assert_eq!(l.last_production_count, 100);
    assert_eq!(l.last_defect_count, 4);
    assert_eq!(l.last_end_time - l.last_start_time, 120_000_000_000);
    let r = o.make_worked_result().unwrap();
    assert_eq!(r.worked_second, 120);
    assert_eq!(r.production_count, 100);
    assert_eq!(r.defect_count, 4);
    assert!(r.is_working);
}

#[test]
fn canonical_reply_round_trips() {
    let mut f = running_fields();
    f[4] = 99999;
    let bytes = reply(&f);
    let values = reply_values_of(&bytes).unwrap();
    assert_eq!(values, f);
    assert_eq!(render_reply(&values), bytes);
    assert_eq!(reply_values_of(b"00001 0x001"), None);
}
