use influxdb2::models::WriteDataPoint;
use plc_collector::point::batch_to_points;
use plc_collector::record::{Record, ResultRecord, WorkingRecord};

fn line(p: &influxdb2::models::DataPoint) -> String {
    let mut buf = Vec::new();
    p.write_data_point_to(&mut buf).unwrap();
    String::from_utf8(buf).unwrap()
}

#[test]
fn records_become_points() {
    let w = Record::Working(WorkingRecord {
        is_working: true,
        working_second: 10,
        production: 30,
        defect: 10,
        timestamp: 1_000,
    });
    let r = Record::Result(ResultRecord {
        is_working: true,
        start_time: 0,
        end_time: 120_000_000_000,
        worked_second: 120,
        production_count: 100,
        defect_count: 4,
        timestamp: 2_000,
    });
    let points = batch_to_points(&vec![w, r]);
    assert_eq!(points.len(), 2);
    assert_eq!(
        line(&points[0]),
        "demo_cpb16,info_type=working defect=10i,is_working=t,production=30i,working_second=10i 1000\n"
    );
    assert_eq!(
        line(&points[1]),
        "demo_cpb16,info_type=result defect_count=4i,end_time=120000000000i,is_working=t,production_count=100i,start_time=0i,worked_second=120i 2000\n"
    );
}
