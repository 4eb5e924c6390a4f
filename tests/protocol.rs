use plc_collector::config::{DemoCpb16Config, DemoMachineConfig, DemoMachineStatusConfig};
use plc_collector::protocol::{
    bench_monitor_command, check_command, check_model_reply, check_monitor_reply,
    classify_time_reply,
    monitor_readout_command, set_monitor_command, time_command_for, trim_crlf, HandshakeError,
    TimeSetReply,
};
use plc_collector::clock::LocalNow;

const MONITOR_SET: &[u8] = b"MWS DM0.U DM50.U DM100.U DM102.U DM104.U DM106.U \
DM10.U DM12.U DM14.U DM16.U DM18.U DM20.U DM22.U DM24.U DM26.U DM28.U DM30.U DM32.U \
DM34.U DM36.U DM38.U DM40.U DM42.U DM44.U DM2.U\r";

const BENCH_MONITOR_SET: &[u8] =
    b"MWS DM1000.U DM1001.L DM1002.U DM1003.U DM1004.U DM1008.U DM1009.U DM1100.U\r";

#[test]
fn fixed_commands() {
    assert_eq!(check_command(), b"?K\r".to_vec());
    assert_eq!(monitor_readout_command(), b"MWR\r".to_vec());
    assert_eq!(set_monitor_command(), MONITOR_SET.to_vec());
    assert_eq!(bench_monitor_command(), BENCH_MONITOR_SET.to_vec());
}

#[test]
fn trailing_crlf_is_trimmed() {
    assert_eq!(trim_crlf(b"55\r\n"), b"55".to_vec());
    assert_eq!(trim_crlf(b"55\r\n\r\n"), b"55".to_vec());
    assert_eq!(trim_crlf(b"55\n\r"), b"55\n\r".to_vec());
    assert_eq!(trim_crlf(b""), Vec::<u8>::new());
}

#[test]
fn model_check() {
    assert_eq!(check_model_reply(b"55\r\n"), Ok(()));
    assert_eq!(check_model_reply(b"56\r\n"), Err(HandshakeError::WrongModel));
    assert_eq!(check_model_reply(b"550\r\n"), Err(HandshakeError::WrongModel));
}

#[test]
fn monitor_registration_replies() {
    assert_eq!(check_monitor_reply(b"OK\r\n"), Ok(()));
    assert_eq!(check_monitor_reply(b"E0\r\n"), Err(HandshakeError::DeviceNumberError));
    assert_eq!(check_monitor_reply(b"E1\r\n"), Err(HandshakeError::CommandError));
    assert_eq!(
        check_monitor_reply(b"E2\r\n"),
        Err(HandshakeError::UnexpectedResponse(b"E2".to_vec()))
    );
}

#[test]
fn clock_set_replies() {
    assert_eq!(classify_time_reply(b"OK\r\n"), TimeSetReply::Accepted);
    assert_eq!(classify_time_reply(b"E1\r\n"), TimeSetReply::CommandError);
    assert_eq!(classify_time_reply(b"??\r\n"), TimeSetReply::Unexpected);
}

#[test]
fn clock_set_command() {
    let cfg = DemoCpb16Config::new("plc:8501".to_string());
    assert_eq!(cfg.get_address(), "plc:8501");
    assert_eq!(cfg.get_time_preference_dummy_command(), b"WRT 24 03 15 10 20 30 5\r".to_vec());
    let n = LocalNow { year: 2031, month: 12, day: 1, hour: 0, minute: 5, second: 9, weekday: 0 };
    assert_eq!(time_command_for(&n), Some(b"WRT 31 12 01 00 05 09 0\r".to_vec()));
    let n = LocalNow { year: 2100, ..n };
    assert_eq!(time_command_for(&n), None);
    let now = cfg.get_time_preference_command().unwrap();
    assert_eq!(now.len(), 24);
    assert!(now.starts_with(b"WRT "));
}

#[test]
fn machine_configs() {
    let c = DemoMachineConfig::from_address("10.0.0.2:8501".to_string());
    assert_eq!(c.get_address(), "10.0.0.2:8501");
    assert_eq!(c.get_check_command(), b"?K\r".to_vec());
    assert_eq!(c.get_check_response(), "55");
    assert_eq!(c.get_set_moniter_command(), BENCH_MONITOR_SET.to_vec());
    assert_eq!(c.get_monitor_readout_command(), b"MWR\r".to_vec());
    assert_eq!(c.get_monitor_interval(), 50);
    assert_eq!(c.get_interval_when_machine_stop(), 5000);

    let s = DemoMachineStatusConfig::new("10.0.0.3:8501".to_string(), "55".to_string());
    assert_eq!(s.get_address(), "10.0.0.3:8501");
    assert_eq!(s.get_check_command(), b"?K\r".to_vec());
    assert_eq!(s.get_check_response(), "55");
    assert_eq!(s.get_collecter_command(), b"RDS DM1000.U 101\r".to_vec());
    assert_eq!(s.get_set_moniter_command(), BENCH_MONITOR_SET.to_vec());
    assert_eq!(s.get_monitor_readout_command(), b"MWR\r".to_vec());
}
