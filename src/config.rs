use crate::clock::{is_civil_time, local_now, LocalNow};
use crate::protocol::{
    bench_monitor_command, bench_monitor_devices_spec, check_command, monitor_command_spec,
    monitor_readout_command, push_decimal, time_command_for,
    time_command_spec, decimal, CR, SPACE,
};
use vstd::prelude::*;

verus! {

/// Polling period while the machine runs, in milliseconds.
pub const MONITOR_INTERVAL: u64 = 1000;

/// Polling period while the machine stands, in milliseconds.
pub const INTERVAL_WHEN_MACHINE_STOP: u64 = 1000;

/// The tighter cadence of the bench machine, in milliseconds.
pub const BENCH_MONITOR_INTERVAL: u64 = 50;

/// The bench machine's cadence while it stands, in milliseconds.
pub const BENCH_INTERVAL_WHEN_MACHINE_STOP: u64 = 5000;

/// The calendar time of the fixed clock-set command used for trials.
pub open spec fn dummy_time() -> LocalNow {
    LocalNow { year: 2024, month: 3, day: 15, hour: 10, minute: 20, second: 30, weekday: 5 }
}

/// Where the packaging machine's PLC listens.
#[derive(Debug, Clone)]
pub struct DemoCpb16Config {
    pub address: String,
}

impl DemoCpb16Config {
    pub fn new(address: String) -> (r: Self)
        ensures
            r.address@ == address@,
    {
        DemoCpb16Config { address }
    }

    pub fn get_address(&self) -> (r: String)
        ensures
            r@ == self.address@,
    {
        self.address.clone()
    }

    /// The clock-set command for the local time now; `None` when the year
    /// is outside 2000 to 2099, which the command cannot carry.
    pub fn get_time_preference_command(&self) -> (r: Option<Vec<u8>>)
        ensures
            r matches Some(c) ==> exists|n: LocalNow|
                #![trigger time_command_spec(n)]
                is_civil_time(
                    n.year as int,
                    n.month as int,
                    n.day as int,
                    n.hour as int,
                    n.minute as int,
                    n.second as int,
                ) && n.weekday < 7 && time_command_spec(n) == Some(c@),
    {
        let now = local_now();
        time_command_for(&now)
    }

    /// The clock-set command for a fixed time: 2024-03-15 10:20:30, a Friday.
    pub fn get_time_preference_dummy_command(&self) -> (r: Vec<u8>)
        ensures
            Some(r@) == time_command_spec(dummy_time()),
    {
        let t = LocalNow { year: 2024, month: 3, day: 15, hour: 10, minute: 20, second: 30, weekday: 5 };
        match time_command_for(&t) {
            Some(c) => c,
            None => {
                assert(false);
                Vec::new()
            },
        }
    }
}

/// Connection and cadence settings of the bench machine.
#[derive(Debug, Clone)]
pub struct DemoMachineConfig {
    pub address: String,
    pub check_command: Vec<u8>,
    pub check_response: String,
    pub set_moniter_command: Vec<u8>,
    pub monitor_readout_command: Vec<u8>,
    pub monitor_interval: u64,
    pub interval_when_machine_stop: u64,
}

impl DemoMachineConfig {
    /// The settings for a PLC at `address`, with the expected model `55`,
    /// the bench machine's monitor set, and the bench cadence.
    pub fn from_address(address: String) -> (r: Self)
        ensures
            r.address@ == address@,
            r.check_command@ == seq![63u8, 75u8, CR],
            r.check_response@ == "55"@,
            r.set_moniter_command@ == monitor_command_spec(bench_monitor_devices_spec()),
            r.monitor_readout_command@ == seq![77u8, 87u8, 82u8, CR],
            r.monitor_interval == BENCH_MONITOR_INTERVAL,
            r.interval_when_machine_stop == BENCH_INTERVAL_WHEN_MACHINE_STOP,
    {
        DemoMachineConfig {
            address,
            check_command: check_command(),
            check_response: "55".to_owned(),
            set_moniter_command: bench_monitor_command(),
            monitor_readout_command: monitor_readout_command(),
            monitor_interval: BENCH_MONITOR_INTERVAL,
            interval_when_machine_stop: BENCH_INTERVAL_WHEN_MACHINE_STOP,
        }
    }

    pub fn get_address(&self) -> (r: String)
        ensures
            r@ == self.address@,
    {
        self.address.clone()
    }

    pub fn get_check_command(&self) -> (r: Vec<u8>)
        ensures
            r@ == self.check_command@,
    {
        self.check_command.clone()
    }

    pub fn get_check_response(&self) -> (r: String)
        ensures
            r@ == self.check_response@,
    {
        self.check_response.clone()
    }

    pub fn get_set_moniter_command(&self) -> (r: Vec<u8>)
        ensures
            r@ == self.set_moniter_command@,
    {
        self.set_moniter_command.clone()
    }

    pub fn get_monitor_readout_command(&self) -> (r: Vec<u8>)
        ensures
            r@ == self.monitor_readout_command@,
    {
        self.monitor_readout_command.clone()
    }

    pub fn get_monitor_interval(&self) -> (r: u64)
        ensures
            r == self.monitor_interval,
    {
        self.monitor_interval
    }

    pub fn get_interval_when_machine_stop(&self) -> (r: u64)
        ensures
            r == self.interval_when_machine_stop,
    {
        self.interval_when_machine_stop
    }
}

/// `RDS DM<dev>.U <count>` CR: read `count` consecutive words from `dev`.
pub open spec fn read_command_spec(dev: u32, count: u32) -> Seq<u8> {
    seq![82u8, 68u8, 83u8, SPACE, 68u8, 77u8] + decimal(dev as nat) + seq![46u8, 85u8, SPACE]
        + decimal(count as nat) + seq![CR]
}

/// The first status word of the bench machine's block, and the block's length.
pub const STATUS_BLOCK_DEVICE: u32 = 1000;
pub const STATUS_BLOCK_LENGTH: u32 = 101;

/// The consecutive-read command for `count` words from `dev`.
pub fn read_command(dev: u32, count: u32) -> (r: Vec<u8>)
    ensures
        r@ == read_command_spec(dev, count),
{
    let mut out: Vec<u8> = vec![82u8, 68u8, 83u8, SPACE, 68u8, 77u8];
    push_decimal(&mut out, dev);
    out.push(46u8);
    out.push(85u8);
    out.push(SPACE);
    push_decimal(&mut out, count);
    out.push(CR);
    proof {
        assert(out@ =~= read_command_spec(dev, count));
    }
    out
}

/// One reply of the status-block reader: the raw bytes and three counters
/// read from them.
#[derive(Debug, Clone)]
pub struct DemoMachineStatusReceiveData {
    pub data: Vec<u8>,
    pub count: u32,
    pub notify: u32,
    pub user: u32,
}

/// Connection settings of the status-block reader.
#[derive(Debug, Clone)]
pub struct DemoMachineStatusConfig {
    pub address: String,
    pub check_command: Vec<u8>,
    pub check_response: String,
    pub collecter_command: Vec<u8>,
    pub set_moniter_command: Vec<u8>,
    pub monitor_readout_command: Vec<u8>,
}

impl DemoMachineStatusConfig {
    /// The settings for a PLC at `address` whose model answers `check_response`.
    pub fn new(address: String, check_response: String) -> (r: Self)
        ensures
            r.address@ == address@,
            r.check_command@ == seq![63u8, 75u8, CR],
            r.check_response@ == check_response@,
            r.collecter_command@ == read_command_spec(STATUS_BLOCK_DEVICE, STATUS_BLOCK_LENGTH),
            r.set_moniter_command@ == monitor_command_spec(bench_monitor_devices_spec()),
            r.monitor_readout_command@ == seq![77u8, 87u8, 82u8, CR],
    {
        DemoMachineStatusConfig {
            address,
            check_command: check_command(),
            check_response,
            collecter_command: read_command(STATUS_BLOCK_DEVICE, STATUS_BLOCK_LENGTH),
            set_moniter_command: bench_monitor_command(),
            monitor_readout_command: monitor_readout_command(),
        }
    }

    pub fn get_address(&self) -> (r: String)
        ensures
            r@ == self.address@,
    {
        self.address.clone()
    }

    pub fn get_check_command(&self) -> (r: Vec<u8>)
        ensures
            r@ == self.check_command@,
    {
        self.check_command.clone()
    }

    pub fn get_check_response(&self) -> (r: String)
        ensures
            r@ == self.check_response@,
    {
        self.check_response.clone()
    }

    pub fn get_collecter_command(&self) -> (r: Vec<u8>)
        ensures
            r@ == self.collecter_command@,
    {
        self.collecter_command.clone()
    }

    pub fn get_set_moniter_command(&self) -> (r: Vec<u8>)
        ensures
            r@ == self.set_moniter_command@,
    {
        self.set_moniter_command.clone()
    }

    pub fn get_monitor_readout_command(&self) -> (r: Vec<u8>)
        ensures
            r@ == self.monitor_readout_command@,
    {
        self.monitor_readout_command.clone()
    }
}

} // verus!
