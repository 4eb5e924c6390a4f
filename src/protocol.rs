use crate::clock::LocalNow;
use vstd::prelude::*;

verus! {

pub const CR: u8 = 13;
pub const LF: u8 = 10;
pub const SPACE: u8 = 32;

/// The model-check command `?K` CR.
pub fn check_command() -> (r: Vec<u8>)
    ensures
        r@ == seq![63u8, 75u8, CR],
{
    vec![63u8, 75u8, CR]
}

/// The reply of the expected model: `55`.
pub open spec fn check_response_spec() -> Seq<u8> {
    seq![53u8, 53u8]
}

/// The readout command `MWR` CR.
pub fn monitor_readout_command() -> (r: Vec<u8>)
    ensures
        r@ == seq![77u8, 87u8, 82u8, CR],
{
    vec![77u8, 87u8, 82u8, CR]
}

/// The words of the packaging machine's monitor set, in the order the
/// reply gives them, each a device number and whether it is read as a long
/// (two-word) value; all of them are read unsigned.
pub open spec fn monitor_devices_spec() -> Seq<(u32, bool)> {
    seq![
        (0u32, false), (50, false), (100, false), (102, false), (104, false), (106, false),
        (10, false), (12, false), (14, false), (16, false), (18, false), (20, false), (22, false),
        (24, false), (26, false), (28, false), (30, false), (32, false), (34, false), (36, false),
        (38, false), (40, false), (42, false), (44, false), (2, false),
    ]
}

pub fn monitor_devices() -> (r: Vec<(u32, bool)>)
    ensures
        r@ == monitor_devices_spec(),
{
    vec![
        (0u32, false), (50, false), (100, false), (102, false), (104, false), (106, false),
        (10, false), (12, false), (14, false), (16, false), (18, false), (20, false), (22, false),
        (24, false), (26, false), (28, false), (30, false), (32, false), (34, false), (36, false),
        (38, false), (40, false), (42, false), (44, false), (2, false),
    ]
}

/// The words of the bench machine's monitor set; its second word is a long.
pub open spec fn bench_monitor_devices_spec() -> Seq<(u32, bool)> {
    seq![
        (1000u32, false), (1001, true), (1002, false), (1003, false), (1004, false),
        (1008, false), (1009, false), (1100, false),
    ]
}

pub fn bench_monitor_devices() -> (r: Vec<(u32, bool)>)
    ensures
        r@ == bench_monitor_devices_spec(),
{
    vec![
        (1000u32, false), (1001, true), (1002, false), (1003, false), (1004, false),
        (1008, false), (1009, false), (1100, false),
    ]
}

/// The decimal digits of `n`, without leading zeros.
pub open spec fn decimal(n: nat) -> Seq<u8>
    decreases n,
{
    if n < 10 {
        seq![(48 + n) as u8]
    } else {
        decimal(n / 10).push((48 + n % 10) as u8)
    }
}

/// `DM<n>.U`, or `DM<n>.L` for a long: data-memory word `n`, read unsigned.
pub open spec fn device_ref(w: (u32, bool)) -> Seq<u8> {
    seq![68u8, 77u8] + decimal(w.0 as nat) + seq![46u8, if w.1 { 76u8 } else { 85u8 }]
}

/// The references of `devs`, separated by single spaces.
pub open spec fn device_refs(devs: Seq<(u32, bool)>) -> Seq<u8>
    decreases devs.len(),
{
    if devs.len() == 0 {
        Seq::empty()
    } else if devs.len() == 1 {
        device_ref(devs[0])
    } else {
        device_refs(devs.drop_last()).push(SPACE) + device_ref(devs.last())
    }
}

/// `MWS ` followed by the references of `devs` and CR.
pub open spec fn monitor_command_spec(devs: Seq<(u32, bool)>) -> Seq<u8> {
    seq![77u8, 87u8, 83u8, SPACE] + device_refs(devs) + seq![CR]
}

/// Appends the decimal digits of `n`.
pub fn push_decimal(out: &mut Vec<u8>, n: u32)
    ensures
        final(out)@ == old(out)@ + decimal(n as nat),
    decreases n,
{
    if n >= 10 {
        push_decimal(out, n / 10);
    }
    out.push(48u8 + (n % 10) as u8);
    proof {
        if n < 10 {
            assert(old(out)@ + decimal(n as nat) =~= old(out)@.push((48 + n) as u8));
        } else {
            assert(old(out)@ + decimal(n as nat) =~= old(out)@ + decimal(n as nat / 10) + seq![
                (48 + n % 10) as u8,
            ]);
        }
    }
}

/// The command that registers `devs` as the monitor set.
pub fn monitor_command_for(devs: &Vec<(u32, bool)>) -> (r: Vec<u8>)
    ensures
        r@ == monitor_command_spec(devs@),
{
    let mut out: Vec<u8> = vec![77u8, 87u8, 83u8, SPACE];
    let ghost head = out@;
    let mut i: usize = 0;
    proof {
        assert(devs@.take(0) =~= Seq::<(u32, bool)>::empty());
        assert(out@ =~= head + device_refs(devs@.take(0)));
    }
    while i < devs.len()
        invariant
            0 <= i <= devs@.len(),
            head == seq![77u8, 87u8, 83u8, SPACE],
            out@ == head + device_refs(devs@.take(i as int)),
        decreases devs.len() - i,
    {
        let ghost before = out@;
        if i > 0 {
            out.push(SPACE);
        }
        let (device, long) = devs[i];
        out.push(68u8);
        out.push(77u8);
        push_decimal(&mut out, device);
        out.push(46u8);
        out.push(if long { 76u8 } else { 85u8 });
        proof {
            let t = devs@.take(i + 1);
            assert(t.drop_last() =~= devs@.take(i as int));
            assert(t.last() == devs@[i as int]);
            if i > 0 {
                assert(out@ =~= before.push(SPACE) + device_ref(devs@[i as int]));
            } else {
                assert(out@ =~= before + device_ref(devs@[i as int]));
                assert(device_refs(t) == device_ref(t[0]));
            }
        }
        i = i + 1;
    }
    out.push(CR);
    proof {
        assert(devs@.take(devs@.len() as int) =~= devs@);
    }
    out
}

/// The monitor-set command for the bench machine's registers.
pub fn bench_monitor_command() -> (r: Vec<u8>)
    ensures
        r@ == monitor_command_spec(bench_monitor_devices_spec()),
{
    let devs = bench_monitor_devices();
    monitor_command_for(&devs)
}

/// The monitor-set command for the machine's fixed set of registers.
pub fn set_monitor_command() -> (r: Vec<u8>)
    ensures
        r@ == monitor_command_spec(monitor_devices_spec()),
{
    let devs = monitor_devices();
    monitor_command_for(&devs)
}

/// `s` without its trailing CR LF pairs, however many there are.
pub open spec fn trim_crlf_spec(s: Seq<u8>) -> Seq<u8>
    decreases s.len(),
{
    if s.len() >= 2 && s[s.len() - 2] == CR && s[s.len() - 1] == LF {
        trim_crlf_spec(s.subrange(0, s.len() - 2))
    } else {
        s
    }
}

/// Strips every trailing CR LF pair from a reply.
pub fn trim_crlf(s: &[u8]) -> (r: Vec<u8>)
    ensures
        r@ == trim_crlf_spec(s@),
{
    let mut n: usize = s.len();
    proof {
        assert(s@.subrange(0, n as int) =~= s@);
    }
    while n >= 2 && s[n - 2] == CR && s[n - 1] == LF
        invariant
            0 <= n <= s@.len(),
            trim_crlf_spec(s@.subrange(0, n as int)) == trim_crlf_spec(s@),
        decreases n,
    {
        proof {
            let t = s@.subrange(0, n as int);
            assert(t.subrange(0, t.len() - 2) =~= s@.subrange(0, n - 2));
        }
        n = n - 2;
    }
    let mut out: Vec<u8> = Vec::new();
    let mut i: usize = 0;
    while i < n
        invariant
            0 <= i <= n <= s@.len(),
            out@ == s@.subrange(0, i as int),
        decreases n - i,
    {
        out.push(s[i]);
        proof {
            assert(out@ =~= s@.subrange(0, i + 1));
        }
        i = i + 1;
    }
    out
}

/// Why the connection handshake failed.
#[derive(Debug, Clone, PartialEq, Eq)]
pub enum HandshakeError {
    /// The model-check reply is not the expected model.
    WrongModel,
    /// The monitor set was refused: a device number is wrong (`E0`).
    DeviceNumberError,
    /// The monitor set was refused: the command is wrong (`E1`).
    CommandError,
    /// The monitor-set reply is none of the known ones; the reply is kept.
    UnexpectedResponse(Vec<u8>),
}

/// Accepts the model-check reply (CR LF not yet trimmed) of the expected model.
pub fn check_model_reply(reply: &[u8]) -> (r: Result<(), HandshakeError>)
    ensures
        r is Ok <==> trim_crlf_spec(reply@) == check_response_spec(),
        r is Err ==> r == Err::<(), HandshakeError>(HandshakeError::WrongModel),
{
    let t = trim_crlf(reply);
    if t.len() == 2 && t[0] == 53u8 && t[1] == 53u8 {
        proof {
            assert(t@ =~= check_response_spec());
        }
        Ok(())
    } else {
        Err(HandshakeError::WrongModel)
    }
}

pub open spec fn ok_reply() -> Seq<u8> {
    seq![79u8, 75u8]
}

pub open spec fn e0_reply() -> Seq<u8> {
    seq![69u8, 48u8]
}

pub open spec fn e1_reply() -> Seq<u8> {
    seq![69u8, 49u8]
}

fn is_two(t: &Vec<u8>, a: u8, b: u8) -> (r: bool)
    ensures
        r <==> t@ == seq![a, b],
{
    let r = t.len() == 2 && t[0] == a && t[1] == b;
    proof {
        if r {
            assert(t@ =~= seq![a, b]);
        }
    }
    r
}

/// Interprets the reply to the monitor-set command (CR LF not yet trimmed).
pub fn check_monitor_reply(reply: &[u8]) -> (r: Result<(), HandshakeError>)
    ensures
        ({
            let t = trim_crlf_spec(reply@);
            &&& t == ok_reply() <==> r is Ok
            &&& t == e0_reply() ==> r == Err::<(), HandshakeError>(
                HandshakeError::DeviceNumberError,
            )
            &&& t == e1_reply() ==> r == Err::<(), HandshakeError>(HandshakeError::CommandError)
            &&& t != ok_reply() && t != e0_reply() && t != e1_reply() ==> (r matches Err(
                HandshakeError::UnexpectedResponse(v),
            ) && v@ == t)
        }),
{
    let t = trim_crlf(reply);
    if is_two(&t, 79u8, 75u8) {
        Ok(())
    } else if is_two(&t, 69u8, 48u8) {
        Err(HandshakeError::DeviceNumberError)
    } else if is_two(&t, 69u8, 49u8) {
        Err(HandshakeError::CommandError)
    } else {
        Err(HandshakeError::UnexpectedResponse(t))
    }
}

/// What the machine said to a clock-set command.
#[derive(Debug, Clone, Copy, PartialEq, Eq, Structural)]
pub enum TimeSetReply {
    Accepted,
    CommandError,
    Unexpected,
}

/// Interprets the reply to the clock-set command (CR LF not yet trimmed).
pub fn classify_time_reply(reply: &[u8]) -> (r: TimeSetReply)
    ensures
        ({
            let t = trim_crlf_spec(reply@);
            r == if t == ok_reply() {
                TimeSetReply::Accepted
            } else if t == e1_reply() {
                TimeSetReply::CommandError
            } else {
                TimeSetReply::Unexpected
            }
        }),
{
    let t = trim_crlf(reply);
    if is_two(&t, 79u8, 75u8) {
        TimeSetReply::Accepted
    } else if is_two(&t, 69u8, 49u8) {
        TimeSetReply::CommandError
    } else {
        TimeSetReply::Unexpected
    }
}

/// `v` as two decimal digits.
pub open spec fn two_digits(v: int) -> Seq<u8> {
    seq![(48 + v / 10) as u8, (48 + v % 10) as u8]
}

/// The clock-set command prefix `WRT `.
pub open spec fn time_prefix() -> Seq<u8> {
    seq![87u8, 82u8, 84u8, SPACE]
}

/// `WRT YY MM DD hh mm ss W` CR for a time in the years 2000 to 2099;
/// `None` for any other year, which two digits cannot hold.
pub open spec fn time_command_spec(n: LocalNow) -> Option<Seq<u8>> {
    if 2000 <= n.year <= 2099 && n.month < 100 && n.day < 100 && n.hour < 100 && n.minute < 100
        && n.second < 100 && n.weekday < 10 {
        Some(
            time_prefix() + two_digits(n.year - 2000) + seq![SPACE] + two_digits(n.month as int)
                + seq![SPACE] + two_digits(n.day as int) + seq![SPACE] + two_digits(
                n.hour as int,
            ) + seq![SPACE] + two_digits(n.minute as int) + seq![SPACE] + two_digits(
                n.second as int,
            ) + seq![SPACE] + seq![(48 + n.weekday) as u8, CR],
        )
    } else {
        None
    }
}

fn push_two_digits(out: &mut Vec<u8>, v: u32)
    requires
        v < 100,
    ensures
        final(out)@ == old(out)@ + two_digits(v as int),
{
    out.push(48u8 + (v / 10) as u8);
    out.push(48u8 + (v % 10) as u8);
    proof {
        assert(final(out)@ =~= old(out)@ + two_digits(v as int));
    }
}

/// The clock-set command for the calendar time `n`.
pub fn time_command_for(n: &LocalNow) -> (r: Option<Vec<u8>>)
    ensures
        r matches Some(c) ==> time_command_spec(*n) == Some(c@),
        r is None ==> time_command_spec(*n) is None,
{
    if !(2000 <= n.year && n.year <= 2099 && n.month < 100 && n.day < 100 && n.hour < 100
        && n.minute < 100 && n.second < 100 && n.weekday < 10) {
        return None;
    }
    let mut out: Vec<u8> = vec![87u8, 82u8, 84u8, SPACE];
    push_two_digits(&mut out, (n.year - 2000) as u32);
    out.push(SPACE);
    push_two_digits(&mut out, n.month);
    out.push(SPACE);
    push_two_digits(&mut out, n.day);
    out.push(SPACE);
    push_two_digits(&mut out, n.hour);
    out.push(SPACE);
    push_two_digits(&mut out, n.minute);
    out.push(SPACE);
    push_two_digits(&mut out, n.second);
    out.push(SPACE);
    out.push(48u8 + n.weekday as u8);
    out.push(CR);
    proof {
        assert(out@ =~= time_command_spec(*n).unwrap());
    }
    Some(out)
}

} // verus!
