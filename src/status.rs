use vstd::prelude::*;

verus! {

/// The operating state of the machine, as reported by its running register.
#[derive(Debug, Clone, Copy, PartialEq, Eq, Structural)]
pub enum DemoCpb16Status {
    Running,
    Stopping,
}

/// The five ASCII digits that mark a register as set.
pub open spec fn is_running_marker(field: Seq<u8>) -> bool {
    field =~= seq![48u8, 48u8, 48u8, 48u8, 49u8]
}

/// The status that a running-register field decodes to: `00001` is
/// running, anything else (`00000` included) is stopping.
pub open spec fn status_of(field: Seq<u8>) -> DemoCpb16Status {
    if is_running_marker(field) {
        DemoCpb16Status::Running
    } else {
        DemoCpb16Status::Stopping
    }
}

/// Whether a field is the set marker `00001`.
pub fn is_marker_set(field: &[u8]) -> (r: bool)
    ensures
        r == is_running_marker(field@),
{
    field.len() == 5 && field[0] == 48u8 && field[1] == 48u8 && field[2] == 48u8 && field[3]
        == 48u8 && field[4] == 49u8
}

/// Decodes the running register.
pub fn decode_status(field: &[u8]) -> (r: DemoCpb16Status)
    ensures
        r == status_of(field@),
{
    if is_marker_set(field) {
        DemoCpb16Status::Running
    } else {
        DemoCpb16Status::Stopping
    }
}

} // verus!
