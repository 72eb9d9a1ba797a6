//! Bandwidth events, as the measurement engine reports them.
//!
//! The engine tags every callback with an action code: `1` means "record is
//! new or its rates changed" (Set), `2` means "record has ended" (Remove).
//! Rates are in thousandths of a kilobit per second.

use vstd::prelude::*;

verus! {

/// Action code the measurement engine uses for a Set event.
pub const ACTION_SET_CODE: i32 = 1;

/// Action code the measurement engine uses for a Remove event.
pub const ACTION_REMOVE_CODE: i32 = 2;

/// What a bandwidth event asks of the record table.
#[derive(Clone, Copy, PartialEq, Eq, Structural, Debug)]
pub enum Action {
    /// The record is new, or its fields changed: insert or overwrite.
    Put,
    /// The record has ended: drop it.
    Remove,
}

/// One record-level bandwidth event.
#[derive(Debug, Clone)]
pub struct Event {
    pub action: Action,
    /// Stable identifier of the traffic record; unique among live records.
    pub record_id: i32,
    /// Owning process id; may be 0 when the engine cannot attribute the flow.
    pub pid: i32,
    /// Numeric user id; resolved to a display name when the event is applied.
    pub uid: u32,
    /// Label of the owning executable; may be empty.
    pub program: String,
    /// Label of the network interface carrying the traffic.
    pub device: String,
    /// Sent rate, thousandths of a kilobit per second.
    pub sent: u32,
    /// Received rate, thousandths of a kilobit per second.
    pub received: u32,
}

/// Mathematical image of an `Event`.
#[verifier::ext_equal]
pub struct EventModel {
    pub action: Action,
    pub record_id: int,
    pub pid: int,
    pub uid: int,
    pub program: Seq<char>,
    pub device: Seq<char>,
    pub sent: int,
    pub received: int,
}

impl View for Event {
    type V = EventModel;

    open spec fn view(&self) -> EventModel {
        EventModel {
            action: self.action,
            record_id: self.record_id as int,
            pid: self.pid as int,
            uid: self.uid as int,
            program: self.program@,
            device: self.device@,
            sent: self.sent as int,
            received: self.received as int,
        }
    }
}

/// Maps the engine's raw action code to an `Action`; any other code is
/// unknown and rejected.
pub fn action_from_code(code: i32) -> (r: Option<Action>)
    ensures
        code == ACTION_SET_CODE ==> r == Some(Action::Put),
        code == ACTION_REMOVE_CODE ==> r == Some(Action::Remove),
        code != ACTION_SET_CODE && code != ACTION_REMOVE_CODE ==> r is None,
{
    if code == ACTION_SET_CODE {
        Some(Action::Put)
    } else if code == ACTION_REMOVE_CODE {
        Some(Action::Remove)
    } else {
        None
    }
}

/// Builds an event from the raw fields of one engine callback.  Returns
/// `None` exactly when the action code is unknown.
pub fn make_event(
    code: i32,
    record_id: i32,
    pid: i32,
    uid: u32,
    program: String,
    device: String,
    sent: u32,
    received: u32,
) -> (r: Option<Event>)
    ensures
        (code == ACTION_SET_CODE || code == ACTION_REMOVE_CODE) <==> r is Some,
        r matches Some(e) ==> e@ == (EventModel {
            action: if code == ACTION_SET_CODE {
                Action::Put
            } else {
                Action::Remove
            },
            record_id: record_id as int,
            pid: pid as int,
            uid: uid as int,
            program: program@,
            device: device@,
            sent: sent as int,
            received: received as int,
        }),
{
    match action_from_code(code) {
        Some(action) => Some(
            Event { action, record_id, pid, uid, program, device, sent, received },
        ),
        None => None,
    }
}

} // verus!
