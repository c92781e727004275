//! Remembered vehicles: how one is listed, how one is found by its key, and
//! the busy flag of a lock or unlock command.
use vstd::prelude::*;
use vstd::string::StringExecFns;

verus! {

/// A failed call to the remote vehicle service.
#[derive(Clone, Copy, Debug, PartialEq, Eq, Structural)]
pub enum CallFailed {
    Remote,
}

/// What the views show of a vehicle of the account.
#[derive(Clone, Debug)]
pub struct VehicleSummary {
    pub key: String,
    pub nick_name: String,
    pub model_name: String,
    pub trim: String,
}

/// The line that lists a vehicle: `nick - model (trim)`.
pub open spec fn label_of(v: VehicleSummary) -> Seq<char> {
    v.nick_name@ + " - "@ + v.model_name@ + " ("@ + v.trim@ + ")"@
}

impl VehicleSummary {
    /// The line that lists this vehicle.
    pub fn label(&self) -> (s: String)
        ensures
            s@ == label_of(*self),
    {
        let mut s = self.nick_name.clone();
        s.append(" - ");
        s.append(self.model_name.as_str());
        s.append(" (");
        s.append(self.trim.as_str());
        s.append(")");
        s
    }
}

/// The index of the first vehicle whose key is `key`, or `None` when no
/// vehicle has it.
pub fn find_vehicle(vehicles: &Vec<VehicleSummary>, key: &String) -> (r: Option<usize>)
    ensures
        match r {
            Some(i) => i < vehicles@.len() && vehicles@[i as int].key@ == key@
                && forall|j: int| 0 <= j < i ==> (#[trigger] vehicles@[j]).key@ != key@,
            None => forall|j: int| 0 <= j < vehicles@.len() ==> (#[trigger] vehicles@[j]).key@ != key@,
        },
{
    let mut i: usize = 0;
    while i < vehicles.len()
        invariant
            i <= vehicles@.len(),
            forall|j: int| 0 <= j < i ==> (#[trigger] vehicles@[j]).key@ != key@,
        decreases vehicles@.len() - i,
    {
        if vehicles[i].key == *key {
            return Some(i);
        }
        i = i + 1;
    }
    None
}

/// The remote command that a press of the vehicle's button sends.
#[derive(Clone, Copy, Debug, PartialEq, Eq, Structural)]
pub enum LockCommand {
    Lock,
    Unlock,
}

/// The command offered for a vehicle that is locked (`true`) or unlocked.
pub open spec fn command_for(locked: bool) -> LockCommand {
    if locked {
        LockCommand::Unlock
    } else {
        LockCommand::Lock
    }
}

/// Whether the vehicle is locked after `c` ran with outcome `ok`.
pub open spec fn locked_after(c: LockCommand, ok: bool) -> bool {
    match c {
        LockCommand::Lock => ok,
        LockCommand::Unlock => !ok,
    }
}

/// A press of the button on flag `s`: the command sent, if the press is
/// accepted, and the flag afterwards.
pub open spec fn press_outcome(s: Option<bool>) -> (Option<LockCommand>, Option<bool>) {
    match s {
        Some(locked) => (Some(command_for(locked)), None),
        None => (None, None),
    }
}

/// The lock state of a vehicle as its view knows it: `Some(true)` locked,
/// `Some(false)` unlocked, `None` while a command is in flight.
#[derive(Clone, Copy, Debug, PartialEq, Eq, Structural)]
pub struct LockFlag {
    pub state: Option<bool>,
}

impl LockFlag {
    pub fn new(locked: bool) -> (f: LockFlag)
        ensures
            f.state == Some(locked),
    {
        LockFlag { state: Some(locked) }
    }

    /// Whether a command is in flight.
    pub fn is_busy(&self) -> (b: bool)
        ensures
            b == self.state.is_none(),
    {
        self.state.is_none()
    }

    /// The command that the button offers: `Unlock` for a locked vehicle,
    /// `Lock` for an unlocked one, none while a command is in flight.
    pub fn offered(&self) -> (c: Option<LockCommand>)
        ensures
            c == press_outcome(self.state).0,
    {
        match self.state {
            Some(true) => Some(LockCommand::Unlock),
            Some(false) => Some(LockCommand::Lock),
            None => None,
        }
    }

    /// A press of the button. While a command is in flight the press is not
    /// accepted; otherwise the flag turns busy and the command to send is
    /// returned: `Unlock` for a locked vehicle, `Lock` for an unlocked one.
    pub fn press(&mut self) -> (c: Option<LockCommand>)
        ensures
            (c, final(self).state) == press_outcome(old(self).state),
    {
        match self.state {
            Some(locked) => {
                self.state = None;
                if locked {
                    Some(LockCommand::Unlock)
                } else {
                    Some(LockCommand::Lock)
                }
            },
            None => None,
        }
    }

    /// The end of command `c` with its outcome. The flag leaves the busy
    /// state whatever the outcome: on success it shows the new lock state,
    /// on failure the state from before the command, and the failure is
    /// handed back to be shown.
    pub fn finish(&mut self, c: LockCommand, outcome: Result<(), CallFailed>) -> (r: Result<(), CallFailed>)
        ensures
            final(self).state == Some(locked_after(c, outcome is Ok)),
            r == outcome,
    {
        let ok = outcome.is_ok();
        self.state = Some(match c {
            LockCommand::Lock => ok,
            LockCommand::Unlock => !ok,
        });
        outcome
    }
}

/// A press on a vehicle that is not busy is accepted, and whatever the
/// command's outcome the flag then leaves the busy state: to the opposite
/// lock state on success, back to the previous one on failure. A press while
/// busy is refused.
pub proof fn busy_resolves(locked: bool, ok: bool)
    ensures
        press_outcome(Some(locked)).0 is Some,
        press_outcome(Some(locked)).1 is None,
        press_outcome(None).0 is None,
        locked_after(press_outcome(Some(locked)).0->Some_0, ok) == if ok {
            !locked
        } else {
            locked
        },
{
}

} // verus!
