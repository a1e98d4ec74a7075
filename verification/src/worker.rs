//! Worker slots: reusable units of execution capacity with an observable
//! availability status.

use vstd::prelude::*;

use crate::str_eq;

verus! {

/// The observable status of a worker slot. `Ready` and `Idle` both mean
/// "may accept a new task"; `Busy` and `Running` both mean "executing".
#[derive(Debug, PartialEq, Eq, Structural, Clone, Copy)]
pub enum WorkerStatus {
    Ready,
    Busy,
    Running,
    Idle,
}

impl WorkerStatus {
    /// What parsing a status text yields.
    pub open spec fn spec_parse(s: Seq<char>) -> Option<WorkerStatus> {
        if s == "Ready"@ {
            Some(WorkerStatus::Ready)
        } else if s == "Busy"@ {
            Some(WorkerStatus::Busy)
        } else if s == "Running"@ {
            Some(WorkerStatus::Running)
        } else if s == "Idle"@ {
            Some(WorkerStatus::Idle)
        } else {
            None
        }
    }

    /// Parses one of the four status spellings; any other text is outside
    /// this function's contract.
    pub fn from_string(status: &str) -> (r: Self)
        requires
            Self::spec_parse(status@) is Some,
        ensures
            Some(r) == Self::spec_parse(status@),
    {
        if str_eq(status, "Ready") {
            WorkerStatus::Ready
        } else if str_eq(status, "Busy") {
            WorkerStatus::Busy
        } else if str_eq(status, "Running") {
            WorkerStatus::Running
        } else if str_eq(status, "Idle") {
            WorkerStatus::Idle
        } else {
            vstd::pervasive::unreached()
        }
    }

    /// Whether a slot in this status may accept a new task.
    pub open spec fn is_available(self) -> bool {
        self is Ready || self is Idle
    }
}

/// A unit of execution capacity: an opaque id, an availability status and
/// an idle-time counter. The background execution handle that runs the
/// slot's task lives outside this record, keyed by the slot's id.
#[derive(Debug, PartialEq, Eq, Structural, Clone, Copy)]
pub struct Worker {
    /// The slot's identity, drawn at creation; opaque to every caller.
    pub id: u128,
    /// How long the slot has been without work.
    pub idle_time: u32,
    /// The slot's availability status.
    pub status: WorkerStatus,
}

impl Worker {
    /// Instantiates a slot already occupied: a fresh random id, status
    /// `Busy`, no idle time.
    pub fn new() -> (r: Self)
        ensures
            r.status is Busy,
            r.idle_time == 0,
    {
        proof {
            reveal_strlit("Ready");
            reveal_strlit("Busy");
            assert("Ready"@.len() == 5);
            assert("Busy"@.len() == 4);
        }
        Worker { id: fresh_worker_id(), idle_time: 0, status: WorkerStatus::from_string("Busy") }
    }

    /// The slot's identity.
    pub fn get_id(&self) -> (r: u128)
        ensures
            r == self.id,
    {
        self.id
    }

    /// A non-blocking read of the slot's status.
    pub fn get_status(&self) -> (r: WorkerStatus)
        ensures
            r == self.status,
    {
        self.status
    }

    /// Replaces the slot's status; identity and idle time are untouched.
    pub fn set_status(&mut self, new_status: WorkerStatus)
        ensures
            final(self).status == new_status,
            final(self).id == old(self).id,
            final(self).idle_time == old(self).idle_time,
    {
        self.status = new_status;
    }

    /// How long the slot has been without work.
    pub fn get_idle_time(&self) -> (r: u32)
        ensures
            r == self.idle_time,
    {
        self.idle_time
    }

    /// Replaces the idle-time counter; identity and status are untouched.
    pub fn set_idle_time(&mut self, new_idle_time: u32)
        ensures
            final(self).idle_time == new_idle_time,
            final(self).id == old(self).id,
            final(self).status == old(self).status,
    {
        self.idle_time = new_idle_time;
    }
}

/// Relies on `uuid::Uuid::new_v4` and `Uuid::as_u128`: a freshly generated
/// random version-4 id, carried as its 128-bit value. Nothing is promised
/// of the value; in particular, distinctness from earlier ids is not.
#[verifier::external_body]
fn fresh_worker_id() -> u128 {
    uuid::Uuid::new_v4().as_u128()
}

} // verus!
