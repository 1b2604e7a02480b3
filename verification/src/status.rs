//! The publication status: a closed enumeration with stable integer codes.
//!
//! A status is serialized by its integer code, never by its name. The codes
//! are part of the document format and must not be renumbered; two of the
//! variants (`Licensed`, `Finished`) belong to the data model but are not
//! offered in the selection list.

use vstd::prelude::*;

verus! {

/// A publication status. The integer code of each variant is given by
/// [`Status::spec_code`] and is stable: `Unknown` is 0, `Ongoing` 1,
/// `Completed` 2, `Licensed` 3, `Finished` 4, `Cancelled` 5, `Hiatus` 6.
#[derive(Debug, Clone, Copy, PartialEq, Eq, Structural)]
pub enum Status {
    Unknown,
    Ongoing,
    Completed,
    Licensed,
    Finished,
    Cancelled,
    Hiatus,
}

impl Status {
    /// The stable integer code of this status.
    pub open spec fn spec_code(self) -> u8 {
        match self {
            Status::Unknown => 0,
            Status::Ongoing => 1,
            Status::Completed => 2,
            Status::Licensed => 3,
            Status::Finished => 4,
            Status::Cancelled => 5,
            Status::Hiatus => 6,
        }
    }

    /// The status a given integer code stands for, if any.
    pub open spec fn spec_from_code(code: u8) -> Option<Status> {
        if code == 0 {
            Some(Status::Unknown)
        } else if code == 1 {
            Some(Status::Ongoing)
        } else if code == 2 {
            Some(Status::Completed)
        } else if code == 3 {
            Some(Status::Licensed)
        } else if code == 4 {
            Some(Status::Finished)
        } else if code == 5 {
            Some(Status::Cancelled)
        } else if code == 6 {
            Some(Status::Hiatus)
        } else {
            None
        }
    }

    /// The name of this status, as shown in the selection list.
    pub open spec fn spec_name(self) -> Seq<char> {
        match self {
            Status::Unknown => "Unknown"@,
            Status::Ongoing => "Ongoing"@,
            Status::Completed => "Completed"@,
            Status::Licensed => "Licensed"@,
            Status::Finished => "Finished"@,
            Status::Cancelled => "Cancelled"@,
            Status::Hiatus => "Hiatus"@,
        }
    }

    /// The stable integer code under which this status is serialized.
    pub fn code(&self) -> (c: u8)
        ensures
            c == self.spec_code(),
    {
        match self {
            Status::Unknown => 0,
            Status::Ongoing => 1,
            Status::Completed => 2,
            Status::Licensed => 3,
            Status::Finished => 4,
            Status::Cancelled => 5,
            Status::Hiatus => 6,
        }
    }

    /// Recovers a status from its integer code; `None` for a code that no
    /// variant carries.
    pub fn from_code(code: u8) -> (r: Option<Status>)
        ensures
            r == Status::spec_from_code(code),
    {
        if code == 0 {
            Some(Status::Unknown)
        } else if code == 1 {
            Some(Status::Ongoing)
        } else if code == 2 {
            Some(Status::Completed)
        } else if code == 3 {
            Some(Status::Licensed)
        } else if code == 4 {
            Some(Status::Finished)
        } else if code == 5 {
            Some(Status::Cancelled)
        } else if code == 6 {
            Some(Status::Hiatus)
        } else {
            None
        }
    }

    /// The display name of this status.
    pub fn name(&self) -> (r: &'static str)
        ensures
            r@ == self.spec_name(),
    {
        match self {
            Status::Unknown => "Unknown",
            Status::Ongoing => "Ongoing",
            Status::Completed => "Completed",
            Status::Licensed => "Licensed",
            Status::Finished => "Finished",
            Status::Cancelled => "Cancelled",
            Status::Hiatus => "Hiatus",
        }
    }

    /// The statuses offered for selection, in their declared order. The
    /// model's two unselectable variants (`Licensed`, `Finished`) are left
    /// out.
    pub fn selectable() -> (r: Vec<Status>)
        ensures
            r@ == seq![
                Status::Unknown,
                Status::Ongoing,
                Status::Completed,
                Status::Cancelled,
                Status::Hiatus,
            ],
    {
        let mut v: Vec<Status> = Vec::new();
        v.push(Status::Unknown);
        v.push(Status::Ongoing);
        v.push(Status::Completed);
        v.push(Status::Cancelled);
        v.push(Status::Hiatus);
        proof {
            assert(v@ =~= seq![
                Status::Unknown,
                Status::Ongoing,
                Status::Completed,
                Status::Cancelled,
                Status::Hiatus,
            ]);
        }
        v
    }
}

impl Default for Status {
    /// The default status is `Unknown`, the fallback of a cancelled prompt.
    fn default() -> (r: Status)
        ensures
            r == Status::Unknown,
    {
        Status::Unknown
    }
}

/// Serializing a status to its integer code and reading the code back
/// recovers the same variant.
pub proof fn lemma_status_code_round_trip(s: Status)
    ensures
        Status::spec_from_code(s.spec_code()) == Some(s),
{
}

} // verus!
