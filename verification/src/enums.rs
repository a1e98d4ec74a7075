//! The five discrete priority levels and their total order, textual parsing
//! and formatting.

use vstd::prelude::*;

use crate::str_eq;
use core::cmp::Ordering;

verus! {

/// A closed enumeration of priority levels, totally ordered ascending:
/// `VeryLow < Low < Medium < High < VeryHigh`.
#[derive(Debug, PartialEq, Eq, Structural, Clone, Copy)]
pub enum TaskPriority {
    VeryLow,
    Low,
    Medium,
    High,
    VeryHigh,
}

/// The error returned when a submitted textual value is rejected.
#[derive(Debug, PartialEq, Eq, Structural, Clone, Copy)]
pub enum SchedulerError {
    /// The text is not one of the five canonical priority spellings.
    InvalidPriority,
}

impl TaskPriority {
    /// The position of a level in the ascending order, used as the sole
    /// comparison key for pending work.
    pub open spec fn rank(self) -> int {
        match self {
            TaskPriority::VeryLow => 0,
            TaskPriority::Low => 1,
            TaskPriority::Medium => 2,
            TaskPriority::High => 3,
            TaskPriority::VeryHigh => 4,
        }
    }

    /// The canonical spelling of a level.
    pub open spec fn spec_spelling(self) -> Seq<char> {
        match self {
            TaskPriority::VeryLow => "VeryLow"@,
            TaskPriority::Low => "Low"@,
            TaskPriority::Medium => "Medium"@,
            TaskPriority::High => "High"@,
            TaskPriority::VeryHigh => "VeryHigh"@,
        }
    }

    /// What parsing a text yields: the level it canonically spells, or
    /// nothing when it spells none.
    pub open spec fn spec_parse(s: Seq<char>) -> Option<TaskPriority> {
        if s == "VeryLow"@ {
            Some(TaskPriority::VeryLow)
        } else if s == "Low"@ {
            Some(TaskPriority::Low)
        } else if s == "Medium"@ {
            Some(TaskPriority::Medium)
        } else if s == "High"@ {
            Some(TaskPriority::High)
        } else if s == "VeryHigh"@ {
            Some(TaskPriority::VeryHigh)
        } else {
            None
        }
    }

    /// Parses one of the five canonical spellings; any other text is
    /// rejected with `InvalidPriority`.
    pub fn parse(priority: &str) -> (r: Result<TaskPriority, SchedulerError>)
        ensures
            Self::spec_parse(priority@) is Some ==> r == Ok::<TaskPriority, SchedulerError>(
                Self::spec_parse(priority@).unwrap(),
            ),
            Self::spec_parse(priority@) is None ==> r == Err::<TaskPriority, SchedulerError>(
                SchedulerError::InvalidPriority,
            ),
    {
        if str_eq(priority, "VeryLow") {
            Ok(TaskPriority::VeryLow)
        } else if str_eq(priority, "Low") {
            Ok(TaskPriority::Low)
        } else if str_eq(priority, "Medium") {
            Ok(TaskPriority::Medium)
        } else if str_eq(priority, "High") {
            Ok(TaskPriority::High)
        } else if str_eq(priority, "VeryHigh") {
            Ok(TaskPriority::VeryHigh)
        } else {
            Err(SchedulerError::InvalidPriority)
        }
    }

    /// Parses a canonical spelling. Any other text is outside this
    /// function's contract; callers that cannot guarantee a canonical
    /// spelling use [`TaskPriority::parse`] instead.
    pub fn from_string(priority: &str) -> (r: Self)
        requires
            Self::spec_parse(priority@) is Some,
        ensures
            Some(r) == Self::spec_parse(priority@),
    {
        match Self::parse(priority) {
            Ok(p) => p,
            Err(_) => vstd::pervasive::unreached(),
        }
    }

    /// Formats a level as its canonical spelling; the inverse of parsing.
    pub fn to_string(&self) -> (r: String)
        ensures
            r@ == self.spec_spelling(),
    {
        match self {
            TaskPriority::VeryLow => "VeryLow".to_owned(),
            TaskPriority::Low => "Low".to_owned(),
            TaskPriority::Medium => "Medium".to_owned(),
            TaskPriority::High => "High".to_owned(),
            TaskPriority::VeryHigh => "VeryHigh".to_owned(),
        }
    }

    /// Compares two levels; total, transitive, and `Equal` only between a
    /// level and itself.
    pub fn cmp(&self, other: &TaskPriority) -> (r: Ordering)
        ensures
            r == Ordering::Equal <==> self.rank() == other.rank(),
            r == Ordering::Less <==> self.rank() < other.rank(),
            r == Ordering::Greater <==> self.rank() > other.rank(),
            r == Ordering::Equal <==> *self == *other,
    {
        let a = self.rank_value();
        let b = other.rank_value();
        if a < b {
            Ordering::Less
        } else if a == b {
            Ordering::Equal
        } else {
            Ordering::Greater
        }
    }

    /// The rank of a level as a machine integer.
    fn rank_value(&self) -> (r: u8)
        ensures
            r == self.rank(),
    {
        match self {
            TaskPriority::VeryLow => 0,
            TaskPriority::Low => 1,
            TaskPriority::Medium => 2,
            TaskPriority::High => 3,
            TaskPriority::VeryHigh => 4,
        }
    }
}

/// Law: each level's canonical spelling parses back to that level, so
/// parsing and formatting round-trip on every level.
pub proof fn lemma_spelling_roundtrip(p: TaskPriority)
    ensures
        TaskPriority::spec_parse(p.spec_spelling()) == Some(p),
{
    reveal_strlit("VeryLow");
    reveal_strlit("Low");
    reveal_strlit("Medium");
    reveal_strlit("High");
    reveal_strlit("VeryHigh");
    assert("VeryLow"@.len() == 7);
    assert("Low"@.len() == 3);
    assert("Medium"@.len() == 6);
    assert("High"@.len() == 4);
    assert("VeryHigh"@.len() == 8);
    match p {
        TaskPriority::VeryLow => {
            assert(TaskPriority::spec_parse("VeryLow"@) == Some(TaskPriority::VeryLow));
        },
        TaskPriority::Low => {
            assert(TaskPriority::spec_parse("Low"@) == Some(TaskPriority::Low));
        },
        TaskPriority::Medium => {
            assert(TaskPriority::spec_parse("Medium"@) == Some(TaskPriority::Medium));
        },
        TaskPriority::High => {
            assert(TaskPriority::spec_parse("High"@) == Some(TaskPriority::High));
        },
        TaskPriority::VeryHigh => {
            assert(TaskPriority::spec_parse("VeryHigh"@) == Some(TaskPriority::VeryHigh));
        },
    }
}

/// Law: a text that parses to a level is that level's canonical spelling,
/// so formatting the parsed level returns the identical text.
pub proof fn lemma_parse_is_canonical(s: Seq<char>, p: TaskPriority)
    requires
        TaskPriority::spec_parse(s) == Some(p),
    ensures
        p.spec_spelling() == s,
{
    reveal_strlit("VeryLow");
    reveal_strlit("Low");
    reveal_strlit("Medium");
    reveal_strlit("High");
    reveal_strlit("VeryHigh");
}

} // verus!
