use vstd::prelude::*;

use crate::feed::Category;

verus! {

/// The validated configuration of one run. The two selection flags are
/// mutually exclusive: a value of this type never carries both.
#[derive(Clone, Copy, Debug, PartialEq, Eq, Structural)]
pub struct RunConfig {
    pub select_oldest: bool,
    pub select_newest: bool,
    pub category: Category,
}

impl RunConfig {
    pub open spec fn valid(self) -> bool {
        !(self.select_oldest && self.select_newest)
    }
}

/// Invalid command-line input: conflicting selection flags, or a category
/// name outside the allowed set.
#[derive(Clone, Copy, Debug, PartialEq, Eq, Structural)]
pub enum UsageError {
    ConflictingFlags,
    UnknownCategory,
}

/// Validate the raw command-line values into a `RunConfig`: the two
/// selection flags must not both be set, and the category name must denote
/// one of the six allowed categories (compared without regard to ASCII
/// case). The flag conflict is reported ahead of the category check.
pub fn parse_run_config(oldest: bool, newest: bool, category_name: &str) -> (r: Result<
    RunConfig,
    UsageError,
>)
    ensures
        r is Ok <==> (!(oldest && newest) && Category::spec_parse(category_name@) is Some),
        r matches Ok(c) ==> c.select_oldest == oldest && c.select_newest == newest
            && Some(c.category) == Category::spec_parse(category_name@) && c.valid(),
        r matches Err(e) ==> e == (if oldest && newest {
            UsageError::ConflictingFlags
        } else {
            UsageError::UnknownCategory
        }),
{
    if oldest && newest {
        return Err(UsageError::ConflictingFlags);
    }
    match Category::from_name(category_name) {
        Some(category) => Ok(RunConfig { select_oldest: oldest, select_newest: newest, category }),
        None => Err(UsageError::UnknownCategory),
    }
}

impl UsageError {
    /// The diagnostic for the error; for an unknown category it names the
    /// allowed set.
    pub fn message(&self) -> (r: &'static str)
        ensures
            *self == UsageError::ConflictingFlags ==> r@
                == "the oldest and newest flags cannot be combined"@,
            *self == UsageError::UnknownCategory ==> r@
                == "unknown event type: allowed values are all, selected, births, deaths, holidays, events"@,
    {
        match self {
            UsageError::ConflictingFlags => "the oldest and newest flags cannot be combined",
            UsageError::UnknownCategory => "unknown event type: allowed values are all, selected, births, deaths, holidays, events",
        }
    }
}

/// How one run ended; each variant maps to a fixed process exit status.
#[derive(Clone, Copy, Debug, PartialEq, Eq, Structural)]
pub enum RunOutcome {
    /// The pipeline ran to its end, whether or not a record was selected.
    Completed,
    /// Invalid command-line input; nothing else was attempted.
    UsageFailure,
    /// The request never produced a response (DNS, connection, TLS).
    TransportFailure,
    /// A response arrived with a non-2xx status: reported as a diagnostic
    /// but treated as "nothing to show", not as a process failure.
    HttpFailure,
    /// The response body was not the expected JSON shape.
    DecodeFailure,
}

pub open spec fn spec_exit_code(o: RunOutcome) -> int {
    match o {
        RunOutcome::Completed => 0,
        RunOutcome::UsageFailure => 2,
        RunOutcome::TransportFailure => 1,
        RunOutcome::HttpFailure => 0,
        RunOutcome::DecodeFailure => 1,
    }
}

/// The process exit status for an outcome. Only a completed run and the
/// non-2xx response end with status zero; usage, transport and decode
/// failures are fatal.
pub fn exit_code(o: &RunOutcome) -> (r: i32)
    ensures
        r == spec_exit_code(*o),
        (r == 0) <==> (*o == RunOutcome::Completed || *o == RunOutcome::HttpFailure),
{
    match o {
        RunOutcome::Completed => 0,
        RunOutcome::UsageFailure => 2,
        RunOutcome::TransportFailure => 1,
        RunOutcome::HttpFailure => 0,
        RunOutcome::DecodeFailure => 1,
    }
}

} // verus!
