use vstd::prelude::*;
use crate::error::UserInputError;

verus! {

/// What a run does: crawl the team afresh, or read the existing snapshot.
pub enum RunMode {
    Build { team: String },
    Load,
}

/// True when `r` is a `MissingArgument` error naming the option `name`.
pub open spec fn is_missing(r: Result<RunMode, UserInputError>, name: Seq<char>) -> bool {
    match r {
        Err(UserInputError::MissingArgument { arg }) => arg@ == name,
        _ => false,
    }
}

/// Chooses the run mode from the configuration.
///
/// An empty snapshot path is refused first, whatever else is set. A crawl is
/// made when `update` is set or no snapshot exists yet; it needs the team.
/// Otherwise the snapshot is loaded and nothing goes over the network.
pub fn plan_run(database: &str, team: Option<String>, update: bool, snapshot_exists: bool) -> (r:
    Result<RunMode, UserInputError>)
    ensures
        database@.len() == 0 ==> is_missing(r, "database"@),
        database@.len() != 0 && (update || !snapshot_exists) && team is None ==> is_missing(
            r,
            "team"@,
        ),
        database@.len() != 0 && (update || !snapshot_exists) && team is Some ==> (match r {
            Ok(RunMode::Build { team: t }) => t@ == team->Some_0@,
            _ => false,
        }),
        database@.len() != 0 && !update && snapshot_exists ==> (r matches Ok(RunMode::Load)),
{
    if database.is_empty() {
        return Err(UserInputError::MissingArgument { arg: String::from_str("database") });
    }
    if update || !snapshot_exists {
        match team {
            Some(t) => Ok(RunMode::Build { team: t }),
            None => Err(UserInputError::MissingArgument { arg: String::from_str("team") }),
        }
    } else {
        Ok(RunMode::Load)
    }
}

} // verus!
