//! The lines that the service logs, and the level up to which it logs.

use vstd::prelude::*;
use vstd::string::StringExecFns;
use log::{LevelFilter, SetLoggerError};

verus! {

#[verifier::external_type_specification]
#[verifier::external_body]
pub struct ExLevelFilter(LevelFilter);

#[verifier::external_type_specification]
#[verifier::external_body]
pub struct ExSetLoggerError(SetLoggerError);

/// The line for a record: when it was made, how grave it is, where it comes
/// from and what it says.
pub open spec fn log_line(
    timestamp: Seq<char>,
    level: Seq<char>,
    target: Seq<char>,
    message: Seq<char>,
) -> Seq<char> {
    timestamp + " ["@ + level + "] ["@ + target + "] "@ + message
}

/// Lays out the line for a record.
pub fn format_log_line(timestamp: &str, level: &str, target: &str, message: &str) -> (line: String)
    ensures
        line@ == log_line(timestamp@, level@, target@, message@),
{
    let mut line = String::from_str(timestamp);
    line.append(" [");
    line.append(level);
    line.append("] [");
    line.append(target);
    line.append("] ");
    line.append(message);
    line
}

/// Calls `log::set_max_level`, which stores the level for the whole
/// process.
#[verifier::external_body]
fn set_max_level(filter: LevelFilter) {
    log::set_max_level(filter)
}

/// Finishes the set-up of logging once the process has tried to install its
/// logger. If the logger was installed, records up to `filter` are let
/// through from now on. If it was not, the level stays as it was and the
/// failure is handed back.
pub fn init_logging(filter: LevelFilter, installed: Result<(), SetLoggerError>) -> (result: Result<
    (),
    SetLoggerError,
>)
    ensures
        match installed {
            Ok(_) => result is Ok,
            Err(error) => result == Err::<(), SetLoggerError>(error),
        },
{
    match installed {
        Ok(()) => {
            set_max_level(filter);
            Ok(())
        },
        Err(error) => Err(error),
    }
}

} // verus!
