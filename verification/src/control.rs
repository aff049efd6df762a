//! Reset requests from the consumer side.

use vstd::prelude::*;
use std::sync::mpsc::Sender;
use crate::config::Config;
use crate::processor::{reset_targets, target_of, Command};

verus! {

/// The sending half of the command channel. Opaque here: commands are only
/// handed to it.
#[verifier::external_type_specification]
#[verifier::external_body]
#[verifier::reject_recursive_types(T)]
pub struct ExCommandSender<T>(std::sync::mpsc::Sender<T>);

/// Why a reset request failed.
#[derive(Clone, Copy, Debug, PartialEq, Eq, Structural)]
pub enum ResetError {
    /// No bus of that name is configured.
    NotFound,
    /// The processor is gone, so the command could not be delivered.
    Undelivered,
}

/// The status code that answers an accepted request.
pub const STATUS_OK: u16 = 200;

/// The status code that answers a request for an unknown bus.
pub const STATUS_NOT_FOUND: u16 = 404;

/// The status code that answers a request that could not be delivered.
pub const STATUS_INTERNAL_SERVER_ERROR: u16 = 500;

/// How a reset request ends, given whether the bus is configured and whether
/// the command was delivered. An unknown bus is refused before anything is
/// sent.
pub open spec fn outcome_of(known: bool, delivered: bool) -> Result<(), ResetError> {
    if !known {
        Err(ResetError::NotFound)
    } else if !delivered {
        Err(ResetError::Undelivered)
    } else {
        Ok(())
    }
}

/// The status code that answers a reset request.
pub open spec fn status_of(outcome: Result<(), ResetError>) -> u16 {
    match outcome {
        Ok(()) => STATUS_OK,
        Err(ResetError::NotFound) => STATUS_NOT_FOUND,
        Err(ResetError::Undelivered) => STATUS_INTERNAL_SERVER_ERROR,
    }
}

/// How a reset request ends, given whether the bus is configured and whether
/// the command was delivered.
pub fn reset_outcome(known: bool, delivered: bool) -> (outcome: Result<(), ResetError>)
    ensures
        outcome == outcome_of(known, delivered),
{
    if !known {
        Err(ResetError::NotFound)
    } else if !delivered {
        Err(ResetError::Undelivered)
    } else {
        Ok(())
    }
}

/// The status code that answers a reset request.
pub fn reset_status(outcome: Result<(), ResetError>) -> (status: u16)
    ensures
        status == status_of(outcome),
{
    match outcome {
        Ok(()) => STATUS_OK,
        Err(ResetError::NotFound) => STATUS_NOT_FOUND,
        Err(ResetError::Undelivered) => STATUS_INTERNAL_SERVER_ERROR,
    }
}

/// The command that asks the processor to reset the bus `input`.
pub fn reset_command(input: String) -> (command: Command)
    ensures
        command == (Command::Reset { input }),
{
    Command::Reset { input }
}

/// Calls `std::sync::mpsc::Sender::send`, which never blocks, and says
/// whether the command was taken. Trusted; nothing is claimed of the result,
/// which depends on whether the receiving half still exists.
#[verifier::external_body]
fn deliver(sender: &Sender<Command>, command: Command) -> (delivered: bool) {
    sender.send(command).is_ok()
}

/// Asks for a reset of the bus `input`. A bus that is not configured is
/// refused and nothing is sent. For a configured bus the reset command is
/// handed to the command channel once; the request fails if the channel
/// does not take it.
pub fn request_reset(config: &Config, sender: &Sender<Command>, input: String) -> (outcome: Result<
    (),
    ResetError,
>)
    requires
        config.inputs.wf(),
    ensures
        !config.inputs.names().contains(input@) ==> outcome == Err::<(), ResetError>(
            ResetError::NotFound,
        ),
        config.inputs.names().contains(input@) ==> outcome == outcome_of(true, true) || outcome
            == outcome_of(true, false),
{
    if config.has_input(&input) {
        let delivered: bool = deliver(sender, reset_command(input));
        reset_outcome(true, delivered)
    } else {
        reset_outcome(false, false)
    }
}

/// A bus name that is not configured meets two answers. A request for its
/// reset fails as not found, whether or not the channel would have taken a
/// command. A reset command that reaches the processor all the same addresses
/// no bus, so the processor resets nothing.
pub proof fn lemma_unknown_bus_refused_and_ignored(
    names: Seq<Seq<char>>,
    input: String,
    delivered: bool,
)
    requires
        !names.contains(input@),
    ensures
        outcome_of(names.contains(input@), delivered) == Err::<(), ResetError>(
            ResetError::NotFound,
        ),
        target_of(names, Command::Reset { input }).is_none(),
        reset_targets(names, seq![Command::Reset { input }]) == Seq::<usize>::empty(),
{
    let commands = seq![Command::Reset { input }];
    assert(commands.drop_last() =~= Seq::<Command>::empty());
    assert(commands.last() == Command::Reset { input });
    assert(reset_targets(names, commands.drop_last()) == Seq::<usize>::empty());
}

} // verus!
