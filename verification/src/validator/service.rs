//! The caller's side of the validator worker.

use vstd::prelude::*;
use crate::network::identity::ValidatorId;
use crate::bytes::bytes_to_vec;
use crate::validator::command::Command;
use crate::validator::worker::{SetupError, Worker};

verus! {

/// How many commands may wait for the worker before a caller has to wait.
pub const COMMAND_QUEUE_CAPACITY: usize = 8;

/// The caller's side of the validator worker: it turns each operation into
/// the command that is sent to the worker.
#[derive(Clone, Copy, Debug)]
pub struct Service;

impl Service {
    /// A handle on the validator worker.
    pub fn new() -> Self {
        Service
    }

    /// The command that starts a key rotation.
    pub fn rotate_key<R>(&self, sender: R) -> (command: Command<R>)
        ensures
            command == (Command::RotateKey { sender }),
    {
        Command::RotateKey { sender }
    }

    /// The command that starts signing `message`.
    pub fn start_signing<R>(&self, message: &[u8], sender: R) -> (command: Command<R>)
        ensures
            command matches Command::Sign { message: payload, sender: handle } && payload@
                == message@ && handle == sender,
    {
        Command::Sign { message: bytes_to_vec(message), sender }
    }

    /// The command that configures the protocol with `nt`.
    pub fn setup<R>(&self, nt: (u16, u16), sender: R) -> (command: Command<R>)
        ensures
            command == (Command::Setup { nt, sender }),
    {
        Command::Setup { nt, sender }
    }

    /// The command that removes validators from the network.
    pub fn remove_validators<R>(&self, validators: Vec<ValidatorId>, sender: R) -> (command:
        Command<R>)
        ensures
            command == (Command::RemoveValidators { validators, sender }),
    {
        Command::RemoveValidators { validators, sender }
    }

    /// The command that adds validators to the network.
    pub fn add_validators<R>(&self, validators: Vec<ValidatorId>, sender: R) -> (command: Command<
        R,
    >)
        ensures
            command == (Command::AddValidators { validators, sender }),
    {
        Command::AddValidators { validators, sender }
    }
}

/// Whether `pair` is what setting up the coordination layer of the validator
/// `key` gives where keys are displayed in the address format `format`: a
/// service together with the worker that [`Worker::made_for`] describes, or
/// the error of setting up that worker.
pub open spec fn pair_made_for<R>(
    pair: Result<(Service, Worker<R>), SetupError>,
    key: Seq<u8>,
    format: u16,
) -> bool {
    match pair {
        Ok(made) => Worker::made_for(Ok(made.1), key, format),
        Err(error) => Worker::<R>::made_for(Err(error), key, format),
    }
}

/// Creates the two sides of a validator's coordination layer: the service
/// that callers use and the worker that reacts, with both of its slots empty.
/// The worker takes part under the identifier derived from the text that
/// displays the validator's key, in the address format that the process has
/// selected. Fails where the worker cannot be set up.
pub fn new_validator_network_service<R>(validator_id: ValidatorId) -> (pair: Result<
    (Service, Worker<R>),
    SetupError,
>)
    ensures
        exists|format: u16| #[trigger] pair_made_for(pair, validator_id@, format),
{
    let worker = Worker::new(validator_id);
    let ghost format = choose|format: u16| #[trigger]
        Worker::made_for(worker, validator_id@, format);
    let pair = match worker {
        Ok(worker) => Ok((Service::new(), worker)),
        Err(error) => Err(error),
    };
    assert(pair_made_for(pair, validator_id@, format));
    pair
}

} // verus!
