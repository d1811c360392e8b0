//! The pipeline that brings a list of instructions onto the chain, as a
//! machine of states.
//!
//! The caller does the work that needs the network and the wallet: it
//! builds, signs, submits and polls. After each piece of work it hands the
//! result to `Pipeline::step`, which says what comes next, and how the
//! cycle ended where it has ended.
use crate::error::{ClientTransactionError, Error};
use crate::token_balance::TransactionMeta;
use vstd::prelude::*;

verus! {

/// The seconds to wait before the status of a transaction is asked for.
pub const POLL_INTERVAL_SECS: u64 = 2;

/// The seconds for which a submitted transaction is waited for.
pub const TX_VALIDITY_DURATION: u64 = 40;

/// How often the network is asked to send a submitted transaction again.
pub const SEND_MAX_RETRIES: usize = 20;

/// How many attempts one list of instructions gets, unless the caller says
/// otherwise.
pub const DEFAULT_MAX_ATTEMPTS: u32 = 10;

/// The signature that names a submitted transaction.
#[derive(Clone, Copy, Debug, PartialEq, Eq)]
pub struct Signature {
    pub bytes: [u8; 64],
}

/// Where the pipeline stands.
#[derive(Clone, Copy, Debug, PartialEq, Eq, Structural)]
pub enum Stage {
    /// The instructions are to be compiled into a message.
    Build,
    /// The message is to be signed.
    Sign,
    /// The signed transaction is to be sent.
    Submit,
    /// The status of the sent transaction is to be asked for.
    Poll,
    /// Nothing is left to do.
    Done,
}

/// How one cycle of submitting and confirming ended, with the signature of
/// its transaction.
#[derive(Debug, PartialEq, Eq)]
pub enum ExecutionOutcome {
    /// The transaction is on the chain and did what it should; with what
    /// the network records of it.
    Confirmed(Signature, TransactionMeta),
    /// The transaction is on the chain and a program rejected it; with the
    /// error of the program.
    Failed(Signature, String),
    /// No status was seen while the transaction was valid.
    TimedOut(Signature),
}

/// What one question for the status of a transaction brought.
#[derive(Debug, PartialEq, Eq)]
pub enum StatusLookup {
    /// The transaction is not known yet: the answer could not be read.
    Pending,
    /// The network did not answer.
    Unavailable,
    /// The transaction is known, without a record of what it did.
    MissingMeta,
    /// The transaction is known, with the record of what it did.
    Found(TransactionMeta),
}

/// What the caller reports to the pipeline.
#[derive(Debug, PartialEq, Eq)]
pub enum Event {
    /// The instructions were compiled into a message.
    Built,
    /// The message could not be made.
    BuildFailed(ClientTransactionError),
    /// The message was signed and the transaction is sane.
    Signed,
    /// The message could not be signed, or the transaction is not sane.
    SignFailed(ClientTransactionError),
    /// The network took the transaction, which has this signature.
    Submitted(Signature),
    /// The network did not take the transaction.
    SubmitFailed,
    /// The status was asked for, `elapsed_secs` seconds after the
    /// transaction was submitted.
    Status { lookup: StatusLookup, elapsed_secs: u64 },
}

/// What the caller is to do next.
#[derive(Clone, Copy, Debug, PartialEq, Eq, Structural)]
pub enum Action {
    /// Compile the instructions against the latest blockhash, with or
    /// without the lookup tables.
    Build { use_lookup_tables: bool },
    /// Sign the message with the wallet and check the transaction.
    Sign,
    /// Send the transaction, without a simulation first.
    Submit,
    /// Wait for `wait_secs` seconds, then ask for the status.
    Poll { wait_secs: u64 },
    /// Stop: the instructions are on the chain.
    Finish,
    /// Stop, with an error.
    Abort(Error),
}

/// The state of the pipeline for one list of instructions.
#[derive(Clone, Copy, Debug, PartialEq, Eq)]
pub struct Pipeline {
    pub stage: Stage,
    /// The number of the attempt that is under way, from zero.
    pub attempt: u32,
    /// How many attempts are made at most.
    pub max_attempts: u32,
    /// Whether there are lookup tables to compress the message with.
    pub has_lookup_tables: bool,
    /// The signature of the transaction of this attempt, once it is
    /// submitted.
    pub signature: Option<Signature>,
}

/// What a step of the pipeline gives back.
#[derive(Debug, PartialEq, Eq)]
pub struct Transition {
    pub state: Pipeline,
    /// How the cycle of submitting and confirming ended, where this step
    /// ends one.
    pub outcome: Option<ExecutionOutcome>,
    pub action: Action,
}

/// Whether an attempt compresses its message with the lookup tables: the
/// attempts with an even number do, where there are tables.
pub open spec fn uses_lookup_tables(attempt: u32, has_lookup_tables: bool) -> bool {
    has_lookup_tables && attempt % 2 == 0
}

/// The state in which nothing is left to do.
pub open spec fn stopped(state: Pipeline) -> Pipeline {
    Pipeline { stage: Stage::Done, ..state }
}

/// The step that stops the pipeline with an error.
pub open spec fn aborted(state: Pipeline, outcome: Option<ExecutionOutcome>, error: Error)
    -> Transition {
    Transition { state: stopped(state), outcome, action: Action::Abort(error) }
}

/// What follows a question for the status of the transaction with the
/// signature `signature`.
pub open spec fn after_lookup(
    state: Pipeline,
    signature: Signature,
    lookup: StatusLookup,
    elapsed_secs: u64,
) -> Transition {
    match lookup {
        StatusLookup::Found(meta) => match meta.err {
            None => Transition {
                state: stopped(state),
                outcome: Some(ExecutionOutcome::Confirmed(signature, meta)),
                action: Action::Finish,
            },
            Some(error) => aborted(
                state,
                Some(ExecutionOutcome::Failed(signature, error)),
                Error::TransactionError,
            ),
        },
        StatusLookup::MissingMeta => aborted(state, None, Error::TransactionError),
        StatusLookup::Unavailable => aborted(state, None, Error::RpcError),
        StatusLookup::Pending => if elapsed_secs <= TX_VALIDITY_DURATION {
            Transition {
                state: Pipeline { stage: Stage::Poll, ..state },
                outcome: None,
                action: Action::Poll { wait_secs: POLL_INTERVAL_SECS },
            }
        } else if state.attempt + 1 < state.max_attempts {
            Transition {
                state: Pipeline {
                    stage: Stage::Build,
                    attempt: (state.attempt + 1) as u32,
                    signature: None,
                    ..state
                },
                outcome: Some(ExecutionOutcome::TimedOut(signature)),
                action: Action::Build {
                    use_lookup_tables: uses_lookup_tables(
                        (state.attempt + 1) as u32,
                        state.has_lookup_tables,
                    ),
                },
            }
        } else {
            aborted(
                state,
                Some(ExecutionOutcome::TimedOut(signature)),
                Error::TransactionError,
            )
        },
    }
}

/// What follows a question for the status. A pipeline that holds no
/// signature has nothing to ask for, and stops.
pub open spec fn after_status(state: Pipeline, lookup: StatusLookup, elapsed_secs: u64)
    -> Transition {
    match state.signature {
        Some(signature) => after_lookup(state, signature, lookup, elapsed_secs),
        None => aborted(state, None, Error::TransactionError),
    }
}

/// What follows an event in a state. An event that does not answer the work
/// of the state stops the pipeline.
pub open spec fn transition(state: Pipeline, event: Event) -> Transition {
    match (state.stage, event) {
        (Stage::Build, Event::Built) => Transition {
            state: Pipeline { stage: Stage::Sign, ..state },
            outcome: None,
            action: Action::Sign,
        },
        (Stage::Build, Event::BuildFailed(e)) => aborted(
            state,
            None,
            Error::ClientTransactionError(e),
        ),
        (Stage::Sign, Event::Signed) => Transition {
            state: Pipeline { stage: Stage::Submit, ..state },
            outcome: None,
            action: Action::Submit,
        },
        (Stage::Sign, Event::SignFailed(e)) => aborted(
            state,
            None,
            Error::ClientTransactionError(e),
        ),
        (Stage::Submit, Event::Submitted(signature)) => Transition {
            state: Pipeline { stage: Stage::Poll, signature: Some(signature), ..state },
            outcome: None,
            action: Action::Poll { wait_secs: POLL_INTERVAL_SECS },
        },
        (Stage::Submit, Event::SubmitFailed) => aborted(state, None, Error::RpcError),
        (Stage::Poll, Event::Status { lookup, elapsed_secs }) => after_status(
            state,
            lookup,
            elapsed_secs,
        ),
        _ => aborted(state, None, Error::TransactionError),
    }
}

/// Whether attempt `attempt` compresses its message with the lookup tables.
pub fn use_lookup_tables(attempt: u32, has_lookup_tables: bool) -> (r: bool)
    ensures
        r == uses_lookup_tables(attempt, has_lookup_tables),
{
    has_lookup_tables && attempt % 2 == 0
}

impl Pipeline {
    /// A pipeline before its first attempt, and the first thing to do.
    pub fn start(max_attempts: u32, has_lookup_tables: bool) -> (r: Transition)
        ensures
            r.state == (Pipeline {
                stage: Stage::Build,
                attempt: 0,
                max_attempts,
                has_lookup_tables,
                signature: None,
            }),
            r.outcome is None,
            r.action == (Action::Build { use_lookup_tables: has_lookup_tables }),
    {
        Transition {
            state: Pipeline {
                stage: Stage::Build,
                attempt: 0,
                max_attempts,
                has_lookup_tables,
                signature: None,
            },
            outcome: None,
            action: Action::Build { use_lookup_tables: use_lookup_tables(0, has_lookup_tables) },
        }
    }

    /// Whether nothing is left to do.
    pub fn is_done(&self) -> (r: bool)
        ensures
            r == (self.stage == Stage::Done),
    {
        match self.stage {
            Stage::Done => true,
            _ => false,
        }
    }

    fn stop(&self, outcome: Option<ExecutionOutcome>, error: Error) -> (r: Transition)
        ensures
            r == aborted(*self, outcome, error),
    {
        Transition {
            state: Pipeline {
                stage: Stage::Done,
                attempt: self.attempt,
                max_attempts: self.max_attempts,
                has_lookup_tables: self.has_lookup_tables,
                signature: self.signature,
            },
            outcome,
            action: Action::Abort(error),
        }
    }

    fn advance(&self, stage: Stage, action: Action) -> (r: Transition)
        ensures
            r == (Transition { state: Pipeline { stage, ..*self }, outcome: None, action }),
    {
        Transition {
            state: Pipeline {
                stage,
                attempt: self.attempt,
                max_attempts: self.max_attempts,
                has_lookup_tables: self.has_lookup_tables,
                signature: self.signature,
            },
            outcome: None,
            action,
        }
    }

    /// Takes the result of the last piece of work and says what comes next.
    pub fn step(&self, event: Event) -> (r: Transition)
        ensures
            r == transition(*self, event),
    {
        match self.stage {
            Stage::Build => match event {
                Event::Built => self.advance(Stage::Sign, Action::Sign),
                Event::BuildFailed(e) => self.stop(None, Error::ClientTransactionError(e)),
                _ => self.stop(None, Error::TransactionError),
            },
            Stage::Sign => match event {
                Event::Signed => self.advance(Stage::Submit, Action::Submit),
                Event::SignFailed(e) => self.stop(None, Error::ClientTransactionError(e)),
                _ => self.stop(None, Error::TransactionError),
            },
            Stage::Submit => match event {
                Event::Submitted(signature) => Transition {
                    state: Pipeline {
                        stage: Stage::Poll,
                        attempt: self.attempt,
                        max_attempts: self.max_attempts,
                        has_lookup_tables: self.has_lookup_tables,
                        signature: Some(signature),
                    },
                    outcome: None,
                    action: Action::Poll { wait_secs: POLL_INTERVAL_SECS },
                },
                Event::SubmitFailed => self.stop(None, Error::RpcError),
                _ => self.stop(None, Error::TransactionError),
            },
            Stage::Poll => match event {
                Event::Status { lookup, elapsed_secs } => self.on_status(lookup, elapsed_secs),
                _ => self.stop(None, Error::TransactionError),
            },
            Stage::Done => self.stop(None, Error::TransactionError),
        }
    }

    /// What follows a question for the status of the submitted transaction:
    /// a record without an error confirms it, a record with an error fails
    /// it, and a status that stays unknown beyond the validity of the
    /// transaction times it out.
    pub fn on_status(&self, lookup: StatusLookup, elapsed_secs: u64) -> (r: Transition)
        ensures
            r == after_status(*self, lookup, elapsed_secs),
    {
        let signature: Signature = match self.signature {
            Some(s) => s,
            None => {
                return self.stop(None, Error::TransactionError);
            },
        };
        match lookup {
            StatusLookup::Found(meta) => {
                if meta.err.is_some() {
                    let error: String = meta.err.unwrap();
                    self.stop(
                        Some(ExecutionOutcome::Failed(signature, error)),
                        Error::TransactionError,
                    )
                } else {
                    Transition {
                        state: Pipeline {
                            stage: Stage::Done,
                            attempt: self.attempt,
                            max_attempts: self.max_attempts,
                            has_lookup_tables: self.has_lookup_tables,
                            signature: self.signature,
                        },
                        outcome: Some(ExecutionOutcome::Confirmed(signature, meta)),
                        action: Action::Finish,
                    }
                }
            },
            StatusLookup::MissingMeta => self.stop(None, Error::TransactionError),
            StatusLookup::Unavailable => self.stop(None, Error::RpcError),
            StatusLookup::Pending => {
                if elapsed_secs <= TX_VALIDITY_DURATION {
                    self.advance(Stage::Poll, Action::Poll { wait_secs: POLL_INTERVAL_SECS })
                } else if self.attempt < u32::MAX && self.attempt + 1 < self.max_attempts {
                    let next: u32 = self.attempt + 1;
                    Transition {
                        state: Pipeline {
                            stage: Stage::Build,
                            attempt: next,
                            max_attempts: self.max_attempts,
                            has_lookup_tables: self.has_lookup_tables,
                            signature: None,
                        },
                        outcome: Some(ExecutionOutcome::TimedOut(signature)),
                        action: Action::Build {
                            use_lookup_tables: use_lookup_tables(next, self.has_lookup_tables),
                        },
                    }
                } else {
                    self.stop(
                        Some(ExecutionOutcome::TimedOut(signature)),
                        Error::TransactionError,
                    )
                }
            },
        }
    }
}

/// An attempt that follows one with lookup tables does without them.
pub proof fn lemma_lookup_tables_alternate(attempt: u32, has_lookup_tables: bool)
    requires
        attempt < u32::MAX,
    ensures
        uses_lookup_tables(attempt, has_lookup_tables) ==> !uses_lookup_tables(
            (attempt + 1) as u32,
            has_lookup_tables,
        ),
        has_lookup_tables && !uses_lookup_tables(attempt, has_lookup_tables)
            ==> uses_lookup_tables((attempt + 1) as u32, has_lookup_tables),
{
}

/// A transaction whose status stays unknown beyond its validity ends its
/// cycle as timed out, under its signature. Where attempts are left, the
/// next one is built, and without the lookup tables if this one had them.
pub proof fn lemma_timeout_rebuilds(state: Pipeline, signature: Signature, elapsed_secs: u64)
    requires
        state.stage == Stage::Poll,
        state.signature == Some(signature),
        elapsed_secs > TX_VALIDITY_DURATION,
    ensures
        transition(
            state,
            Event::Status { lookup: StatusLookup::Pending, elapsed_secs },
        ).outcome == Some(ExecutionOutcome::TimedOut(signature)),
        state.attempt + 1 < state.max_attempts ==> {
            let next = transition(
                state,
                Event::Status { lookup: StatusLookup::Pending, elapsed_secs },
            );
            &&& next.state.stage == Stage::Build
            &&& next.state.attempt == state.attempt + 1
            &&& next.action == (Action::Build {
                use_lookup_tables: uses_lookup_tables(next.state.attempt, state.has_lookup_tables),
            })
            &&& uses_lookup_tables(state.attempt, state.has_lookup_tables)
                ==> next.action == (Action::Build { use_lookup_tables: false })
        },
        state.attempt + 1 >= state.max_attempts ==> transition(
            state,
            Event::Status { lookup: StatusLookup::Pending, elapsed_secs },
        ).state.stage == Stage::Done,
{
}

/// Every outcome carries the signature under which the transaction was
/// submitted.
pub proof fn lemma_outcome_carries_signature(state: Pipeline, event: Event)
    requires
        transition(state, event).outcome is Some,
    ensures
        state.signature is Some,
        match transition(state, event).outcome.unwrap() {
            ExecutionOutcome::Confirmed(signature, _) => state.signature == Some(signature),
            ExecutionOutcome::Failed(signature, _) => state.signature == Some(signature),
            ExecutionOutcome::TimedOut(signature) => state.signature == Some(signature),
        },
{
}

/// A step never lowers the number of the attempt, changes neither the bound
/// nor the tables, and leaves a stopped pipeline stopped.
pub proof fn lemma_step_keeps_bounds(state: Pipeline, event: Event)
    ensures
        transition(state, event).state.attempt >= state.attempt,
        transition(state, event).state.attempt <= state.attempt + 1,
        transition(state, event).state.max_attempts == state.max_attempts,
        transition(state, event).state.has_lookup_tables == state.has_lookup_tables,
        state.attempt < state.max_attempts ==> transition(state, event).state.attempt
            < state.max_attempts,
        state.stage == Stage::Done ==> transition(state, event).state.stage == Stage::Done,
{
}

} // verus!
