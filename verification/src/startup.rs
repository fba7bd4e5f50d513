//! The order of the service's start-up steps. Each step is work on the
//! environment or the store; the caller performs it and reports how it went.
use vstd::prelude::*;

verus! {

/// How many connections to the store the service keeps at most.
pub const POOL_SIZE: u32 = 5;

/// The port on which the service listens.
pub const LISTEN_PORT: u16 = 8080;

/// The text of [`listen_host`].
pub open spec fn listen_host_text() -> Seq<char> {
    "127.0.0.1"@
}

/// The address on which the service listens: the loopback address.
pub fn listen_host() -> (host: &'static str)
    ensures
        host@ == listen_host_text(),
{
    "127.0.0.1"
}

/// Why the service did not start.
#[derive(Clone, Copy, Debug, PartialEq, Eq, Structural)]
pub enum StartupError {
    /// No connection string was configured.
    MissingConfiguration,
    /// The store could not be reached.
    StoreUnreachable,
    /// The store could not be made to generate identifiers.
    IdentifierSupportFailed,
    /// The message table could not be created.
    TableCreationFailed,
}

/// Where the start-up stands: the step to perform next, or how it ended.
#[derive(Clone, Copy, Debug, PartialEq, Eq, Structural)]
pub enum StartupState {
    /// Read the connection string from the configuration.
    ReadConfiguration,
    /// Open the pool of connections to the store.
    ConnectStore,
    /// Make sure that the store can generate identifiers.
    EnableIdentifiers,
    /// Make sure that the message table exists.
    CreateTable,
    /// Everything is in place: bind the port and serve.
    Serve,
    /// A step failed: the service must not serve.
    Failed(StartupError),
}

/// The state that follows `state` when its step went as `succeeded` says.
/// A failure is final, and so is `Serve`.
pub open spec fn next_state(state: StartupState, succeeded: bool) -> StartupState {
    match state {
        StartupState::ReadConfiguration => if succeeded {
            StartupState::ConnectStore
        } else {
            StartupState::Failed(StartupError::MissingConfiguration)
        },
        StartupState::ConnectStore => if succeeded {
            StartupState::EnableIdentifiers
        } else {
            StartupState::Failed(StartupError::StoreUnreachable)
        },
        StartupState::EnableIdentifiers => if succeeded {
            StartupState::CreateTable
        } else {
            StartupState::Failed(StartupError::IdentifierSupportFailed)
        },
        StartupState::CreateTable => if succeeded {
            StartupState::Serve
        } else {
            StartupState::Failed(StartupError::TableCreationFailed)
        },
        StartupState::Serve => StartupState::Serve,
        StartupState::Failed(error) => StartupState::Failed(error),
    }
}

/// The state reached from `state` when the steps went as `outcomes` says,
/// one after the other.
pub open spec fn state_after(state: StartupState, outcomes: Seq<bool>) -> StartupState
    decreases outcomes.len(),
{
    if outcomes.len() == 0 {
        state
    } else {
        state_after(next_state(state, outcomes[0]), outcomes.skip(1))
    }
}

impl StartupState {
    /// The state in which every start-up begins.
    pub fn initial() -> (state: StartupState)
        ensures
            state == StartupState::ReadConfiguration,
    {
        StartupState::ReadConfiguration
    }

    /// Takes the report on the step that `self` names and gives the state
    /// that follows.
    pub fn advance(self, succeeded: bool) -> (state: StartupState)
        ensures
            state == next_state(self, succeeded),
    {
        match self {
            StartupState::ReadConfiguration => if succeeded {
                StartupState::ConnectStore
            } else {
                StartupState::Failed(StartupError::MissingConfiguration)
            },
            StartupState::ConnectStore => if succeeded {
                StartupState::EnableIdentifiers
            } else {
                StartupState::Failed(StartupError::StoreUnreachable)
            },
            StartupState::EnableIdentifiers => if succeeded {
                StartupState::CreateTable
            } else {
                StartupState::Failed(StartupError::IdentifierSupportFailed)
            },
            StartupState::CreateTable => if succeeded {
                StartupState::Serve
            } else {
                StartupState::Failed(StartupError::TableCreationFailed)
            },
            StartupState::Serve => StartupState::Serve,
            StartupState::Failed(error) => StartupState::Failed(error),
        }
    }
}

impl StartupError {
    /// What the operator reads when the start-up ends with this error.
    pub open spec fn text(self) -> Seq<char> {
        match self {
            StartupError::MissingConfiguration => "DATABASE_URL必須設定"@,
            StartupError::StoreUnreachable => "無法連接到資料庫"@,
            StartupError::IdentifierSupportFailed => "無法啟用 pgcrypto 擴展"@,
            StartupError::TableCreationFailed => "無法創建 customer_messages 資料表"@,
        }
    }

    /// What the operator reads when the start-up ends with this error.
    pub fn describe(&self) -> (text: &'static str)
        ensures
            text@ == self.text(),
    {
        match self {
            StartupError::MissingConfiguration => "DATABASE_URL必須設定",
            StartupError::StoreUnreachable => "無法連接到資料庫",
            StartupError::IdentifierSupportFailed => "無法啟用 pgcrypto 擴展",
            StartupError::TableCreationFailed => "無法創建 customer_messages 資料表",
        }
    }
}

/// Once the start-up has ended, in `Serve` or in a failure, no report
/// changes its state.
pub proof fn lemma_end_is_final(state: StartupState, outcomes: Seq<bool>)
    requires
        state == StartupState::Serve || state is Failed,
    ensures
        state_after(state, outcomes) == state,
    decreases outcomes.len(),
{
    if outcomes.len() > 0 {
        lemma_end_is_final(state, outcomes.skip(1));
    }
}

/// The service serves if and only if the connection string was read, the
/// store was reached, identifier generation was confirmed and the table was
/// created, each with success and in that order.
pub proof fn lemma_serves_only_after_every_step(outcomes: Seq<bool>)
    ensures
        state_after(StartupState::ReadConfiguration, outcomes) == StartupState::Serve <==> (
        outcomes.len() >= 4 && outcomes[0] && outcomes[1] && outcomes[2] && outcomes[3]),
{
    reveal_with_fuel(state_after, 5);
    if outcomes.len() > 0 {
        let second = outcomes.skip(1);
        let after_first = next_state(StartupState::ReadConfiguration, outcomes[0]);
        if !outcomes[0] {
            lemma_end_is_final(after_first, second);
        } else if second.len() > 0 {
            let third = second.skip(1);
            let after_second = next_state(after_first, second[0]);
            if !second[0] {
                lemma_end_is_final(after_second, third);
            } else if third.len() > 0 {
                let fourth = third.skip(1);
                let after_third = next_state(after_second, third[0]);
                if !third[0] {
                    lemma_end_is_final(after_third, fourth);
                } else if fourth.len() > 0 {
                    lemma_end_is_final(next_state(after_third, fourth[0]), fourth.skip(1));
                }
            }
        }
    }
}

/// A failed step ends the start-up at that step's own error, whatever is
/// reported afterwards.
pub proof fn lemma_failure_is_fatal(state: StartupState, outcomes: Seq<bool>)
    requires
        outcomes.len() > 0,
        !outcomes[0],
        state != StartupState::Serve,
    ensures
        state_after(state, outcomes) is Failed,
        state_after(state, outcomes) == next_state(state, false),
{
    lemma_end_is_final(next_state(state, false), outcomes.skip(1));
}

} // verus!
