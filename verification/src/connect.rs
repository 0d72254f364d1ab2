//! The order in which a connection is made.
//!
//! A connection starts in the clear, is moved onto TLS and only then carries
//! the credentials of the user. The steps are performed from outside; which
//! one comes next, and how the connection ends, is decided here.

use vstd::prelude::*;

verus! {

/// How long a read from the server may take, in seconds. A session learns from
/// it that the server has fallen silent.
pub const READ_TIMEOUT_SECS: u64 = 3;

/// The steps of making a connection.
#[derive(Clone, Copy, Debug, PartialEq, Eq, Structural)]
pub enum ConnectStep {
    /// Find the address of the server.
    LookUpAddress,
    /// Open a stream to it.
    OpenStream,
    /// Bound the time of a read from the stream.
    SetReadTimeout,
    /// Find the client's own address.
    GetLocalAddress,
    /// Agree with the server on the protection of the connection.
    BeginConnection,
    /// Move the stream onto TLS.
    UpgradeToTls,
    /// Authenticate and finish the connection.
    FinalizeConnection,
}

/// How far a connection has come.
#[derive(Clone, Copy, Debug, PartialEq, Eq, Structural)]
pub enum ConnectState {
    /// This step is next.
    Pending(ConnectStep),
    /// The connection is made.
    Connected,
    /// The connection could not be made because of this step.
    Failed(ConnectStep),
}

/// The server has no address.
#[derive(Clone, Copy, Debug, PartialEq, Eq, Structural)]
pub struct AddressNotFound;

/// The steps in their order.
pub open spec fn connect_steps() -> Seq<ConnectStep> {
    seq![
        ConnectStep::LookUpAddress,
        ConnectStep::OpenStream,
        ConnectStep::SetReadTimeout,
        ConnectStep::GetLocalAddress,
        ConnectStep::BeginConnection,
        ConnectStep::UpgradeToTls,
        ConnectStep::FinalizeConnection,
    ]
}

/// The state of a connection of which the first `done` steps succeeded.
pub open spec fn connect_progress(done: nat) -> ConnectState {
    if done < connect_steps().len() {
        ConnectState::Pending(connect_steps()[done as int])
    } else {
        ConnectState::Connected
    }
}

/// How many steps precede this one.
pub open spec fn step_number(step: ConnectStep) -> nat {
    match step {
        ConnectStep::LookUpAddress => 0,
        ConnectStep::OpenStream => 1,
        ConnectStep::SetReadTimeout => 2,
        ConnectStep::GetLocalAddress => 3,
        ConnectStep::BeginConnection => 4,
        ConnectStep::UpgradeToTls => 5,
        ConnectStep::FinalizeConnection => 6,
    }
}

/// The state after a step was tried. An ended connection stays as it is.
pub open spec fn connect_next(state: ConnectState, succeeded: bool) -> ConnectState {
    match state {
        ConnectState::Pending(step) => if succeeded {
            connect_progress(step_number(step) + 1)
        } else {
            ConnectState::Failed(step)
        },
        _ => state,
    }
}

/// The state that the outcomes of steps lead to.
pub open spec fn connect_after(outcomes: Seq<bool>) -> ConnectState
    decreases outcomes.len(),
{
    if outcomes.len() == 0 {
        connect_progress(0)
    } else {
        connect_next(connect_after(outcomes.drop_last()), outcomes.last())
    }
}

impl ConnectStep {
    /// What an error of this step is reported as.
    pub fn context(self) -> (context: &'static str)
        ensures
            context@ == match self {
                ConnectStep::LookUpAddress => "lookup addr"@,
                ConnectStep::OpenStream => "TCP connect"@,
                ConnectStep::SetReadTimeout => "set_read_timeout call failed"@,
                ConnectStep::GetLocalAddress => "get socket local address"@,
                ConnectStep::BeginConnection => "begin connection"@,
                ConnectStep::UpgradeToTls => "TLS upgrade"@,
                ConnectStep::FinalizeConnection => "finalize connection"@,
            },
    {
        match self {
            ConnectStep::LookUpAddress => "lookup addr",
            ConnectStep::OpenStream => "TCP connect",
            ConnectStep::SetReadTimeout => "set_read_timeout call failed",
            ConnectStep::GetLocalAddress => "get socket local address",
            ConnectStep::BeginConnection => "begin connection",
            ConnectStep::UpgradeToTls => "TLS upgrade",
            ConnectStep::FinalizeConnection => "finalize connection",
        }
    }
}

impl ConnectState {
    /// A connection of which nothing is done yet.
    pub fn start() -> (state: ConnectState)
        ensures
            state == connect_progress(0),
    {
        ConnectState::Pending(ConnectStep::LookUpAddress)
    }

    /// The state after the pending step was tried.
    pub fn next(self, succeeded: bool) -> (state: ConnectState)
        ensures
            state == connect_next(self, succeeded),
    {
        match self {
            ConnectState::Pending(step) => if succeeded {
                match step {
                    ConnectStep::LookUpAddress => ConnectState::Pending(ConnectStep::OpenStream),
                    ConnectStep::OpenStream => ConnectState::Pending(ConnectStep::SetReadTimeout),
                    ConnectStep::SetReadTimeout => ConnectState::Pending(
                        ConnectStep::GetLocalAddress,
                    ),
                    ConnectStep::GetLocalAddress => ConnectState::Pending(
                        ConnectStep::BeginConnection,
                    ),
                    ConnectStep::BeginConnection => ConnectState::Pending(
                        ConnectStep::UpgradeToTls,
                    ),
                    ConnectStep::UpgradeToTls => ConnectState::Pending(
                        ConnectStep::FinalizeConnection,
                    ),
                    ConnectStep::FinalizeConnection => ConnectState::Connected,
                }
            } else {
                ConnectState::Failed(step)
            },
            ended => ended,
        }
    }
}

/// The address to connect to: the first of those that the lookup gave.
pub fn first_address<A: Copy>(addresses: &[A]) -> (address: Result<A, AddressNotFound>)
    ensures
        match address {
            Ok(address) => addresses@.len() > 0 && address == addresses@[0],
            Err(AddressNotFound) => addresses@.len() == 0,
        },
{
    if addresses.len() > 0 {
        Ok(addresses[0])
    } else {
        Err(AddressNotFound)
    }
}

/// The steps are performed one after the other, each once, and the first that
/// fails is the last.
pub proof fn law_steps_in_order(outcomes: Seq<bool>, done: nat)
    requires
        done <= outcomes.len(),
        forall|i: int| 0 <= i < done ==> #[trigger] outcomes[i],
        done < outcomes.len() ==> !outcomes[done as int],
    ensures
        connect_after(outcomes) == if done < outcomes.len() && done < connect_steps().len() {
            ConnectState::Failed(connect_steps()[done as int])
        } else {
            connect_progress(done)
        },
    decreases outcomes.len(),
{
    if outcomes.len() > 0 {
        let earlier = outcomes.drop_last();
        if done == outcomes.len() {
            law_steps_in_order(earlier, (done - 1) as nat);
        } else {
            law_steps_in_order(earlier, done);
        }
    }
}

/// Credentials are sent under TLS only: when the step that authenticates is
/// next, or the connection is made, the stream has been moved onto TLS, and
/// its reads have been bounded in time.
pub proof fn law_credentials_need_tls(outcomes: Seq<bool>)
    ensures
        connect_after(outcomes) == ConnectState::Pending(ConnectStep::FinalizeConnection)
            || connect_after(outcomes) == ConnectState::Connected || connect_after(outcomes)
            == ConnectState::Failed(ConnectStep::FinalizeConnection) ==> outcomes.len()
            > step_number(ConnectStep::UpgradeToTls) && outcomes[step_number(
            ConnectStep::UpgradeToTls,
        ) as int] && outcomes[step_number(ConnectStep::SetReadTimeout) as int],
{
    let done = successes(outcomes);
    lemma_successes(outcomes);
    law_steps_in_order(outcomes, done);
}

/// How many steps succeeded before the first that did not.
spec fn successes(outcomes: Seq<bool>) -> nat
    decreases outcomes.len(),
{
    if outcomes.len() == 0 || !outcomes[0] {
        0
    } else {
        1 + successes(outcomes.drop_first())
    }
}

/// The steps before that number succeeded, and the one with it did not.
proof fn lemma_successes(outcomes: Seq<bool>)
    ensures
        successes(outcomes) <= outcomes.len(),
        forall|i: int| 0 <= i < successes(outcomes) ==> #[trigger] outcomes[i],
        successes(outcomes) < outcomes.len() ==> !outcomes[successes(outcomes) as int],
    decreases outcomes.len(),
{
    if outcomes.len() > 0 && outcomes[0] {
        let rest = outcomes.drop_first();
        lemma_successes(rest);
        assert forall|i: int| 0 <= i < successes(outcomes) implies #[trigger] outcomes[i] by {
            if i > 0 {
                assert(rest[i - 1]);
            }
        }
    }
}

/// A connection starts with the lookup of the server.
pub proof fn law_connection_starts_with_lookup(state: ConnectState)
    requires
        call_ensures(ConnectState::start, (), state),
    ensures
        state == ConnectState::Pending(ConnectStep::LookUpAddress),
{
}

/// A step that succeeds is followed by the one that needs it, the last by the
/// connection. A step that fails ends the connection and is what it failed on.
/// A connection that has ended stays as it is.
pub proof fn law_next_step(state: ConnectState, succeeded: bool, next: ConnectState)
    requires
        call_ensures(ConnectState::next, (state, succeeded), next),
    ensures
        state matches ConnectState::Pending(step) ==> !succeeded ==> next == ConnectState::Failed(
            step,
        ),
        !(state is Pending) ==> next == state,
        succeeded ==> {
            &&& state == ConnectState::Pending(ConnectStep::LookUpAddress) ==> next
                == ConnectState::Pending(ConnectStep::OpenStream)
            &&& state == ConnectState::Pending(ConnectStep::OpenStream) ==> next
                == ConnectState::Pending(ConnectStep::SetReadTimeout)
            &&& state == ConnectState::Pending(ConnectStep::SetReadTimeout) ==> next
                == ConnectState::Pending(ConnectStep::GetLocalAddress)
            &&& state == ConnectState::Pending(ConnectStep::GetLocalAddress) ==> next
                == ConnectState::Pending(ConnectStep::BeginConnection)
            &&& state == ConnectState::Pending(ConnectStep::BeginConnection) ==> next
                == ConnectState::Pending(ConnectStep::UpgradeToTls)
            &&& state == ConnectState::Pending(ConnectStep::UpgradeToTls) ==> next
                == ConnectState::Pending(ConnectStep::FinalizeConnection)
            &&& state == ConnectState::Pending(ConnectStep::FinalizeConnection) ==> next
                == ConnectState::Connected
        },
{
}

/// The client connects to the first address that the lookup gave, however many
/// follow, and finds none only where the lookup gave none.
pub proof fn law_first_address<A: Copy>(addresses: &[A], address: Result<A, AddressNotFound>)
    requires
        call_ensures(first_address::<A>, (addresses,), address),
    ensures
        addresses@.len() == 0 ==> address is Err,
        addresses@.len() > 0 ==> address == Ok::<A, AddressNotFound>(addresses@[0]),
{
}

/// An error tells which step it comes from: no two steps are reported alike.
pub proof fn law_contexts_tell_steps_apart(
    left: ConnectStep,
    right: ConnectStep,
    left_context: &'static str,
    right_context: &'static str,
)
    requires
        call_ensures(ConnectStep::context, (left,), left_context),
        call_ensures(ConnectStep::context, (right,), right_context),
    ensures
        (left_context@ == right_context@) == (left == right),
{
    reveal_strlit("lookup addr");
    reveal_strlit("TCP connect");
    reveal_strlit("set_read_timeout call failed");
    reveal_strlit("get socket local address");
    reveal_strlit("begin connection");
    reveal_strlit("TLS upgrade");
    reveal_strlit("finalize connection");
    assert(left_context@ == right_context@ ==> left_context@[0] == right_context@[0]
        && left_context@[1] == right_context@[1] && left_context@.len() == right_context@.len());
}

} // verus!
