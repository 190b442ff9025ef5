//! The broker side: accepting QUIC connections from clients and the
//! bidirectional stream that carries MQTT over each.
//!
//! Accepting a client takes three outside steps, in this order: wait for an
//! incoming connection on the listening endpoint (noting the client's
//! address), wait for its handshake, then accept its bidirectional stream.
//! The decisions between them stand here as a state machine; the caller
//! performs each [`AcceptAction`] and reports how it went as an
//! [`AcceptOutcome`].

use vstd::prelude::*;

verus! {

/// Why the broker could not listen, or could not accept a client.
pub enum Error {
    /// The listening endpoint could not be bound.
    Io(std::io::Error),
    /// The connection failed during the handshake or while opening the stream.
    Connection(quinn::ConnectionError),
    /// The endpoint yields no more incoming connections.
    NoIncoming,
}

/// Where the acceptance of a client stands.
#[derive(Clone, Copy, Debug, PartialEq, Eq, Structural)]
pub enum AcceptPhase {
    /// Waiting for an incoming connection.
    Waiting,
    /// The QUIC handshake is under way.
    Handshaking,
    /// The bidirectional stream is being accepted.
    OpeningStreams,
    /// The client's transport is ready.
    Accepted,
    /// The acceptance failed.
    Failed,
}

/// How the step last asked for went.
pub enum AcceptOutcome {
    /// It succeeded.
    Done,
    /// The endpoint yielded no incoming connection.
    Closed,
    /// The connection failed.
    Lost(quinn::ConnectionError),
}

/// What the caller does next.
pub enum AcceptAction {
    /// Wait for the endpoint's next incoming connection.
    AwaitIncoming,
    /// Note the client's address, then wait for the handshake.
    AwaitHandshake,
    /// Accept the bidirectional stream of the connection.
    AcceptStreams,
    /// Hand out the network made of the accepted stream pair, with the
    /// client's address and the tenant that the client belongs to, if known.
    Finish { tenant_id: Option<String> },
    /// Give up with this error.
    Fail(Error),
    /// Nothing: the acceptance is over.
    Nothing,
}

impl AcceptPhase {
    /// The acceptance is over, one way or the other.
    pub open spec fn is_over(self) -> bool {
        self == AcceptPhase::Accepted || self == AcceptPhase::Failed
    }

    /// The phase that follows a successful step.
    pub open spec fn advanced(self) -> AcceptPhase {
        match self {
            AcceptPhase::Waiting => AcceptPhase::Handshaking,
            AcceptPhase::Handshaking => AcceptPhase::OpeningStreams,
            AcceptPhase::OpeningStreams => AcceptPhase::Accepted,
            other => other,
        }
    }

    /// The work that a phase asks of the caller. No tenant is ever identified
    /// from the client's certificate.
    pub open spec fn work(self) -> AcceptAction {
        match self {
            AcceptPhase::Waiting => AcceptAction::AwaitIncoming,
            AcceptPhase::Handshaking => AcceptAction::AwaitHandshake,
            AcceptPhase::OpeningStreams => AcceptAction::AcceptStreams,
            AcceptPhase::Accepted => AcceptAction::Finish { tenant_id: None },
            AcceptPhase::Failed => AcceptAction::Nothing,
        }
    }

    /// The phase and action after `outcome` is reported in `self`: a finished
    /// acceptance stays as it is; a success moves on by one phase; a failure
    /// ends the acceptance with the error that names its cause.
    pub open spec fn after(self, outcome: AcceptOutcome) -> (AcceptPhase, AcceptAction) {
        if self.is_over() {
            (self, AcceptAction::Nothing)
        } else {
            match outcome {
                AcceptOutcome::Done => (self.advanced(), self.advanced().work()),
                AcceptOutcome::Closed => (AcceptPhase::Failed, AcceptAction::Fail(Error::NoIncoming)),
                AcceptOutcome::Lost(e) => (AcceptPhase::Failed, AcceptAction::Fail(Error::Connection(e))),
            }
        }
    }

    /// A new acceptance: it starts by waiting for an incoming connection.
    pub fn start() -> (res: (AcceptPhase, AcceptAction))
        ensures
            res.0 == AcceptPhase::Waiting,
            res.1 == AcceptPhase::Waiting.work(),
    {
        (AcceptPhase::Waiting, AcceptAction::AwaitIncoming)
    }

    /// Takes in how the last step went and says what comes next.
    pub fn step(self, outcome: AcceptOutcome) -> (res: (AcceptPhase, AcceptAction))
        ensures
            res == self.after(outcome),
    {
        match self {
            AcceptPhase::Accepted | AcceptPhase::Failed => (self, AcceptAction::Nothing),
            _ => match outcome {
                AcceptOutcome::Done => match self {
                    AcceptPhase::Waiting => (AcceptPhase::Handshaking, AcceptAction::AwaitHandshake),
                    AcceptPhase::Handshaking => (AcceptPhase::OpeningStreams, AcceptAction::AcceptStreams),
                    _ => (AcceptPhase::Accepted, AcceptAction::Finish { tenant_id: None }),
                },
                AcceptOutcome::Closed => (AcceptPhase::Failed, AcceptAction::Fail(Error::NoIncoming)),
                AcceptOutcome::Lost(e) => (AcceptPhase::Failed, AcceptAction::Fail(Error::Connection(e))),
            },
        }
    }
}

/// The phase that a new acceptance reaches once the outcomes `os` have been
/// reported, in order.
pub open spec fn phase_after(os: Seq<AcceptOutcome>) -> AcceptPhase
    decreases os.len(),
{
    if os.len() == 0 {
        AcceptPhase::Waiting
    } else {
        phase_after(os.drop_last()).after(os.last()).0
    }
}

/// Whether one of the first three outcomes of `os` is a failure.
pub open spec fn fails_early(os: Seq<AcceptOutcome>) -> bool {
    exists|i: int| 0 <= i < 3 && i < os.len() && !(#[trigger] os[i] is Done)
}

/// A client is accepted exactly when its connection arrived, its handshake
/// and its stream succeeded; the acceptance has failed exactly when one of
/// them failed; and until then it waits on the next of the three steps.
/// Outcomes reported after the third change nothing.
pub proof fn law_accept_runs_three_steps(os: Seq<AcceptOutcome>)
    ensures
        fails_early(os) ==> phase_after(os) == AcceptPhase::Failed,
        !fails_early(os) ==> phase_after(os) == (if os.len() == 0 {
            AcceptPhase::Waiting
        } else if os.len() == 1 {
            AcceptPhase::Handshaking
        } else if os.len() == 2 {
            AcceptPhase::OpeningStreams
        } else {
            AcceptPhase::Accepted
        }),
    decreases os.len(),
{
    if os.len() > 0 {
        let front = os.drop_last();
        law_accept_runs_three_steps(front);
        if fails_early(front) {
            let i = choose|i: int| 0 <= i < 3 && i < front.len() && !(#[trigger] front[i] is Done);
            assert(os[i] == front[i]);
        } else if fails_early(os) {
            let i = choose|i: int| 0 <= i < 3 && i < os.len() && !(#[trigger] os[i] is Done);
            if i < front.len() {
                assert(front[i] == os[i]);
            }
        } else if os.len() <= 3 {
            assert(os[os.len() - 1] is Done);
        }
    }
}

/// A finished acceptance ignores whatever is reported afterwards.
pub proof fn law_accept_over_stays_over(p: AcceptPhase, outcome: AcceptOutcome)
    requires
        p.is_over(),
    ensures
        p.after(outcome) == (p, AcceptAction::Nothing),
{
}

/// A failure reported while the acceptance runs ends it, with the error that
/// names its cause: an endpoint without incoming connections gives
/// `NoIncoming`, a failed connection a connection error.
pub proof fn law_accept_failure_names_cause(p: AcceptPhase, outcome: AcceptOutcome)
    requires
        !p.is_over(),
        !(outcome is Done),
    ensures
        p.after(outcome).0 == AcceptPhase::Failed,
        outcome is Closed ==> p.after(outcome).1 == AcceptAction::Fail(Error::NoIncoming),
        outcome matches AcceptOutcome::Lost(e) ==> p.after(outcome).1 == AcceptAction::Fail(Error::Connection(e)),
{
}

} // verus!
