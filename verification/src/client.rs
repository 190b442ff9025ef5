//! The client side: opening a QUIC connection to a broker and the
//! bidirectional stream that carries MQTT over it.
//!
//! Opening a connection takes three outside steps, in this order: dial the
//! broker from the local endpoint, wait for the handshake, then accept the
//! bidirectional stream. The decisions between them stand here as a state
//! machine; the caller performs each [`ConnectAction`] and reports how it went
//! as a [`ConnectOutcome`].

use vstd::prelude::*;

verus! {

/// Why a client could not open its QUIC transport.
pub enum Error {
    /// The local endpoint could not be bound.
    Io(std::io::Error),
    /// The endpoint refused to start the connection.
    Connect(quinn::ConnectError),
    /// The connection failed during the handshake or while opening the stream.
    Connection(quinn::ConnectionError),
}

/// Where a connection attempt stands.
#[derive(Clone, Copy, Debug, PartialEq, Eq, Structural)]
pub enum ConnectPhase {
    /// The broker is being dialled.
    Dialing,
    /// The QUIC handshake is under way.
    Handshaking,
    /// The bidirectional stream is being accepted.
    OpeningStreams,
    /// The transport is ready.
    Connected,
    /// The attempt failed.
    Failed,
}

/// How the step last asked for went.
pub enum ConnectOutcome {
    /// It succeeded.
    Done,
    /// Dialling was refused by the endpoint.
    Refused(quinn::ConnectError),
    /// The connection failed.
    Lost(quinn::ConnectionError),
}

/// What the caller does next.
pub enum ConnectAction {
    /// Dial the broker with a client configuration built from the TLS settings.
    Dial,
    /// Wait for the handshake of the connection being dialled.
    AwaitHandshake,
    /// Accept the bidirectional stream of the connection.
    AcceptStreams,
    /// Hand out the network made of the accepted stream pair.
    Finish,
    /// Give up with this error.
    Fail(Error),
    /// Nothing: the attempt is over.
    Nothing,
}

impl ConnectPhase {
    /// The attempt is over, one way or the other.
    pub open spec fn is_over(self) -> bool {
        self == ConnectPhase::Connected || self == ConnectPhase::Failed
    }

    /// The phase that follows a successful step.
    pub open spec fn advanced(self) -> ConnectPhase {
        match self {
            ConnectPhase::Dialing => ConnectPhase::Handshaking,
            ConnectPhase::Handshaking => ConnectPhase::OpeningStreams,
            ConnectPhase::OpeningStreams => ConnectPhase::Connected,
            other => other,
        }
    }

    /// The work that a phase asks of the caller.
    pub open spec fn work(self) -> ConnectAction {
        match self {
            ConnectPhase::Dialing => ConnectAction::Dial,
            ConnectPhase::Handshaking => ConnectAction::AwaitHandshake,
            ConnectPhase::OpeningStreams => ConnectAction::AcceptStreams,
            ConnectPhase::Connected => ConnectAction::Finish,
            ConnectPhase::Failed => ConnectAction::Nothing,
        }
    }

    /// The phase and action after `outcome` is reported in `self`: a finished
    /// attempt stays as it is; a success moves on by one phase; a failure ends
    /// the attempt with the error that names its cause.
    pub open spec fn after(self, outcome: ConnectOutcome) -> (ConnectPhase, ConnectAction) {
        if self.is_over() {
            (self, ConnectAction::Nothing)
        } else {
            match outcome {
                ConnectOutcome::Done => (self.advanced(), self.advanced().work()),
                ConnectOutcome::Refused(e) => (ConnectPhase::Failed, ConnectAction::Fail(Error::Connect(e))),
                ConnectOutcome::Lost(e) => (ConnectPhase::Failed, ConnectAction::Fail(Error::Connection(e))),
            }
        }
    }

    /// A new attempt: it starts by dialling.
    pub fn start() -> (res: (ConnectPhase, ConnectAction))
        ensures
            res.0 == ConnectPhase::Dialing,
            res.1 == ConnectPhase::Dialing.work(),
    {
        (ConnectPhase::Dialing, ConnectAction::Dial)
    }

    /// Takes in how the last step went and says what comes next.
    pub fn step(self, outcome: ConnectOutcome) -> (res: (ConnectPhase, ConnectAction))
        ensures
            res == self.after(outcome),
    {
        match self {
            ConnectPhase::Connected | ConnectPhase::Failed => (self, ConnectAction::Nothing),
            _ => match outcome {
                ConnectOutcome::Done => match self {
                    ConnectPhase::Dialing => (ConnectPhase::Handshaking, ConnectAction::AwaitHandshake),
                    ConnectPhase::Handshaking => (ConnectPhase::OpeningStreams, ConnectAction::AcceptStreams),
                    _ => (ConnectPhase::Connected, ConnectAction::Finish),
                },
                ConnectOutcome::Refused(e) => (ConnectPhase::Failed, ConnectAction::Fail(Error::Connect(e))),
                ConnectOutcome::Lost(e) => (ConnectPhase::Failed, ConnectAction::Fail(Error::Connection(e))),
            },
        }
    }
}

/// The phase that a new attempt reaches once the outcomes `os` have been
/// reported, in order.
pub open spec fn phase_after(os: Seq<ConnectOutcome>) -> ConnectPhase
    decreases os.len(),
{
    if os.len() == 0 {
        ConnectPhase::Dialing
    } else {
        phase_after(os.drop_last()).after(os.last()).0
    }
}

/// Whether one of the first three outcomes of `os` is a failure.
pub open spec fn fails_early(os: Seq<ConnectOutcome>) -> bool {
    exists|i: int| 0 <= i < 3 && i < os.len() && !(#[trigger] os[i] is Done)
}

/// An attempt is connected exactly when dialling, the handshake and the
/// stream all succeeded; it has failed exactly when one of them failed; and
/// until then it waits on the next of the three steps. Outcomes reported
/// after the third change nothing.
pub proof fn law_connect_runs_three_steps(os: Seq<ConnectOutcome>)
    ensures
        fails_early(os) ==> phase_after(os) == ConnectPhase::Failed,
        !fails_early(os) ==> phase_after(os) == (if os.len() == 0 {
            ConnectPhase::Dialing
        } else if os.len() == 1 {
            ConnectPhase::Handshaking
        } else if os.len() == 2 {
            ConnectPhase::OpeningStreams
        } else {
            ConnectPhase::Connected
        }),
    decreases os.len(),
{
    if os.len() > 0 {
        let front = os.drop_last();
        law_connect_runs_three_steps(front);
        if fails_early(front) {
            let i = choose|i: int| 0 <= i < 3 && i < front.len() && !(#[trigger] front[i] is Done);
            assert(os[i] == front[i]);
        } else if fails_early(os) {
            let i = choose|i: int| 0 <= i < 3 && i < os.len() && !(#[trigger] os[i] is Done);
            if i < front.len() {
                assert(front[i] == os[i]);
            }
        } else if os.len() <= 3 {
            assert(os[os.len() - 1] is Done);
        }
    }
}

/// A finished attempt ignores whatever is reported afterwards.
pub proof fn law_connect_over_stays_over(p: ConnectPhase, outcome: ConnectOutcome)
    requires
        p.is_over(),
    ensures
        p.after(outcome) == (p, ConnectAction::Nothing),
{
}

/// A failure reported while the attempt runs ends it, with the error that
/// carries the cause: a refusal to dial is a connect error, anything else a
/// connection error.
pub proof fn law_connect_failure_names_cause(p: ConnectPhase, outcome: ConnectOutcome)
    requires
        !p.is_over(),
        !(outcome is Done),
    ensures
        p.after(outcome).0 == ConnectPhase::Failed,
        outcome matches ConnectOutcome::Refused(e) ==> p.after(outcome).1 == ConnectAction::Fail(Error::Connect(e)),
        outcome matches ConnectOutcome::Lost(e) ==> p.after(outcome).1 == ConnectAction::Fail(Error::Connection(e)),
{
}

} // verus!
