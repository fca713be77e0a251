//! The connection manager: owns every dial attempt, and turns each network
//! event into the next state of its connection and one action for the host
//! event loop to perform.
use crate::address::{
    multiaddr_accepts, multiaddr_peer, multiaddr_tags, opt_bytes, parse_dial_target, websocket_stack,
    AddressError, DialTarget,
};
use crate::peer::{bytes_eq, check_identify, identify_verdict, key_decodes, peer_id_of_key, IdentifyVerdict, RemotePeerInfo};
use crate::pipeline::{timeout_of, Pipeline, UPGRADE_TIMEOUT_MS};
use vstd::prelude::*;

verus! {

/// Why a connection failed before it became ready.
#[derive(Clone, Copy, Debug, PartialEq, Eq, Structural)]
pub enum Failure {
    /// The raw socket could not be opened.
    Dial,
    /// The encryption handshake failed or came out of order.
    Handshake,
    /// Multiplex negotiation failed or came before the handshake.
    Multiplex,
    /// The upgrade did not finish before the pipeline's deadline.
    Timeout,
}

/// Lifecycle of one connection.
#[derive(Clone, Copy, Debug, PartialEq, Eq, Structural)]
pub enum ConnState {
    /// Queued; the raw socket is not open yet.
    Dialing,
    /// The raw socket is open; the handshake is running.
    Upgrading,
    /// The handshake succeeded; multiplex negotiation is running.
    Secured,
    /// Authenticated and multiplexed.
    Ready,
    /// Closed cleanly.
    Closed,
    Failed(Failure),
}

/// Whether the connection is still inside its upgrade sequence.
pub open spec fn upgrading(s: ConnState) -> bool {
    s is Dialing || s is Upgrading || s is Secured
}

/// One managed connection.
pub struct Connection {
    pub target: DialTarget,
    pub state: ConnState,
    /// When the dial was issued, in milliseconds of the host clock.
    pub started_ms: u64,
    /// Whether the raw transport resource is held.
    pub raw_open: bool,
    /// The peer id that the handshake authenticated.
    pub remote: Option<Vec<u8>>,
    /// Whether an identify payload has been accepted.
    pub identified: bool,
}

/// The mathematical model of a connection.
pub struct ConnView {
    pub target: Seq<char>,
    /// The peer id that the dial target names, if any.
    pub expected: Option<Seq<u8>>,
    pub state: ConnState,
    pub started_ms: u64,
    pub raw_open: bool,
    pub remote: Option<Seq<u8>>,
    pub identified: bool,
}

impl View for Connection {
    type V = ConnView;

    open spec fn view(&self) -> ConnView {
        ConnView {
            target: self.target.text@,
            expected: opt_bytes(self.target.peer),
            state: self.state,
            started_ms: self.started_ms,
            raw_open: self.raw_open,
            remote: opt_bytes(self.remote),
            identified: self.identified,
        }
    }
}

/// What the host event loop observed.
#[derive(Debug)]
pub enum Event {
    /// The raw socket of a connection opened.
    RawOpened { conn: usize },
    /// The raw socket of a connection could not be opened.
    DialFailed { conn: usize },
    /// The handshake finished and authenticated the remote peer id; it
    /// fails the connection when the dial target named another peer.
    HandshakeDone { conn: usize, remote: Vec<u8> },
    HandshakeFailed { conn: usize },
    /// Multiplex negotiation finished.
    MultiplexReady { conn: usize },
    MultiplexFailed { conn: usize },
    /// The host clock, reported for one connection.
    Timer { conn: usize, now_ms: u64 },
    /// The remote's identify payload arrived.
    IdentifyReceived { conn: usize, info: RemotePeerInfo },
    /// The identify exchange ended without a payload.
    IdentifyFailed { conn: usize },
    /// The connection was closed.
    Closed { conn: usize },
    /// The endpoint listens on a new address.
    NewListenAddr { address: String },
    /// Anything else the network reports.
    Other,
}

/// What the host event loop is to do next.
#[derive(Debug)]
pub enum Action {
    /// Nothing.
    Absorb,
    /// The connection became ready: open the identify sub-stream.
    StartIdentify { conn: usize },
    /// Emit an identify event with the verified payload.
    Identified { conn: usize, info: RemotePeerInfo },
    /// Log a payload that failed the identity check; the connection stays.
    IdentifyRejected { conn: usize, verdict: IdentifyVerdict },
    /// Log an identify exchange that ended without a payload; the connection stays.
    IdentifyAbandoned { conn: usize },
    /// Log a new listen address.
    LogListenAddr { address: String },
    /// Release the connection's raw resource; `None` for a clean close.
    Release { conn: usize, failure: Option<Failure> },
}

/// The connection an event is about.
pub open spec fn event_conn(ev: Event) -> Option<usize> {
    match ev {
        Event::RawOpened { conn } => Some(conn),
        Event::DialFailed { conn } => Some(conn),
        Event::HandshakeDone { conn, .. } => Some(conn),
        Event::HandshakeFailed { conn } => Some(conn),
        Event::MultiplexReady { conn } => Some(conn),
        Event::MultiplexFailed { conn } => Some(conn),
        Event::Timer { conn, .. } => Some(conn),
        Event::IdentifyReceived { conn, .. } => Some(conn),
        Event::IdentifyFailed { conn } => Some(conn),
        Event::Closed { conn } => Some(conn),
        _ => None,
    }
}

pub open spec fn fail(c: ConnView, f: Failure) -> ConnView {
    ConnView { state: ConnState::Failed(f), raw_open: false, ..c }
}

/// Whether the deadline has passed for a connection started at `started`.
pub open spec fn expired(started: u64, now: u64, deadline: u64) -> bool {
    now >= started && now - started >= deadline
}

/// The next model of a connection after an event about it.
pub open spec fn next_conn(c: ConnView, ev: Event, deadline: u64) -> ConnView {
    match ev {
        Event::RawOpened { .. } => if c.state is Dialing {
            ConnView { state: ConnState::Upgrading, raw_open: true, ..c }
        } else if upgrading(c.state) {
            fail(c, Failure::Dial)
        } else {
            c
        },
        Event::DialFailed { .. } => if upgrading(c.state) {
            fail(c, Failure::Dial)
        } else {
            c
        },
        Event::HandshakeDone { remote, .. } => if c.state is Upgrading {
            if c.expected is Some && c.expected != Some(remote@) {
                fail(c, Failure::Handshake)
            } else {
                ConnView { state: ConnState::Secured, remote: Some(remote@), ..c }
            }
        } else if upgrading(c.state) {
            fail(c, Failure::Handshake)
        } else {
            c
        },
        Event::HandshakeFailed { .. } => if upgrading(c.state) {
            fail(c, Failure::Handshake)
        } else {
            c
        },
        Event::MultiplexReady { .. } => if c.state is Secured {
            ConnView { state: ConnState::Ready, ..c }
        } else if upgrading(c.state) {
            fail(c, Failure::Multiplex)
        } else {
            c
        },
        Event::MultiplexFailed { .. } => if upgrading(c.state) {
            fail(c, Failure::Multiplex)
        } else {
            c
        },
        Event::Timer { now_ms, .. } => if upgrading(c.state) && expired(c.started_ms, now_ms, deadline) {
            fail(c, Failure::Timeout)
        } else {
            c
        },
        Event::IdentifyReceived { info, .. } => if c.state is Ready && identify_verdict(info)
            is Accepted {
            ConnView { identified: true, ..c }
        } else {
            c
        },
        Event::Closed { .. } => if c.state is Ready || upgrading(c.state) {
            ConnView { state: ConnState::Closed, raw_open: false, ..c }
        } else {
            c
        },
        _ => c,
    }
}

/// The action for an event about connection `i`, whose model was `c`.
pub open spec fn action_for(c: ConnView, ev: Event, deadline: u64, i: usize) -> Action {
    let n = next_conn(c, ev, deadline);
    match ev {
        Event::IdentifyReceived { info, .. } => if c.state is Ready {
            if identify_verdict(info) is Accepted {
                Action::Identified { conn: i, info }
            } else {
                Action::IdentifyRejected { conn: i, verdict: identify_verdict(info) }
            }
        } else {
            Action::Absorb
        },
        Event::IdentifyFailed { .. } => if c.state is Ready {
            Action::IdentifyAbandoned { conn: i }
        } else {
            Action::Absorb
        },
        _ => if n.state is Ready && !(c.state is Ready) {
            Action::StartIdentify { conn: i }
        } else if n.state != c.state && (n.state is Closed || n.state is Failed) {
            Action::Release {
                conn: i,
                failure: match n.state {
                    ConnState::Failed(f) => Some(f),
                    _ => None,
                },
            }
        } else {
            Action::Absorb
        },
    }
}

fn is_upgrading(s: ConnState) -> (r: bool)
    ensures
        r == upgrading(s),
{
    match s {
        ConnState::Dialing | ConnState::Upgrading | ConnState::Secured => true,
        _ => false,
    }
}

/// Marks the connection failed and its raw resource released.
fn fail_conn(c: &mut Connection, f: Failure, i: usize) -> (r: Action)
    ensures
        final(c)@ == fail(old(c)@, f),
        r == (Action::Release { conn: i, failure: Some(f) }),
{
    c.state = ConnState::Failed(f);
    c.raw_open = false;
    Action::Release { conn: i, failure: Some(f) }
}

/// Applies one event to connection `i`.
pub fn step_connection(c: &mut Connection, ev: Event, deadline: u64, i: usize) -> (r: Action)
    ensures
        final(c)@ == next_conn(old(c)@, ev, deadline),
        r == action_for(old(c)@, ev, deadline, i),
{
    let up = is_upgrading(c.state);
    match ev {
        Event::RawOpened { .. } => {
            if c.state == ConnState::Dialing {
                c.state = ConnState::Upgrading;
                c.raw_open = true;
                Action::Absorb
            } else if up {
                fail_conn(c, Failure::Dial, i)
            } else {
                Action::Absorb
            }
        },
        Event::DialFailed { .. } => {
            if up {
                fail_conn(c, Failure::Dial, i)
            } else {
                Action::Absorb
            }
        },
        Event::HandshakeDone { remote, .. } => {
            if c.state == ConnState::Upgrading {
                let matches = match &c.target.peer {
                    Some(e) => bytes_eq(e, &remote),
                    None => true,
                };
                if matches {
                    c.state = ConnState::Secured;
                    c.remote = Some(remote);
                    Action::Absorb
                } else {
                    fail_conn(c, Failure::Handshake, i)
                }
            } else if up {
                fail_conn(c, Failure::Handshake, i)
            } else {
                Action::Absorb
            }
        },
        Event::HandshakeFailed { .. } => {
            if up {
                fail_conn(c, Failure::Handshake, i)
            } else {
                Action::Absorb
            }
        },
        Event::MultiplexReady { .. } => {
            if c.state == ConnState::Secured {
                c.state = ConnState::Ready;
                Action::StartIdentify { conn: i }
            } else if up {
                fail_conn(c, Failure::Multiplex, i)
            } else {
                Action::Absorb
            }
        },
        Event::MultiplexFailed { .. } => {
            if up {
                fail_conn(c, Failure::Multiplex, i)
            } else {
                Action::Absorb
            }
        },
        Event::Timer { now_ms, .. } => {
            if up && now_ms >= c.started_ms && now_ms - c.started_ms >= deadline {
                fail_conn(c, Failure::Timeout, i)
            } else {
                Action::Absorb
            }
        },
        Event::IdentifyReceived { info, .. } => {
            if c.state == ConnState::Ready {
                let verdict = check_identify(&info);
                if verdict == IdentifyVerdict::Accepted {
                    c.identified = true;
                    Action::Identified { conn: i, info }
                } else {
                    Action::IdentifyRejected { conn: i, verdict }
                }
            } else {
                Action::Absorb
            }
        },
        Event::IdentifyFailed { .. } => {
            if c.state == ConnState::Ready {
                Action::IdentifyAbandoned { conn: i }
            } else {
                Action::Absorb
            }
        },
        Event::Closed { .. } => {
            if up || c.state == ConnState::Ready {
                c.state = ConnState::Closed;
                c.raw_open = false;
                Action::Release { conn: i, failure: None }
            } else {
                Action::Absorb
            }
        },
        _ => Action::Absorb,
    }
}

/// The action for an event that names no connection of the manager.
pub open spec fn action_unrouted(ev: Event) -> Action {
    match ev {
        Event::NewListenAddr { address } => Action::LogListenAddr { address },
        _ => Action::Absorb,
    }
}

/// Owns every connection, indexed by the order in which they were dialed.
pub struct Manager {
    conns: Vec<Connection>,
    deadline_ms: u64,
    running: bool,
}

impl Manager {
    /// The models of the connections, in dial order.
    pub closed spec fn conns(&self) -> Seq<ConnView> {
        self.conns@.map_values(|c: Connection| c@)
    }

    /// The upgrade deadline, in milliseconds.
    pub closed spec fn deadline(&self) -> u64 {
        self.deadline_ms
    }

    /// Whether the event loop has been started.
    pub closed spec fn running(&self) -> bool {
        self.running
    }

    /// A manager with no connections, whose upgrade deadline is the
    /// pipeline's; without a timeout layer, the standard one applies.
    pub fn new(pipeline: &Pipeline) -> (r: Manager)
        ensures
            r.conns() == Seq::<ConnView>::empty(),
            r.deadline() == match timeout_of(pipeline.layer_seq()) {
                Some(ms) => ms,
                None => UPGRADE_TIMEOUT_MS,
            },
            !r.running(),
    {
        let deadline_ms = match pipeline.upgrade_timeout_ms() {
            Some(ms) => ms,
            None => UPGRADE_TIMEOUT_MS,
        };
        let r = Manager { conns: Vec::new(), deadline_ms, running: false };
        assert(r.conns() =~= Seq::<ConnView>::empty());
        r
    }

    /// Validates the target and queues a connection to it in `Dialing`.
    /// Nothing is opened or sent here: the host performs the dial.
    pub fn dial(&mut self, target: &str, now_ms: u64) -> (r: Result<usize, AddressError>)
        ensures
            r.is_ok() == (multiaddr_accepts(target@) && websocket_stack(multiaddr_tags(target@))),
            (r matches Err(AddressError::Malformed)) == !multiaddr_accepts(target@),
            r.is_err() ==> final(self).conns() == old(self).conns(),
            r matches Ok(i) ==> {
                &&& i == old(self).conns().len()
                &&& final(self).conns() == old(self).conns().push(
                    ConnView {
                        target: target@,
                        expected: multiaddr_peer(target@),
                        state: ConnState::Dialing,
                        started_ms: now_ms,
                        raw_open: false,
                        remote: None,
                        identified: false,
                    },
                )
            },
            final(self).running() == old(self).running(),
            final(self).deadline() == old(self).deadline(),
    {
        match parse_dial_target(target) {
            Err(e) => Err(e),
            Ok(t) => {
                let i = self.conns.len();
                let c = Connection {
                    target: t,
                    state: ConnState::Dialing,
                    started_ms: now_ms,
                    raw_open: false,
                    remote: None,
                    identified: false,
                };
                self.conns.push(c);
                assert(self.conns() =~= old(self).conns().push(c@));
                Ok(i)
            },
        }
    }

    /// Marks the event loop started.
    pub fn start_event_loop(&mut self)
        ensures
            final(self).running(),
            final(self).conns() == old(self).conns(),
            final(self).deadline() == old(self).deadline(),
    {
        self.running = true;
    }

    /// Dispatches one event: an event about a managed connection advances
    /// that connection alone; any other is logged or absorbed.
    pub fn handle(&mut self, ev: Event) -> (r: Action)
        ensures
            final(self).deadline() == old(self).deadline(),
            final(self).running() == old(self).running(),
            match event_conn(ev) {
                Some(i) if i < old(self).conns().len() => {
                    &&& final(self).conns() == old(self).conns().update(
                        i as int,
                        next_conn(old(self).conns()[i as int], ev, old(self).deadline()),
                    )
                    &&& r == action_for(old(self).conns()[i as int], ev, old(self).deadline(), i)
                },
                _ => final(self).conns() == old(self).conns() && r == action_unrouted(ev),
            },
    {
        let target = match &ev {
            Event::RawOpened { conn } => Some(*conn),
            Event::DialFailed { conn } => Some(*conn),
            Event::HandshakeDone { conn, .. } => Some(*conn),
            Event::HandshakeFailed { conn } => Some(*conn),
            Event::MultiplexReady { conn } => Some(*conn),
            Event::MultiplexFailed { conn } => Some(*conn),
            Event::Timer { conn, .. } => Some(*conn),
            Event::IdentifyReceived { conn, .. } => Some(*conn),
            Event::IdentifyFailed { conn } => Some(*conn),
            Event::Closed { conn } => Some(*conn),
            _ => None,
        };
        let routed = match target {
            Some(i) => i < self.conns.len(),
            None => false,
        };
        if routed {
            let i = target.unwrap();
            let deadline = self.deadline_ms;
            let mut c = self.conns.remove(i);
            let r = step_connection(&mut c, ev, deadline, i);
            self.conns.insert(i, c);
            assert(self.conns@ =~= old(self).conns@.update(i as int, c));
            assert(self.conns() =~= old(self).conns().update(i as int, c@));
            r
        } else {
            match ev {
                Event::NewListenAddr { address } => Action::LogListenAddr { address },
                _ => Action::Absorb,
            }
        }
    }

    pub fn len(&self) -> (r: usize)
        ensures
            r == self.conns().len(),
    {
        self.conns.len()
    }

    /// The state of connection `i`.
    pub fn state(&self, i: usize) -> (r: ConnState)
        requires
            i < self.conns().len(),
        ensures
            r == self.conns()[i as int].state,
    {
        self.conns[i].state
    }

    /// Connection `i`.
    pub fn connection(&self, i: usize) -> (r: &Connection)
        requires
            i < self.conns().len(),
        ensures
            r@ == self.conns()[i as int],
    {
        &self.conns[i]
    }

    pub fn is_running(&self) -> (r: bool)
        ensures
            r == self.running(),
    {
        self.running
    }

    pub fn deadline_ms(&self) -> (r: u64)
        ensures
            r == self.deadline(),
    {
        self.deadline_ms
    }
}

/// The model of a connection after a run of events about it, oldest first.
pub open spec fn replay(c: ConnView, evs: Seq<Event>, deadline: u64) -> ConnView
    decreases evs.len(),
{
    if evs.len() == 0 {
        c
    } else {
        next_conn(replay(c, evs.drop_last(), deadline), evs.last(), deadline)
    }
}

/// A connection enters `Secured` only from `Upgrading` on a finished
/// handshake, and `Ready` only from `Secured` on finished multiplex negotiation.
pub proof fn lemma_upgrade_steps(c: ConnView, ev: Event, deadline: u64)
    ensures
        next_conn(c, ev, deadline).state is Secured ==> (c.state is Secured || (
        c.state is Upgrading && ev is HandshakeDone)),
        next_conn(c, ev, deadline).state is Ready ==> (c.state is Ready || (c.state is Secured
            && ev is MultiplexReady)),
{
}

/// Multiplex readiness reported before the handshake finished is rejected:
/// the connection fails and its raw resource is released.
pub proof fn lemma_multiplex_before_handshake_rejected(c: ConnView, ev: Event, deadline: u64, i: usize)
    requires
        c.state is Dialing || c.state is Upgrading,
        ev is MultiplexReady,
    ensures
        next_conn(c, ev, deadline).state == ConnState::Failed(Failure::Multiplex),
        !next_conn(c, ev, deadline).raw_open,
        action_for(c, ev, deadline, i) == (Action::Release {
            conn: i,
            failure: Some(Failure::Multiplex),
        }),
{
}

/// From a fresh dial, a connection is `Ready` only after a finished handshake
/// followed, later in the run, by finished multiplex negotiation.
pub proof fn lemma_ready_requires_ordered_upgrade(c: ConnView, evs: Seq<Event>, deadline: u64)
    requires
        c.state is Dialing,
    ensures
        replay(c, evs, deadline).state is Secured ==> exists|h: int|
            0 <= h < evs.len() && #[trigger] evs[h] is HandshakeDone,
        replay(c, evs, deadline).state is Ready ==> exists|h: int, m: int|
            0 <= h < m < evs.len() && #[trigger] evs[h] is HandshakeDone
                && #[trigger] evs[m] is MultiplexReady,
    decreases evs.len(),
{
    if evs.len() > 0 {
        let pre = evs.drop_last();
        let prev = replay(c, pre, deadline);
        lemma_ready_requires_ordered_upgrade(c, pre, deadline);
        lemma_upgrade_steps(prev, evs.last(), deadline);
        let last = evs.len() - 1;
        assert(evs[last] == evs.last());
        if replay(c, evs, deadline).state is Secured {
            if prev.state is Secured {
                let h = choose|h: int| 0 <= h < pre.len() && #[trigger] pre[h] is HandshakeDone;
                assert(evs[h] == pre[h]);
            } else {
                assert(evs[last] is HandshakeDone);
            }
        }
        if replay(c, evs, deadline).state is Ready {
            if prev.state is Ready {
                let (h, m) = choose|h: int, m: int|
                    0 <= h < m < pre.len() && #[trigger] pre[h] is HandshakeDone
                        && #[trigger] pre[m] is MultiplexReady;
                assert(evs[h] == pre[h] && evs[m] == pre[m]);
            } else {
                let h = choose|h: int| 0 <= h < pre.len() && #[trigger] pre[h] is HandshakeDone;
                assert(evs[h] == pre[h]);
                assert(evs[last] is MultiplexReady);
            }
        }
    }
}

/// An identify event that the manager emits carries a peer id equal to the
/// one derived from the public key it carries.
pub proof fn lemma_identified_peer_matches_key(c: ConnView, ev: Event, deadline: u64, i: usize)
    ensures
        action_for(c, ev, deadline, i) matches Action::Identified { info, .. } ==> key_decodes(
            info.public_key@,
        ) && peer_id_of_key(info.public_key@) == info.peer_id@,
{
}

/// An identify exchange never changes the lifecycle of a ready connection,
/// and one that fails or is rejected leaves the connection as it was.
pub proof fn lemma_identify_failure_keeps_ready(c: ConnView, ev: Event, deadline: u64)
    requires
        c.state is Ready,
        ev is IdentifyFailed || ev is IdentifyReceived,
    ensures
        next_conn(c, ev, deadline).state is Ready,
        next_conn(c, ev, deadline).raw_open == c.raw_open,
        next_conn(c, ev, deadline).remote == c.remote,
        (ev matches Event::IdentifyReceived { info, .. } ==> !(identify_verdict(info) is Accepted))
            ==> next_conn(c, ev, deadline) == c,
{
}

/// An upgrade still running at its deadline fails with a timeout, and the
/// raw resource is released.
pub proof fn lemma_upgrade_timeout(c: ConnView, ev: Event, deadline: u64, i: usize)
    requires
        upgrading(c.state),
        ev matches Event::Timer { now_ms, .. } && expired(c.started_ms, now_ms, deadline),
    ensures
        next_conn(c, ev, deadline).state == ConnState::Failed(Failure::Timeout),
        !next_conn(c, ev, deadline).raw_open,
        action_for(c, ev, deadline, i) == (Action::Release {
            conn: i,
            failure: Some(Failure::Timeout),
        }),
{
}

/// From a fresh dial, a connection that passed the handshake holds an
/// authenticated remote, and that remote is the peer the dial target named.
pub proof fn lemma_secured_peer_is_expected(c: ConnView, evs: Seq<Event>, deadline: u64)
    requires
        c.state is Dialing,
        c.remote is None,
    ensures
        replay(c, evs, deadline).expected == c.expected,
        (replay(c, evs, deadline).state is Secured || replay(c, evs, deadline).state is Ready) ==> {
            &&& replay(c, evs, deadline).remote is Some
            &&& c.expected is Some ==> replay(c, evs, deadline).remote == c.expected
        },
    decreases evs.len(),
{
    if evs.len() > 0 {
        lemma_secured_peer_is_expected(c, evs.drop_last(), deadline);
    }
}

} // verus!
