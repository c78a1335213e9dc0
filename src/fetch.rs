use vstd::prelude::*;

use crate::block::{block_acceptable, FetchedBlock, HeaderFields};
use crate::peers::PeerAddr;
use crate::rpc::RpcError;

verus! {

/// The number of fetches that may run at once: the configured bound, at least
/// one, or every peer when none is set.
pub open spec fn window_of(n_peers: usize, max_concurrency: Option<usize>) -> int {
    match max_concurrency {
        None => n_peers as int,
        Some(w) => if w == 0 {
            1
        } else {
            w as int
        },
    }
}

/// The order in which the fetcher works through the peers of a snapshot:
/// peer `next` is the next to start, `running` fetches are under way, and the
/// others before `next` have failed.
#[derive(Clone, Debug)]
pub struct FetchPlan {
    pub n_peers: usize,
    pub max_concurrency: Option<usize>,
    pub next: usize,
    pub running: usize,
    pub done: bool,
}

/// What the fetcher does next.
#[derive(Clone, Copy, Debug, PartialEq, Eq)]
pub enum FetchStep {
    /// Start a fetch from the peer at this index of the snapshot.
    Launch(usize),
    /// Wait for a running fetch to end.
    Wait,
    /// Every peer has failed: give up.
    Exhausted,
    /// A peer's block was accepted: cancel the rest.
    Done,
}

impl FetchPlan {
    pub open spec fn wf(&self) -> bool {
        &&& self.next <= self.n_peers
        &&& self.running <= self.next
        &&& self.running <= window_of(self.n_peers, self.max_concurrency)
    }

    /// The fetches that have ended without an acceptable block.
    pub open spec fn failed(&self) -> int {
        self.next - self.running
    }

    /// A plan over `n_peers` peers, nothing started.
    pub fn new(n_peers: usize, max_concurrency: Option<usize>) -> (r: FetchPlan)
        ensures
            r.wf(),
            r.n_peers == n_peers,
            r.max_concurrency == max_concurrency,
            r.next == 0,
            r.running == 0,
            !r.done,
    {
        FetchPlan { n_peers, max_concurrency, next: 0, running: 0, done: false }
    }

    fn window(&self) -> (r: usize)
        ensures
            r as int == window_of(self.n_peers, self.max_concurrency),
    {
        match self.max_concurrency {
            None => self.n_peers,
            Some(w) => if w == 0 {
                1
            } else {
                w
            },
        }
    }

    /// The peers to start with: the first ones of the snapshot, as many as the
    /// window allows. With no peers at all the fetch is exhausted at once.
    pub fn start(&mut self) -> (r: Vec<usize>)
        requires
            old(self).wf(),
            old(self).next == 0,
            old(self).running == 0,
            !old(self).done,
        ensures
            final(self).wf(),
            final(self).n_peers == old(self).n_peers,
            final(self).max_concurrency == old(self).max_concurrency,
            final(self).done <==> old(self).n_peers == 0,
            final(self).next == final(self).running,
            final(self).next as int == if old(self).n_peers as int <= window_of(
                old(self).n_peers,
                old(self).max_concurrency,
            ) {
                old(self).n_peers as int
            } else {
                window_of(old(self).n_peers, old(self).max_concurrency)
            },
            r@.len() == final(self).next,
            forall|i: int| 0 <= i < r@.len() ==> r@[i] == i,
    {
        let w = self.window();
        let mut launched: Vec<usize> = Vec::new();
        while self.next < self.n_peers && self.next < w
            invariant
                self.next <= self.n_peers,
                self.next <= w,
                self.running == self.next,
                !self.done,
                w as int == window_of(self.n_peers, self.max_concurrency),
                self.n_peers == old(self).n_peers,
                self.max_concurrency == old(self).max_concurrency,
                launched@.len() == self.next,
                forall|i: int| 0 <= i < launched@.len() ==> launched@[i] == i,
            decreases self.n_peers - self.next,
        {
            launched.push(self.next);
            self.next = self.next + 1;
            self.running = self.running + 1;
        }
        if self.n_peers == 0 {
            self.done = true;
        }
        launched
    }

    /// A running fetch ended without an acceptable block: start the next peer
    /// in order, or wait for the others, or give up when none is left.
    pub fn on_failure(&mut self) -> (r: FetchStep)
        requires
            old(self).wf(),
            !old(self).done,
            old(self).running > 0,
        ensures
            final(self).wf(),
            final(self).n_peers == old(self).n_peers,
            final(self).max_concurrency == old(self).max_concurrency,
            final(self).done == (r == FetchStep::Exhausted),
            final(self).failed() == old(self).failed() + 1,
            old(self).next < old(self).n_peers ==> r == FetchStep::Launch(old(self).next)
                && final(self).next == old(self).next + 1 && final(self).running
                == old(self).running,
            old(self).next == old(self).n_peers ==> final(self).next == old(self).next
                && final(self).running == old(self).running - 1 && (r == FetchStep::Exhausted
                <==> final(self).running == 0) && (r != FetchStep::Exhausted ==> r
                == FetchStep::Wait),
            r == FetchStep::Exhausted <==> final(self).failed() == final(self).n_peers,
    {
        if self.next < self.n_peers {
            let i = self.next;
            self.next = self.next + 1;
            FetchStep::Launch(i)
        } else {
            self.running = self.running - 1;
            if self.running == 0 {
                self.done = true;
                FetchStep::Exhausted
            } else {
                FetchStep::Wait
            }
        }
    }

    /// A running fetch produced an acceptable block: the fetch is over.
    pub fn on_success(&mut self) -> (r: FetchStep)
        requires
            old(self).wf(),
            !old(self).done,
            old(self).running > 0,
        ensures
            final(self).done,
            final(self).next == old(self).next,
            final(self).running == old(self).running,
            final(self).n_peers == old(self).n_peers,
            final(self).max_concurrency == old(self).max_concurrency,
            r == FetchStep::Done,
    {
        self.done = true;
        FetchStep::Done
    }

    /// The error of a fetch that ran out of peers.
    pub fn exhausted_error(&self) -> (r: RpcError)
        ensures
            r.code == crate::rpc::MISC_ERROR_CODE,
            r.message@ == crate::rpc::PRUNE_ERROR_MESSAGE@,
            r.status is None,
    {
        RpcError::pruned()
    }
}

/// Where a conversation with one peer stands.
#[derive(Clone, Copy, Debug, PartialEq, Eq)]
pub enum SessionState {
    /// `version` was sent; the peer's `version` is awaited.
    AwaitVersion,
    /// `verack` was sent; the peer's `verack` is awaited.
    AwaitVerack,
    /// `getdata` for the block was sent; the `block` is awaited.
    AwaitBlock,
    /// The peer's block passed the checks.
    Accepted,
    /// The peer misbehaved, went silent or sent the wrong block.
    Abandoned,
}

/// The messages of the protocol that a session tells apart.
#[derive(Clone, Copy, Debug)]
pub enum PeerMessage {
    Version,
    Verack,
    Block(FetchedBlock),
    /// Any other message.
    Other,
}

/// What can happen to a session.
#[derive(Clone, Copy, Debug)]
pub enum PeerEvent {
    Received(PeerMessage),
    /// No message within the peer timeout.
    TimedOut,
    /// The connection closed, or a message failed its checksum.
    Disconnected,
}

/// What the session asks its driver to do.
#[derive(Clone, Copy, Debug, PartialEq, Eq)]
pub enum SessionAction {
    SendVerack,
    /// Ask for the block with `getdata` and inventory type `MSG_BLOCK`.
    SendGetData,
    /// Hand the block on: it is the one asked for.
    Accept,
    /// Close the connection and report a failure.
    Abandon,
}

/// One peer's handshake and block request.
#[derive(Clone, Copy, Debug)]
pub struct PeerSession {
    pub state: SessionState,
    pub requested: [u8; 32],
    pub authoritative: HeaderFields,
}

/// The next state and action of a session on an event.
pub open spec fn session_step(s: PeerSession, ev: PeerEvent) -> (SessionState, SessionAction) {
    match (s.state, ev) {
        (SessionState::AwaitVersion, PeerEvent::Received(PeerMessage::Version)) => (
            SessionState::AwaitVerack,
            SessionAction::SendVerack,
        ),
        (SessionState::AwaitVerack, PeerEvent::Received(PeerMessage::Verack)) => (
            SessionState::AwaitBlock,
            SessionAction::SendGetData,
        ),
        (SessionState::AwaitBlock, PeerEvent::Received(PeerMessage::Block(b))) => if block_acceptable(
            b,
            s.requested,
            s.authoritative,
        ) {
            (SessionState::Accepted, SessionAction::Accept)
        } else {
            (SessionState::Abandoned, SessionAction::Abandon)
        },
        (SessionState::Accepted, _) => (SessionState::Accepted, SessionAction::Abandon),
        _ => (SessionState::Abandoned, SessionAction::Abandon),
    }
}

impl PeerSession {
    /// A session that has just sent `version`.
    pub fn new(requested: [u8; 32], authoritative: HeaderFields) -> (r: PeerSession)
        ensures
            r.state == SessionState::AwaitVersion,
            r.requested == requested,
            r.authoritative == authoritative,
    {
        PeerSession { state: SessionState::AwaitVersion, requested, authoritative }
    }

    /// Moves the session on by one event.
    pub fn step(&mut self, ev: PeerEvent) -> (r: SessionAction)
        ensures
            (final(self).state, r) == session_step(*old(self), ev),
            final(self).requested == old(self).requested,
            final(self).authoritative == old(self).authoritative,
    {
        let (state, action) = match (self.state, ev) {
            (SessionState::AwaitVersion, PeerEvent::Received(PeerMessage::Version)) => (
                SessionState::AwaitVerack,
                SessionAction::SendVerack,
            ),
            (SessionState::AwaitVerack, PeerEvent::Received(PeerMessage::Verack)) => (
                SessionState::AwaitBlock,
                SessionAction::SendGetData,
            ),
            (SessionState::AwaitBlock, PeerEvent::Received(PeerMessage::Block(b))) => {
                if b.is_acceptable(&self.requested, &self.authoritative) {
                    (SessionState::Accepted, SessionAction::Accept)
                } else {
                    (SessionState::Abandoned, SessionAction::Abandon)
                }
            },
            (SessionState::Accepted, _) => (SessionState::Accepted, SessionAction::Abandon),
            _ => (SessionState::Abandoned, SessionAction::Abandon),
        };
        self.state = state;
        action
    }
}

/// A session accepts a block only when it is the block asked for, with the
/// node's header, and only right after the handshake and the request.
pub proof fn lemma_accept_only_checked_block(s: PeerSession, ev: PeerEvent)
    requires
        session_step(s, ev).1 == SessionAction::Accept,
    ensures
        s.state == SessionState::AwaitBlock,
        ev matches PeerEvent::Received(PeerMessage::Block(b)) && block_acceptable(
            b,
            s.requested,
            s.authoritative,
        ),
{
}

/// How to open the connection to a peer.
#[derive(Clone, Copy, Debug, PartialEq, Eq)]
pub enum Dial {
    /// A plain TCP connection.
    Direct,
    /// A connection through the SOCKS5 proxy of Tor.
    ViaProxy,
    /// The peer cannot be reached: an onion address with no proxy set.
    Unreachable,
}

/// Onion peers are dialled only through the proxy, and only when one is set;
/// with `tor_only`, every peer is.
pub open spec fn dial_of(addr: PeerAddr, has_proxy: bool, tor_only: bool) -> Dial {
    if addr is Onion {
        if has_proxy {
            Dial::ViaProxy
        } else {
            Dial::Unreachable
        }
    } else if has_proxy && tor_only {
        Dial::ViaProxy
    } else {
        Dial::Direct
    }
}

pub fn dial(addr: &PeerAddr, has_proxy: bool, tor_only: bool) -> (r: Dial)
    ensures
        r == dial_of(*addr, has_proxy, tor_only),
{
    if addr.is_onion() {
        if has_proxy {
            Dial::ViaProxy
        } else {
            Dial::Unreachable
        }
    } else if has_proxy && tor_only {
        Dial::ViaProxy
    } else {
        Dial::Direct
    }
}

} // verus!
