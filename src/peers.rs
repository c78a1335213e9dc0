use vstd::prelude::*;

use crate::rpc::RpcError;

verus! {

/// The service bit of a peer that serves the full block chain.
pub const NODE_NETWORK: u64 = 1;

/// Where a peer can be reached.
#[derive(Clone, Copy, Debug)]
pub enum PeerAddr {
    V4 { ip: [u8; 4], port: u16 },
    V6 { ip: [u8; 16], port: u16 },
    /// A Tor v3 hidden service, by the 56 letters of its name before `.onion`.
    Onion { name: [u8; 56], port: u16 },
}

impl PeerAddr {
    pub fn is_onion(&self) -> (r: bool)
        ensures
            r == (self is Onion),
    {
        match self {
            PeerAddr::Onion { .. } => true,
            _ => false,
        }
    }
}

/// A peer the fetcher may ask for blocks: its address and service bits.
#[derive(Clone, Copy, Debug)]
pub struct PeerHandle {
    pub addr: PeerAddr,
    pub services: u64,
}

/// One entry of the node's `getpeerinfo` answer; `addr` is absent where the
/// address did not parse.
#[derive(Clone, Copy, Debug)]
pub struct PeerInfo {
    pub addr: Option<PeerAddr>,
    pub services: u64,
}

/// Whether an entry of `getpeerinfo` names a peer that can serve blocks.
pub open spec fn serves_blocks(info: PeerInfo) -> bool {
    info.addr is Some && info.services & NODE_NETWORK != 0
}

/// The handles of the serving peers, in the order the node listed them.
pub open spec fn serving_peers(infos: Seq<PeerInfo>) -> Seq<PeerHandle>
    decreases infos.len(),
{
    if infos.len() == 0 {
        Seq::empty()
    } else {
        let rest = serving_peers(infos.drop_last());
        let last = infos.last();
        if serves_blocks(last) {
            rest.push(PeerHandle { addr: last.addr->Some_0, services: last.services })
        } else {
            rest
        }
    }
}

/// A snapshot of the peers, with the time it was taken (in milliseconds);
/// the snapshot held before the first refresh was never taken.
#[derive(Clone, Debug)]
pub struct Peers {
    pub handles: Vec<PeerHandle>,
    pub created: Option<u64>,
}

/// A snapshot is stale once `max_age` has passed since it was taken; one that
/// was never taken is stale at every time.
pub open spec fn is_stale(created: Option<u64>, now: u64, max_age: u64) -> bool {
    match created {
        None => true,
        Some(t) => now >= t && now - t >= max_age,
    }
}

impl Peers {
    /// The snapshot before any refresh: empty, never taken, so always stale.
    pub fn new() -> (r: Peers)
        ensures
            r.handles@.len() == 0,
            r.created is None,
    {
        Peers { handles: Vec::new(), created: None }
    }

    pub fn stale(&self, now: u64, max_age: u64) -> (r: bool)
        ensures
            r == is_stale(self.created, now, max_age),
    {
        match self.created {
            None => true,
            Some(t) => now >= t && now - t >= max_age,
        }
    }

    pub fn is_empty(&self) -> (r: bool)
        ensures
            r == (self.handles@.len() == 0),
    {
        self.handles.len() == 0
    }

    pub fn handles(&self) -> (r: Vec<PeerHandle>)
        ensures
            r@ == self.handles@,
    {
        let mut out: Vec<PeerHandle> = Vec::new();
        let mut i: usize = 0;
        while i < self.handles.len()
            invariant
                i <= self.handles@.len(),
                out@ == self.handles@.subrange(0, i as int),
            decreases self.handles@.len() - i,
        {
            out.push(self.handles[i]);
            i = i + 1;
        }
        assert(out@ =~= self.handles@);
        out
    }

    /// A fresh snapshot of the peers in `getpeerinfo` that serve blocks and
    /// have an address that parsed, taken at `now`.
    pub fn from_peer_info(infos: &Vec<PeerInfo>, now: u64) -> (r: Peers)
        ensures
            r.handles@ == serving_peers(infos@),
            r.created == Some(now),
    {
        let mut handles: Vec<PeerHandle> = Vec::new();
        let mut i: usize = 0;
        while i < infos.len()
            invariant
                i <= infos@.len(),
                handles@ == serving_peers(infos@.subrange(0, i as int)),
            decreases infos@.len() - i,
        {
            let info = infos[i];
            assert(infos@.subrange(0, i + 1).drop_last() =~= infos@.subrange(0, i as int));
            if info.services & NODE_NETWORK != 0 {
                if let Some(addr) = info.addr {
                    handles.push(PeerHandle { addr, services: info.services });
                }
            }
            i = i + 1;
        }
        assert(infos@.subrange(0, i as int) =~= infos@);
        Peers { handles, created: Some(now) }
    }
}

/// What a request for peers must do.
#[derive(Clone, Debug)]
pub enum PeerLookup {
    /// The snapshot is fresh: use these peers.
    Ready(Vec<PeerHandle>),
    /// The snapshot is stale but not empty: start a refresh in the background
    /// and use these peers now.
    RefreshInBackground(Vec<PeerHandle>),
    /// The snapshot is stale and empty: start a refresh and wait for it.
    AwaitRefresh,
}

/// The lookup's decision, over the snapshot's model.
pub open spec fn lookup_of(p: Peers, now: u64, max_age: u64) -> PeerLookup {
    if !is_stale(p.created, now, max_age) {
        PeerLookup::Ready(p.handles)
    } else if p.handles@.len() > 0 {
        PeerLookup::RefreshInBackground(p.handles)
    } else {
        PeerLookup::AwaitRefresh
    }
}

/// Two lookups of the same kind, with the same peers.
pub open spec fn same_lookup(a: PeerLookup, b: PeerLookup) -> bool {
    match (a, b) {
        (PeerLookup::Ready(x), PeerLookup::Ready(y)) => x@ == y@,
        (PeerLookup::RefreshInBackground(x), PeerLookup::RefreshInBackground(y)) => x@ == y@,
        (PeerLookup::AwaitRefresh, PeerLookup::AwaitRefresh) => true,
        _ => false,
    }
}

/// The peers that a lookup hands out at once, if it does not wait.
pub open spec fn lookup_peers(l: PeerLookup) -> Option<Seq<PeerHandle>> {
    match l {
        PeerLookup::Ready(x) => Some(x@),
        PeerLookup::RefreshInBackground(x) => Some(x@),
        PeerLookup::AwaitRefresh => None,
    }
}

/// The shared cell that holds the current snapshot of the peers.
#[derive(Clone, Debug)]
pub struct PeerPool {
    pub current: Peers,
}

/// The snapshot after a refresh: the new one on success, the old one on failure.
pub open spec fn after_refresh(current: Peers, outcome: Result<Peers, RpcError>) -> Peers {
    match outcome {
        Ok(p) => p,
        Err(_) => current,
    }
}

impl PeerPool {
    /// A pool before any refresh: every lookup waits for the first refresh.
    pub fn new() -> (r: PeerPool)
        ensures
            r.current.handles@.len() == 0,
            forall|now: u64, max_age: u64| #[trigger] lookup_of(r.current, now, max_age)
                is AwaitRefresh,
    {
        PeerPool { current: Peers::new() }
    }

    /// Reads the current snapshot and decides whether to refresh it and
    /// whether to wait for that.
    pub fn lookup(&self, now: u64, max_age: u64) -> (r: PeerLookup)
        ensures
            same_lookup(r, lookup_of(self.current, now, max_age)),
    {
        if !self.current.stale(now, max_age) {
            PeerLookup::Ready(self.current.handles())
        } else if !self.current.is_empty() {
            PeerLookup::RefreshInBackground(self.current.handles())
        } else {
            PeerLookup::AwaitRefresh
        }
    }

    /// Publishes the outcome of a refresh. A new snapshot replaces the old
    /// one whole; a failure leaves the old one in place. Returns what a caller
    /// that waited on this refresh receives.
    pub fn complete_refresh(&mut self, outcome: Result<Peers, RpcError>) -> (r: Result<
        Vec<PeerHandle>,
        RpcError,
    >)
        ensures
            final(self).current == after_refresh(old(self).current, outcome),
            match outcome {
                Ok(p) => r matches Ok(h) && h@ == p.handles@,
                Err(e) => r == Err::<Vec<PeerHandle>, RpcError>(e),
            },
    {
        match outcome {
            Ok(p) => {
                let handles = p.handles();
                self.current = p;
                Ok(handles)
            },
            Err(e) => Err(e),
        }
    }
}

/// A stale snapshot that holds peers is handed out at once: the lookup never
/// waits for the refresh it starts.
pub proof fn lemma_stale_nonempty_does_not_wait(p: Peers, now: u64, max_age: u64)
    requires
        is_stale(p.created, now, max_age),
        p.handles@.len() > 0,
    ensures
        lookup_peers(lookup_of(p, now, max_age)) == Some(p.handles@),
{
}

/// Once a refresh has published a snapshot, the next lookup sees its peers,
/// unless that snapshot is both empty and already stale.
pub proof fn lemma_refresh_observed(
    pool: PeerPool,
    refreshed: Peers,
    now: u64,
    max_age: u64,
)
    requires
        !is_stale(refreshed.created, now, max_age) || refreshed.handles@.len() > 0,
    ensures
        lookup_peers(
            lookup_of(after_refresh(pool.current, Ok(refreshed)), now, max_age),
        ) == Some(refreshed.handles@),
{
}

/// A failed refresh changes nothing that a later lookup sees.
pub proof fn lemma_failed_refresh_keeps_snapshot(
    pool: PeerPool,
    e: RpcError,
    now: u64,
    max_age: u64,
)
    ensures
        lookup_of(after_refresh(pool.current, Err(e)), now, max_age) == lookup_of(
            pool.current,
            now,
            max_age,
        ),
{
}

} // verus!
