//! The proxy lifecycle record: which port is bound, the sender that shuts
//! the current proxy down, and how many proxies are in their accept loop.
//!
//! The record is generic over the shutdown sender `S`. Its methods decide
//! what changes; the caller holds the record under a lock, binds listeners,
//! and fires the senders that the methods hand back.
use vstd::prelude::*;

verus! {

/// The lifecycle record.
pub struct ProxyStateInner<S> {
    pub shutdown_tx: Option<S>,
    pub port: Option<u16>,
    pub running_count: usize,
}

/// What a request to start a proxy on a port came to.
#[derive(Debug)]
pub enum StartOutcome<S> {
    /// A proxy is already bound to the port: nothing changed, and no
    /// listener should have been bound for it.
    AlreadyRunning,
    /// Binding the listener failed: nothing changed, the running proxy
    /// keeps going.
    BindFailed,
    /// The new proxy is recorded; the previous proxy's sender, if any, is
    /// handed back for the caller to fire.
    Started(Option<S>),
}

/// What a probe of the lifecycle record reports.
#[derive(PartialEq, Eq, Structural, Debug, Clone, Copy)]
pub struct CheckProxyRunningResp {
    pub port: Option<u16>,
    pub running_count: usize,
}

/// The record after a listener for `port` was bound: the port is recorded
/// and the previous proxy's sender is taken out.
pub open spec fn changed_over<S>(s: ProxyStateInner<S>, port: u16) -> ProxyStateInner<S> {
    ProxyStateInner { shutdown_tx: None, port: Some(port), running_count: s.running_count }
}

/// The record after a new proxy with sender `tx` was started.
pub open spec fn registered<S>(s: ProxyStateInner<S>, tx: S) -> ProxyStateInner<S> {
    ProxyStateInner { shutdown_tx: Some(tx), port: s.port, running_count: (s.running_count + 1) as usize }
}

/// The record after a proxy with sender `tx` was started on `port`: the
/// listener was bound, the previous sender taken out, the new one stored,
/// and the proxy counted.
pub open spec fn started<S>(s: ProxyStateInner<S>, port: u16, tx: S) -> ProxyStateInner<S> {
    registered(changed_over(s, port), tx)
}

/// What a probe of the record `s` reports.
pub open spec fn report<S>(s: ProxyStateInner<S>) -> CheckProxyRunningResp {
    CheckProxyRunningResp { port: s.port, running_count: s.running_count }
}

/// The record after a proxy left its accept loop.
pub open spec fn exited<S>(s: ProxyStateInner<S>) -> ProxyStateInner<S> {
    ProxyStateInner { shutdown_tx: s.shutdown_tx, port: s.port, running_count: (s.running_count - 1) as usize }
}

/// The record after a stop: the sender is taken out, nothing else changes.
pub open spec fn stopped<S>(s: ProxyStateInner<S>) -> ProxyStateInner<S> {
    ProxyStateInner { shutdown_tx: None, port: s.port, running_count: s.running_count }
}

impl<S> ProxyStateInner<S> {
    /// The record before any proxy was started.
    pub fn new() -> (r: Self)
        ensures
            r.shutdown_tx is None,
            r.port is None,
            r.running_count == 0,
    {
        ProxyStateInner { shutdown_tx: None, port: None, running_count: 0 }
    }

    /// Whether a proxy is already bound to `port`, in which case starting
    /// one there has nothing to do.
    pub fn is_bound_to(&self, port: u16) -> (r: bool)
        ensures
            r == (self.port == Some(port)),
    {
        match self.port {
            Some(p) => p == port,
            None => false,
        }
    }

    /// Records that a listener for `port` is bound, and hands back the
    /// previous proxy's shutdown sender, which the caller fires before the
    /// new proxy starts.
    pub fn begin_changeover(&mut self, port: u16) -> (prior: Option<S>)
        ensures
            prior == old(self).shutdown_tx,
            *final(self) == changed_over(*old(self), port),
    {
        self.port = Some(port);
        self.shutdown_tx.take()
    }

    /// Records a new proxy whose shutdown sender is `tx`, and counts it as
    /// running.
    pub fn register_proxy(&mut self, tx: S)
        requires
            old(self).running_count < usize::MAX,
        ensures
            *final(self) == registered(*old(self), tx),
    {
        self.shutdown_tx = Some(tx);
        self.running_count = self.running_count + 1;
    }

    /// Decides a request to start a proxy on `port` with the shutdown sender
    /// `tx`, given whether its listener could be bound. On the port already
    /// bound nothing changes; after a failed bind nothing changes either.
    /// Otherwise the previous proxy's sender is handed back to be fired, and
    /// the new proxy is recorded and counted.
    pub fn start_proxy(&mut self, port: u16, listener_bound: bool, tx: S) -> (r: StartOutcome<S>)
        requires
            old(self).port != Some(port) && listener_bound ==> old(self).running_count < usize::MAX,
        ensures
            old(self).port == Some(port) ==> r is AlreadyRunning && *final(self) == *old(self),
            old(self).port != Some(port) && !listener_bound ==> r is BindFailed && *final(self)
                == *old(self),
            old(self).port != Some(port) && listener_bound ==> r == StartOutcome::Started(
                old(self).shutdown_tx,
            ) && *final(self) == started(*old(self), port, tx),
    {
        if self.is_bound_to(port) {
            return StartOutcome::AlreadyRunning;
        }
        if !listener_bound {
            return StartOutcome::BindFailed;
        }
        let prior = self.begin_changeover(port);
        self.register_proxy(tx);
        StartOutcome::Started(prior)
    }

    /// Records that a proxy has left its accept loop.
    pub fn proxy_exited(&mut self)
        requires
            old(self).running_count > 0,
        ensures
            *final(self) == exited(*old(self)),
    {
        self.running_count = self.running_count - 1;
    }

    /// Takes the current shutdown sender out, for the caller to fire. A
    /// second stop finds none, so stopping twice fires once.
    pub fn stop_proxy(&mut self) -> (tx: Option<S>)
        ensures
            tx == old(self).shutdown_tx,
            *final(self) == stopped(*old(self)),
    {
        self.shutdown_tx.take()
    }

    /// The bound port and the number of running proxies.
    pub fn check_proxy_running(&self) -> (r: CheckProxyRunningResp)
        ensures
            r == report(*self),
    {
        CheckProxyRunningResp { port: self.port, running_count: self.running_count }
    }
}

/// The root certificate a newly started proxy gets: the one read from disk
/// when interception is enabled, else none, so that tunnels pass blind.
pub fn root_for_proxy<R>(interception: bool, loaded: Option<R>) -> (r: Option<R>)
    ensures
        interception ==> r == loaded,
        !interception ==> r is None,
{
    if interception {
        loaded
    } else {
        None
    }
}

/// A proxy's run changes the running count by exactly one up when it
/// starts and exactly one down when it leaves its loop, so the count comes
/// back to where it was; a stop in between leaves it alone. A request on
/// the port already bound leaves the record as it is.
pub proof fn lemma_running_count_round_trip<S>(s: ProxyStateInner<S>, tx: S, port: u16)
    requires
        s.running_count < usize::MAX,
    ensures
        started(s, port, tx).running_count == s.running_count + 1,
        exited(started(s, port, tx)).running_count == s.running_count,
        stopped(started(s, port, tx)).running_count == s.running_count + 1,
        exited(stopped(started(s, port, tx))).running_count == s.running_count,
{
}

/// Starting a proxy on `p1` and then on another port `p2` hands the first
/// proxy's sender back to be fired; afterwards the record holds only the
/// second sender and the probe reports `p2`, with both proxies counted
/// until the first leaves its loop.
pub proof fn lemma_port_changeover<S>(s: ProxyStateInner<S>, tx1: S, tx2: S, p1: u16, p2: u16)
    requires
        s.running_count < usize::MAX - 1,
        p1 != p2,
    ensures
        started(s, p1, tx1).shutdown_tx == Some(tx1),
        started(s, p1, tx1).port != Some(p2),
        started(started(s, p1, tx1), p2, tx2).port == Some(p2),
        started(started(s, p1, tx1), p2, tx2).shutdown_tx == Some(tx2),
        report(started(started(s, p1, tx1), p2, tx2)) == (CheckProxyRunningResp {
            port: Some(p2),
            running_count: (s.running_count + 2) as usize,
        }),
        report(exited(started(started(s, p1, tx1), p2, tx2))) == (CheckProxyRunningResp {
            port: Some(p2),
            running_count: (s.running_count + 1) as usize,
        }),
{
}

} // verus!
