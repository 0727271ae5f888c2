use vstd::prelude::*;

use crate::upstream::{resolve_upstream, resolved_upstream};

verus! {

/// The two listeners the supervisor starts.
#[derive(Clone, Copy, PartialEq, Eq, Structural, Debug)]
pub enum Listener {
    Origin,
    Proxy,
}

/// Startup settings, fixed for the life of the supervisor.
pub struct Config {
    /// Port requested for the origin listener.
    pub web_port: u16,
    /// Port requested for the proxy listener.
    pub proxy_port: u16,
    /// Base URL the proxy forwards to.
    pub upstream: String,
    /// When set, a taken port is fatal instead of starting a search.
    pub no_auto_port: bool,
}

/// Where a listener ended up.
#[derive(Clone, Copy, PartialEq, Eq, Structural, Debug)]
pub struct PortBindOutcome {
    pub requested: u16,
    pub bound: u16,
    /// Whether a search for another port took place.
    pub fell_back: bool,
}

/// Why a listener could not be started.
#[derive(Clone, Copy, PartialEq, Eq, Structural, Debug)]
pub enum BindError {
    /// `port` could not be bound and no search was made: the search is
    /// disabled, or `port` was itself the result of one.
    Unavailable { listener: Listener, port: u16 },
    /// `port` could not be bound and the search after it found nothing free.
    Exhausted { listener: Listener, port: u16 },
}

/// Where startup stands.
#[derive(Clone, Copy, PartialEq, Eq, Structural, Debug)]
pub enum Phase {
    Idle,
    /// Waiting for the result of binding `listener` to `port`; `fallback`
    /// tells whether `port` came from a search.
    Binding { listener: Listener, port: u16, fallback: bool },
    /// Waiting for the result of a search for a free port for `listener`.
    Searching { listener: Listener },
    /// Both listeners accept connections.
    Running,
    Terminated,
    Failed,
}

/// What the environment reports back to the supervisor.
#[derive(Clone, Copy, PartialEq, Eq, Structural, Debug)]
pub enum Event {
    Start,
    BindSucceeded,
    BindFailed,
    /// The first free port of the search window, if any.
    SearchFinished(Option<u16>),
    /// One listener stopped, normally or with a failure.
    ListenerStopped { failed: bool },
}

/// What the supervisor asks the environment to do next.
#[derive(Clone, Copy, PartialEq, Eq, Structural, Debug)]
pub enum Action {
    Bind { listener: Listener, port: u16 },
    /// Search for a free port starting at `from`.
    Search { listener: Listener, from: u16 },
    /// Run both bound listeners concurrently.
    Serve { origin: PortBindOutcome, proxy: PortBindOutcome },
    /// Stop both listeners together.
    StopAll,
    /// Give up: startup failed for the reason given.
    Abort(BindError),
    /// The event does not apply in the current phase.
    Ignore,
}

/// The dual-listener startup sequence: origin first, then the upstream the
/// proxy forwards to, then the proxy, then both run until one stops.
pub struct Supervisor {
    pub config: Config,
    pub phase: Phase,
    pub origin: Option<PortBindOutcome>,
    pub proxy: Option<PortBindOutcome>,
    /// The upstream target, fixed once the origin is bound.
    pub upstream: Option<String>,
}

pub open spec fn requested_port(config: &Config, listener: Listener) -> u16 {
    match listener {
        Listener::Origin => config.web_port,
        Listener::Proxy => config.proxy_port,
    }
}

/// The phase and action that follow a failed bind of `listener` to `port`.
pub open spec fn after_bind_failure(config: &Config, listener: Listener, port: u16, fallback: bool) -> (
    Phase,
    Action,
) {
    if fallback || config.no_auto_port {
        (Phase::Failed, Action::Abort(BindError::Unavailable { listener, port }))
    } else if port == u16::MAX {
        (Phase::Failed, Action::Abort(BindError::Exhausted { listener, port }))
    } else {
        (Phase::Searching { listener }, Action::Search { listener, from: (port + 1) as u16 })
    }
}

impl Supervisor {
    /// The bookkeeping each phase relies on.
    pub open spec fn wf(&self) -> bool {
        match self.phase {
            Phase::Idle => self.origin is None && self.proxy is None && self.upstream is None,
            Phase::Binding { listener: Listener::Origin, .. } | Phase::Searching {
                listener: Listener::Origin,
            } => self.origin is None && self.proxy is None && self.upstream is None,
            Phase::Binding { listener: Listener::Proxy, .. } | Phase::Searching {
                listener: Listener::Proxy,
            } => self.origin is Some && self.proxy is None && self.upstream is Some,
            Phase::Running => self.origin is Some && self.proxy is Some && self.upstream is Some,
            _ => true,
        }
    }

    /// How one event moves the supervisor from `self` to `t`, with action `a`.
    pub open spec fn step(&self, ev: Event, t: &Supervisor, a: Action) -> bool {
        let unchanged = t.phase == self.phase && t.origin == self.origin && t.proxy == self.proxy
            && t.upstream == self.upstream;
        match (self.phase, ev) {
            (Phase::Idle, Event::Start) => {
                &&& t.phase == Phase::Binding {
                    listener: Listener::Origin,
                    port: self.config.web_port,
                    fallback: false,
                }
                &&& a == Action::Bind { listener: Listener::Origin, port: self.config.web_port }
                &&& t.origin == self.origin && t.proxy == self.proxy && t.upstream == self.upstream
            },
            (Phase::Binding { listener: Listener::Origin, port, fallback }, Event::BindSucceeded) => {
                let o = PortBindOutcome { requested: self.config.web_port, bound: port, fell_back: fallback };
                &&& t.origin == Some(o)
                &&& t.upstream matches Some(u) && u@ == resolved_upstream(
                    self.config.upstream@,
                    self.config.web_port,
                    port,
                )
                &&& t.phase == Phase::Binding {
                    listener: Listener::Proxy,
                    port: self.config.proxy_port,
                    fallback: false,
                }
                &&& a == Action::Bind { listener: Listener::Proxy, port: self.config.proxy_port }
                &&& t.proxy == self.proxy
            },
            (Phase::Binding { listener: Listener::Proxy, port, fallback }, Event::BindSucceeded) => {
                let p = PortBindOutcome { requested: self.config.proxy_port, bound: port, fell_back: fallback };
                &&& t.proxy == Some(p)
                &&& t.phase == Phase::Running
                &&& a == Action::Serve { origin: self.origin.unwrap(), proxy: p }
                &&& t.origin == self.origin && t.upstream == self.upstream
            },
            (Phase::Binding { listener, port, fallback }, Event::BindFailed) => {
                &&& (t.phase, a) == after_bind_failure(&self.config, listener, port, fallback)
                &&& t.origin == self.origin && t.proxy == self.proxy && t.upstream == self.upstream
            },
            (Phase::Searching { listener }, Event::SearchFinished(found)) => {
                &&& match found {
                    Some(port) => t.phase == Phase::Binding { listener, port, fallback: true } && a
                        == Action::Bind { listener, port },
                    None => t.phase == Phase::Failed && a == Action::Abort(
                        BindError::Exhausted { listener, port: requested_port(&self.config, listener) },
                    ),
                }
                &&& t.origin == self.origin && t.proxy == self.proxy && t.upstream == self.upstream
            },
            (Phase::Running, Event::ListenerStopped { failed }) => {
                &&& t.phase == (if failed {
                    Phase::Failed
                } else {
                    Phase::Terminated
                })
                &&& a == Action::StopAll
                &&& t.origin == self.origin && t.proxy == self.proxy && t.upstream == self.upstream
            },
            _ => unchanged && a == Action::Ignore,
        }
    }

    pub fn new(config: Config) -> (r: Supervisor)
        ensures
            r.config == config,
            r.phase == Phase::Idle,
            r.wf(),
    {
        Supervisor { config, phase: Phase::Idle, origin: None, proxy: None, upstream: None }
    }

    fn bind_failure(&self, listener: Listener, port: u16, fallback: bool) -> (r: (Phase, Action))
        ensures
            r == after_bind_failure(&self.config, listener, port, fallback),
    {
        if fallback || self.config.no_auto_port {
            (Phase::Failed, Action::Abort(BindError::Unavailable { listener, port }))
        } else if port == u16::MAX {
            (Phase::Failed, Action::Abort(BindError::Exhausted { listener, port }))
        } else {
            (Phase::Searching { listener }, Action::Search { listener, from: port + 1 })
        }
    }

    fn requested(&self, listener: Listener) -> (r: u16)
        ensures
            r == requested_port(&self.config, listener),
    {
        match listener {
            Listener::Origin => self.config.web_port,
            Listener::Proxy => self.config.proxy_port,
        }
    }

    /// Advances the startup sequence by one event and returns what to do next.
    pub fn on_event(&mut self, ev: Event) -> (a: Action)
        requires
            old(self).wf(),
        ensures
            final(self).wf(),
            final(self).config == old(self).config,
            old(self).step(ev, final(self), a),
    {
        match (self.phase, ev) {
            (Phase::Idle, Event::Start) => {
                let port = self.config.web_port;
                self.phase = Phase::Binding { listener: Listener::Origin, port, fallback: false };
                Action::Bind { listener: Listener::Origin, port }
            },
            (Phase::Binding { listener: Listener::Origin, port, fallback }, Event::BindSucceeded) => {
                let requested = self.config.web_port;
                self.origin = Some(PortBindOutcome { requested, bound: port, fell_back: fallback });
                self.upstream = Some(resolve_upstream(self.config.upstream.as_str(), requested, port));
                let proxy_port = self.config.proxy_port;
                self.phase = Phase::Binding { listener: Listener::Proxy, port: proxy_port, fallback: false };
                Action::Bind { listener: Listener::Proxy, port: proxy_port }
            },
            (Phase::Binding { listener: Listener::Proxy, port, fallback }, Event::BindSucceeded) => {
                let p = PortBindOutcome { requested: self.config.proxy_port, bound: port, fell_back: fallback };
                self.proxy = Some(p);
                self.phase = Phase::Running;
                match self.origin {
                    Some(o) => Action::Serve { origin: o, proxy: p },
                    None => Action::Ignore,
                }
            },
            (Phase::Binding { listener, port, fallback }, Event::BindFailed) => {
                let (phase, action) = self.bind_failure(listener, port, fallback);
                self.phase = phase;
                action
            },
            (Phase::Searching { listener }, Event::SearchFinished(found)) => {
                match found {
                    Some(port) => {
                        self.phase = Phase::Binding { listener, port, fallback: true };
                        Action::Bind { listener, port }
                    },
                    None => {
                        self.phase = Phase::Failed;
                        Action::Abort(BindError::Exhausted { listener, port: self.requested(listener) })
                    },
                }
            },
            (Phase::Running, Event::ListenerStopped { failed }) => {
                self.phase = if failed {
                    Phase::Failed
                } else {
                    Phase::Terminated
                };
                Action::StopAll
            },
            _ => Action::Ignore,
        }
    }
}

/// A search that finds no free port ends startup in `Failed`, with no further
/// bind asked for.
pub proof fn lemma_exhausted_search_fails(s: &Supervisor, listener: Listener, t: &Supervisor, a: Action)
    requires
        s.wf(),
        s.phase == (Phase::Searching { listener }),
        s.step(Event::SearchFinished(None), t, a),
    ensures
        t.phase == Phase::Failed,
        a == Action::Abort(BindError::Exhausted { listener, port: requested_port(&s.config, listener) }),
        !(a is Bind),
{
}

/// Once both listeners run, either one stopping stops both and ends the
/// supervisor, in `Failed` when the stop was a failure; after that no event
/// starts anything again.
pub proof fn lemma_listeners_stop_together(s: &Supervisor, failed: bool, t: &Supervisor, a: Action, ev: Event, u: &Supervisor, b: Action)
    requires
        s.wf(),
        s.phase == Phase::Running,
        s.step(Event::ListenerStopped { failed }, t, a),
        t.step(ev, u, b),
    ensures
        a == Action::StopAll,
        failed ==> t.phase == Phase::Failed,
        !failed ==> t.phase == Phase::Terminated,
        u.phase == t.phase,
        b == Action::Ignore,
{
}

} // verus!
