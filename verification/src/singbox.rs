use crate::config::SingBoxConfig;
use crate::settings::AppSettings;
use crate::subscriptions::{find_node, find_node_by_id, Subscription};
use crate::synthesis::{generate_singbox_config, synthesized, RoutingMode};
use crate::system_proxy::{
    cleared_proxy, disable_system_proxy, session_proxy, session_proxy_state, SystemProxyState,
    SystemProxyStateView,
};
use vstd::prelude::*;
use vstd::string::StringExecFns;

verus! {

/// Where the supervised engine stands in its life.
#[derive(Clone, Copy, Debug, PartialEq, Eq, Structural)]
pub enum SupervisorState {
    /// No engine, and none being started.
    Idle,
    /// An engine was asked for and has not yet passed its health check.
    Starting,
    /// The engine passed its health check.
    Running,
    /// The engine is being terminated.
    Stopping,
    /// The engine ended by itself after its health check.
    Crashed,
}

/// How far the host's proxy settings follow the session.
#[derive(Clone, Copy, Debug, PartialEq, Eq, Structural)]
pub enum ProxyPhase {
    /// The session has not set the host's proxy, or has cleared it.
    Clear,
    /// The host was asked to take the session's proxy and has not answered.
    Pending,
    /// The host uses the session's proxy.
    Engaged,
}

/// What a finished request reports when it did not fail.
#[derive(Clone, Copy, Debug, PartialEq, Eq, Structural)]
pub enum StatusMessage {
    Started,
    Stopped,
    /// A stop was asked for while nothing ran. This is no failure.
    NotRunning,
}

/// Why a request failed.
#[derive(Debug)]
pub enum SessionError {
    /// No configuration could be made for the request.
    Config(String),
    /// The engine could not be spawned, or ended before its health check
    /// passed. Holds what the engine or the host said.
    Launch(String),
    /// The host refused the proxy settings.
    Proxy(String),
    /// A start was asked for while a session was active.
    AlreadyRunning,
}

pub enum SessionErrorView {
    Config(Seq<char>),
    Launch(Seq<char>),
    Proxy(Seq<char>),
    AlreadyRunning,
}

impl DeepView for SessionError {
    type V = SessionErrorView;

    open spec fn deep_view(&self) -> SessionErrorView {
        match self {
            SessionError::Config(text) => SessionErrorView::Config(text@),
            SessionError::Launch(text) => SessionErrorView::Launch(text@),
            SessionError::Proxy(text) => SessionErrorView::Proxy(text@),
            SessionError::AlreadyRunning => SessionErrorView::AlreadyRunning,
        }
    }
}

impl View for SessionError {
    type V = SessionErrorView;

    open spec fn view(&self) -> SessionErrorView {
        self.deep_view()
    }
}

/// What happened outside, as the host reports it to the session.
#[derive(Debug)]
pub enum SessionEvent {
    /// A session is asked for, in the given mode and on the given listen port.
    StartRequested { mode: RoutingMode, port: u16 },
    /// The engine could not be spawned. Holds the reason.
    SpawnFailed(String),
    /// The engine ended. Holds its captured error output.
    Exited(String),
    /// The engine was alive when the grace period ended.
    Alive,
    /// The host took the proxy settings it was given.
    ProxyApplied,
    /// The host refused the proxy settings it was given. Holds the reason.
    ProxyFailed(String),
    /// The end of the session is asked for.
    StopRequested,
    /// The engine's handle confirmed the termination.
    KillConfirmed,
    /// The engine's handle did not confirm the termination.
    KillUnconfirmed,
    /// The handle of an engine that ended by itself was released.
    Reaped,
}

pub enum SessionEventView {
    StartRequested { mode: RoutingMode, port: u16 },
    SpawnFailed(Seq<char>),
    Exited(Seq<char>),
    Alive,
    ProxyApplied,
    ProxyFailed(Seq<char>),
    StopRequested,
    KillConfirmed,
    KillUnconfirmed,
    Reaped,
}

impl DeepView for SessionEvent {
    type V = SessionEventView;

    open spec fn deep_view(&self) -> SessionEventView {
        match self {
            SessionEvent::StartRequested { mode, port } => SessionEventView::StartRequested {
                mode: *mode,
                port: *port,
            },
            SessionEvent::SpawnFailed(text) => SessionEventView::SpawnFailed(text@),
            SessionEvent::Exited(text) => SessionEventView::Exited(text@),
            SessionEvent::Alive => SessionEventView::Alive,
            SessionEvent::ProxyApplied => SessionEventView::ProxyApplied,
            SessionEvent::ProxyFailed(text) => SessionEventView::ProxyFailed(text@),
            SessionEvent::StopRequested => SessionEventView::StopRequested,
            SessionEvent::KillConfirmed => SessionEventView::KillConfirmed,
            SessionEvent::KillUnconfirmed => SessionEventView::KillUnconfirmed,
            SessionEvent::Reaped => SessionEventView::Reaped,
        }
    }
}

impl View for SessionEvent {
    type V = SessionEventView;

    open spec fn view(&self) -> SessionEventView {
        self.deep_view()
    }
}

/// What the host has to do for the session, one thing at a time.
#[derive(Debug)]
pub enum SessionAction {
    /// Spawn the engine on the session's configuration, wait the grace
    /// period, and report `Alive`, `Exited` or `SpawnFailed`.
    Spawn,
    /// Write this state over the host's proxy settings and tell running
    /// programs that the settings changed. For a state that is enabled,
    /// report `ProxyApplied` or `ProxyFailed`.
    SetProxy(SystemProxyState),
    /// Terminate the engine through its handle, release the handle, and
    /// report `KillConfirmed` or `KillUnconfirmed`.
    Kill,
    /// Terminate by force every process that runs the engine's image.
    Sweep,
    /// Tell the observers that the engine ended. Holds the detail.
    Notify(String),
}

pub enum SessionActionView {
    Spawn,
    SetProxy(SystemProxyStateView),
    Kill,
    Sweep,
    Notify(Seq<char>),
}

impl DeepView for SessionAction {
    type V = SessionActionView;

    open spec fn deep_view(&self) -> SessionActionView {
        match self {
            SessionAction::Spawn => SessionActionView::Spawn,
            SessionAction::SetProxy(state) => SessionActionView::SetProxy(state@),
            SessionAction::Kill => SessionActionView::Kill,
            SessionAction::Sweep => SessionActionView::Sweep,
            SessionAction::Notify(text) => SessionActionView::Notify(text@),
        }
    }
}

impl View for SessionAction {
    type V = SessionActionView;

    open spec fn view(&self) -> SessionActionView {
        self.deep_view()
    }
}

/// The answer of the session to one event: what the host does next, in this
/// order, and what the pending request reports, if it is finished.
#[derive(Debug)]
pub struct Plan {
    pub actions: Vec<SessionAction>,
    pub reply: Option<Result<StatusMessage, SessionError>>,
}

pub struct PlanView {
    pub actions: Seq<SessionActionView>,
    pub reply: Option<Result<StatusMessage, SessionErrorView>>,
}

pub open spec fn reply_view(reply: Option<Result<StatusMessage, SessionError>>) -> Option<
    Result<StatusMessage, SessionErrorView>,
> {
    match reply {
        None => None,
        Some(Ok(status)) => Some(Ok(status)),
        Some(Err(error)) => Some(Err(error@)),
    }
}

impl DeepView for Plan {
    type V = PlanView;

    open spec fn deep_view(&self) -> PlanView {
        PlanView { actions: self.actions.deep_view(), reply: reply_view(self.reply) }
    }
}

impl View for Plan {
    type V = PlanView;

    open spec fn view(&self) -> PlanView {
        self.deep_view()
    }
}

/// The session as the laws see it.
pub struct SessionView {
    pub phase: SupervisorState,
    pub proxy: ProxyPhase,
    /// Mode of the latest session.
    pub mode: RoutingMode,
    /// Listen port of the latest session.
    pub port: u16,
    /// The proxy failure that is reported once the engine is terminated.
    pub failure: Option<Seq<char>>,
}

impl SessionView {
    /// The session that has never run.
    pub open spec fn fresh() -> SessionView {
        SessionView {
            phase: SupervisorState::Idle,
            proxy: ProxyPhase::Clear,
            mode: RoutingMode::Global,
            port: 0,
            failure: None,
        }
    }

    /// The host's proxy follows the session only while the engine runs, and a
    /// failure waits to be reported only while the engine is terminated.
    pub open spec fn valid(self) -> bool {
        &&& self.proxy != ProxyPhase::Clear ==> self.phase == SupervisorState::Running
        &&& self.failure is Some ==> self.phase == SupervisorState::Stopping
    }

    /// An engine handle may exist: one was asked for and has not been given up.
    pub open spec fn holds_engine(self) -> bool {
        self.phase != SupervisorState::Idle
    }

    /// This session with the engine gone and nothing pending.
    pub open spec fn at_rest(self) -> SessionView {
        SessionView {
            phase: SupervisorState::Idle,
            proxy: ProxyPhase::Clear,
            failure: None,
            ..self
        }
    }

    /// This session with its engine being terminated.
    pub open spec fn winding_down(self, failure: Option<Seq<char>>) -> SessionView {
        SessionView { phase: SupervisorState::Stopping, proxy: ProxyPhase::Clear, failure, ..self }
    }
}

/// A session after one event, with the plan it answers.
pub struct Step {
    pub next: SessionView,
    pub plan: PlanView,
}

/// The step that changes nothing, asks for nothing and reports nothing.
pub open spec fn ignored(session: SessionView) -> Step {
    Step { next: session, plan: PlanView { actions: seq![], reply: None } }
}

/// The first half of every teardown: the host's proxy is cleared, and only
/// then is the engine terminated.
pub open spec fn teardown() -> Seq<SessionActionView> {
    seq![SessionActionView::SetProxy(cleared_proxy()), SessionActionView::Kill]
}

/// What a stop reports once the engine is gone: the proxy failure that
/// caused it, or that the session stopped.
pub open spec fn stop_reply(failure: Option<Seq<char>>) -> Result<
    StatusMessage,
    SessionErrorView,
> {
    match failure {
        Some(reason) => Err(SessionErrorView::Proxy(reason)),
        None => Ok(StatusMessage::Stopped),
    }
}

/// The decisions of the session: the next state, what the host does and
/// what is reported, for every state and event.
///
/// A start is taken only at rest. An engine that ends before its health
/// check is a failed launch and leaves the host's proxy alone; one that ends
/// later has crashed. The host's proxy is set after every health check that
/// passed, whatever the mode, and a refusal there ends the session.
/// Every termination clears the host's proxy first. A stop at rest sweeps
/// for an engine left behind by an earlier run and reports that nothing
/// ran. An event that does not fit the state is ignored.
pub open spec fn step_model(session: SessionView, event: SessionEventView) -> Step {
    match event {
        SessionEventView::StartRequested { mode, port } => {
            if session.phase == SupervisorState::Idle {
                Step {
                    next: SessionView {
                        phase: SupervisorState::Starting,
                        proxy: ProxyPhase::Clear,
                        mode,
                        port,
                        failure: None,
                    },
                    plan: PlanView { actions: seq![SessionActionView::Spawn], reply: None },
                }
            } else {
                Step {
                    next: session,
                    plan: PlanView {
                        actions: seq![],
                        reply: Some(Err(SessionErrorView::AlreadyRunning)),
                    },
                }
            }
        },
        SessionEventView::SpawnFailed(reason) => {
            if session.phase == SupervisorState::Starting {
                Step {
                    next: session.at_rest(),
                    plan: PlanView {
                        actions: seq![],
                        reply: Some(Err(SessionErrorView::Launch(reason))),
                    },
                }
            } else {
                ignored(session)
            }
        },
        SessionEventView::Exited(output) => {
            if session.phase == SupervisorState::Starting {
                Step {
                    next: session.at_rest(),
                    plan: PlanView {
                        actions: seq![],
                        reply: Some(Err(SessionErrorView::Launch(output))),
                    },
                }
            } else if session.phase == SupervisorState::Running {
                Step {
                    next: SessionView {
                        phase: SupervisorState::Crashed,
                        proxy: ProxyPhase::Clear,
                        failure: None,
                        ..session
                    },
                    plan: PlanView {
                        actions: seq![
                            SessionActionView::SetProxy(cleared_proxy()),
                            SessionActionView::Notify(output),
                        ],
                        reply: None,
                    },
                }
            } else {
                ignored(session)
            }
        },
        SessionEventView::Alive => {
            if session.phase != SupervisorState::Starting {
                ignored(session)
            } else {
                Step {
                    next: SessionView {
                        phase: SupervisorState::Running,
                        proxy: ProxyPhase::Pending,
                        ..session
                    },
                    plan: PlanView {
                        actions: seq![SessionActionView::SetProxy(session_proxy(session.port))],
                        reply: None,
                    },
                }
            }
        },
        SessionEventView::ProxyApplied => {
            if session.phase == SupervisorState::Running && session.proxy == ProxyPhase::Pending {
                Step {
                    next: SessionView { proxy: ProxyPhase::Engaged, ..session },
                    plan: PlanView { actions: seq![], reply: Some(Ok(StatusMessage::Started)) },
                }
            } else {
                ignored(session)
            }
        },
        SessionEventView::ProxyFailed(reason) => {
            if session.phase == SupervisorState::Running && session.proxy == ProxyPhase::Pending {
                Step {
                    next: session.winding_down(Some(reason)),
                    plan: PlanView { actions: teardown(), reply: None },
                }
            } else {
                ignored(session)
            }
        },
        SessionEventView::StopRequested => {
            match session.phase {
                SupervisorState::Idle | SupervisorState::Crashed => Step {
                    next: session.at_rest(),
                    plan: PlanView {
                        actions: seq![
                            SessionActionView::SetProxy(cleared_proxy()),
                            SessionActionView::Sweep,
                        ],
                        reply: Some(Ok(StatusMessage::NotRunning)),
                    },
                },
                SupervisorState::Starting | SupervisorState::Running => Step {
                    next: session.winding_down(None),
                    plan: PlanView { actions: teardown(), reply: None },
                },
                SupervisorState::Stopping => Step {
                    next: session,
                    plan: PlanView { actions: teardown(), reply: None },
                },
            }
        },
        SessionEventView::KillConfirmed => {
            if session.phase == SupervisorState::Stopping {
                Step {
                    next: session.at_rest(),
                    plan: PlanView { actions: seq![], reply: Some(stop_reply(session.failure)) },
                }
            } else {
                ignored(session)
            }
        },
        SessionEventView::KillUnconfirmed => {
            if session.phase == SupervisorState::Stopping {
                Step {
                    next: session.at_rest(),
                    plan: PlanView {
                        actions: seq![SessionActionView::Sweep],
                        reply: Some(stop_reply(session.failure)),
                    },
                }
            } else {
                ignored(session)
            }
        },
        SessionEventView::Reaped => {
            if session.phase == SupervisorState::Crashed {
                Step { next: session.at_rest(), plan: PlanView { actions: seq![], reply: None } }
            } else {
                ignored(session)
            }
        },
    }
}

/// The single slot that holds the session.
///
/// The host keeps the engine's handle beside it, under one lock, and hands
/// every outside event to [`SingBoxState::step`]. The slot says what may be
/// done; a start is taken only while it is at rest, so a second engine is
/// never spawned over a live one.
#[derive(Debug)]
pub struct SingBoxState {
    phase: SupervisorState,
    proxy: ProxyPhase,
    mode: RoutingMode,
    port: u16,
    failure: Option<String>,
}

impl View for SingBoxState {
    type V = SessionView;

    closed spec fn view(&self) -> SessionView {
        SessionView {
            phase: self.phase,
            proxy: self.proxy,
            mode: self.mode,
            port: self.port,
            failure: self.failure.deep_view(),
        }
    }
}

fn no_actions() -> (actions: Vec<SessionAction>)
    ensures
        actions.deep_view() == Seq::<SessionActionView>::empty(),
{
    let actions: Vec<SessionAction> = Vec::new();
    assert(actions.deep_view() =~= Seq::<SessionActionView>::empty());
    actions
}

fn one_action(action: SessionAction) -> (actions: Vec<SessionAction>)
    ensures
        actions.deep_view() == seq![action@],
{
    let mut actions: Vec<SessionAction> = Vec::new();
    actions.push(action);
    assert(actions.deep_view() =~= seq![action@]);
    actions
}

fn two_actions(first: SessionAction, second: SessionAction) -> (actions: Vec<SessionAction>)
    ensures
        actions.deep_view() == seq![first@, second@],
{
    let mut actions: Vec<SessionAction> = Vec::new();
    actions.push(first);
    actions.push(second);
    assert(actions.deep_view() =~= seq![first@, second@]);
    actions
}

fn teardown_actions() -> (actions: Vec<SessionAction>)
    ensures
        actions.deep_view() == teardown(),
{
    two_actions(SessionAction::SetProxy(disable_system_proxy()), SessionAction::Kill)
}

fn silent_plan() -> (plan: Plan)
    ensures
        plan@ == (PlanView { actions: seq![], reply: None }),
{
    Plan { actions: no_actions(), reply: None }
}

impl SingBoxState {
    #[verifier::type_invariant]
    spec fn well_formed(self) -> bool {
        self@.valid()
    }

    /// A slot at rest that has never held a session.
    pub fn new() -> (slot: Self)
        ensures
            slot@ == SessionView::fresh(),
    {
        SingBoxState {
            phase: SupervisorState::Idle,
            proxy: ProxyPhase::Clear,
            mode: RoutingMode::Global,
            port: 0,
            failure: None,
        }
    }

    pub fn state(&self) -> (phase: SupervisorState)
        ensures
            phase == self@.phase,
            self@.valid(),
    {
        proof {
            use_type_invariant(self);
        }
        self.phase
    }

    pub fn proxy_phase(&self) -> (proxy: ProxyPhase)
        ensures
            proxy == self@.proxy,
            self@.valid(),
    {
        proof {
            use_type_invariant(self);
        }
        self.proxy
    }

    /// Mode of the latest session.
    pub fn mode(&self) -> (mode: RoutingMode)
        ensures
            mode == self@.mode,
    {
        self.mode
    }

    /// Listen port of the latest session.
    pub fn port(&self) -> (port: u16)
        ensures
            port == self@.port,
    {
        self.port
    }

    fn rest(&mut self)
        ensures
            final(self)@ == old(self)@.at_rest(),
    {
        proof {
            use_type_invariant(&*self);
        }
        self.failure = None;
        self.proxy = ProxyPhase::Clear;
        self.phase = SupervisorState::Idle;
    }

    fn wind_down(&mut self, failure: Option<String>)
        ensures
            final(self)@ == old(self)@.winding_down(failure.deep_view()),
    {
        proof {
            use_type_invariant(&*self);
        }
        self.proxy = ProxyPhase::Clear;
        self.phase = SupervisorState::Stopping;
        self.failure = failure;
    }

    fn stop_outcome(&mut self) -> (reply: Result<StatusMessage, SessionError>)
        requires
            old(self)@.phase == SupervisorState::Stopping,
        ensures
            final(self)@ == old(self)@.at_rest(),
            reply_view(Some(reply)) == Some(stop_reply(old(self)@.failure)),
    {
        proof {
            use_type_invariant(&*self);
        }
        let failure = self.failure.clone();
        self.failure = None;
        self.phase = SupervisorState::Idle;
        self.proxy = ProxyPhase::Clear;
        match failure {
            Some(reason) => Err(SessionError::Proxy(reason)),
            None => Ok(StatusMessage::Stopped),
        }
    }

    /// Takes one event and answers with the plan for it, as [`step_model`]
    /// decides.
    pub fn step(&mut self, event: SessionEvent) -> (plan: Plan)
        ensures
            final(self)@ == step_model(old(self)@, event@).next,
            plan@ == step_model(old(self)@, event@).plan,
            old(self)@.valid(),
            final(self)@.valid(),
    {
        proof {
            use_type_invariant(&*self);
        }
        match event {
            SessionEvent::StartRequested { mode, port } => {
                if self.phase == SupervisorState::Idle {
                    self.failure = None;
                    self.proxy = ProxyPhase::Clear;
                    self.mode = mode;
                    self.port = port;
                    self.phase = SupervisorState::Starting;
                    Plan { actions: one_action(SessionAction::Spawn), reply: None }
                } else {
                    Plan { actions: no_actions(), reply: Some(Err(SessionError::AlreadyRunning)) }
                }
            },
            SessionEvent::SpawnFailed(reason) => {
                if self.phase == SupervisorState::Starting {
                    self.rest();
                    Plan { actions: no_actions(), reply: Some(Err(SessionError::Launch(reason))) }
                } else {
                    silent_plan()
                }
            },
            SessionEvent::Exited(output) => {
                if self.phase == SupervisorState::Starting {
                    self.rest();
                    Plan { actions: no_actions(), reply: Some(Err(SessionError::Launch(output))) }
                } else if self.phase == SupervisorState::Running {
                    self.failure = None;
                    self.proxy = ProxyPhase::Clear;
                    self.phase = SupervisorState::Crashed;
                    Plan {
                        actions: two_actions(
                            SessionAction::SetProxy(disable_system_proxy()),
                            SessionAction::Notify(output),
                        ),
                        reply: None,
                    }
                } else {
                    silent_plan()
                }
            },
            SessionEvent::Alive => {
                if self.phase != SupervisorState::Starting {
                    silent_plan()
                } else {
                    self.phase = SupervisorState::Running;
                    self.proxy = ProxyPhase::Pending;
                    Plan {
                        actions: one_action(SessionAction::SetProxy(session_proxy_state(self.port))),
                        reply: None,
                    }
                }
            },
            SessionEvent::ProxyApplied => {
                if self.phase == SupervisorState::Running && self.proxy == ProxyPhase::Pending {
                    self.proxy = ProxyPhase::Engaged;
                    Plan { actions: no_actions(), reply: Some(Ok(StatusMessage::Started)) }
                } else {
                    silent_plan()
                }
            },
            SessionEvent::ProxyFailed(reason) => {
                if self.phase == SupervisorState::Running && self.proxy == ProxyPhase::Pending {
                    self.wind_down(Some(reason));
                    Plan { actions: teardown_actions(), reply: None }
                } else {
                    silent_plan()
                }
            },
            SessionEvent::StopRequested => {
                match self.phase {
                    SupervisorState::Idle | SupervisorState::Crashed => {
                        self.rest();
                        Plan {
                            actions: two_actions(
                                SessionAction::SetProxy(disable_system_proxy()),
                                SessionAction::Sweep,
                            ),
                            reply: Some(Ok(StatusMessage::NotRunning)),
                        }
                    },
                    SupervisorState::Starting | SupervisorState::Running => {
                        self.wind_down(None);
                        Plan { actions: teardown_actions(), reply: None }
                    },
                    SupervisorState::Stopping => Plan {
                        actions: teardown_actions(),
                        reply: None,
                    },
                }
            },
            SessionEvent::KillConfirmed => {
                if self.phase == SupervisorState::Stopping {
                    let reply = self.stop_outcome();
                    Plan { actions: no_actions(), reply: Some(reply) }
                } else {
                    silent_plan()
                }
            },
            SessionEvent::KillUnconfirmed => {
                if self.phase == SupervisorState::Stopping {
                    let reply = self.stop_outcome();
                    Plan { actions: one_action(SessionAction::Sweep), reply: Some(reply) }
                } else {
                    silent_plan()
                }
            },
            SessionEvent::Reaped => {
                if self.phase == SupervisorState::Crashed {
                    self.rest();
                    silent_plan()
                } else {
                    silent_plan()
                }
            },
        }
    }
}

/// How long the host waits after spawning the engine before it looks
/// whether the engine is still alive, in milliseconds. This is a heuristic:
/// an engine that needs longer to fail is taken for healthy.
pub const GRACE_PERIOD_MS: u64 = 500;

/// What a start request that was taken hands to the host: the engine's
/// configuration, to be written where the engine reads it, and the plan to
/// carry out.
#[derive(Debug)]
pub struct Launch {
    pub config: SingBoxConfig,
    pub plan: Plan,
}

/// What a failed start says when no subscription holds the node asked for.
pub open spec fn node_missing_text() -> Seq<char> {
    "未找到该节点"@
}

/// The arguments the engine is spawned with for the configuration at
/// `config_path`.
pub fn engine_arguments(config_path: &str) -> (arguments: Vec<String>)
    ensures
        arguments.deep_view() == seq!["run"@, "-c"@, config_path@],
{
    let mut arguments: Vec<String> = Vec::new();
    arguments.push("run".to_string());
    arguments.push("-c".to_string());
    arguments.push(config_path.to_string());
    assert(arguments.deep_view() =~= seq!["run"@, "-c"@, config_path@]);
    arguments
}

/// Takes a start request.
///
/// A slot that is not at rest refuses it and stays as it is. Otherwise the
/// node is looked up; without it the request fails and the slot stays at
/// rest. With it the slot begins to start, and the result is the
/// configuration for the engine with the plan that has the host spawn it.
pub fn start_singbox(
    slot: &mut SingBoxState,
    subscriptions: &[Subscription],
    settings: &AppSettings,
    node_id: &str,
    mode: &str,
) -> (outcome: Result<Launch, SessionError>)
    ensures
        final(slot)@.valid(),
        old(slot)@.phase != SupervisorState::Idle ==> {
            &&& outcome matches Err(error)
            &&& error@ == SessionErrorView::AlreadyRunning
            &&& final(slot)@ == old(slot)@
        },
        old(slot)@.phase == SupervisorState::Idle && find_node(
            subscriptions.deep_view(),
            node_id@,
        ) is None ==> {
            &&& outcome matches Err(error)
            &&& error@ == SessionErrorView::Config(node_missing_text())
            &&& final(slot)@ == old(slot)@
        },
        old(slot)@.phase == SupervisorState::Idle && find_node(
            subscriptions.deep_view(),
            node_id@,
        ) is Some ==> {
            &&& outcome matches Ok(launch)
            &&& launch.plan@ == (PlanView { actions: seq![SessionActionView::Spawn], reply: None })
            &&& launch.config@ == synthesized(
                find_node(subscriptions.deep_view(), node_id@)->0,
                RoutingMode::named(mode@),
                settings@.mixed_port,
                settings@.whitelist,
                settings@.allow_lan,
            )
            &&& final(slot)@ == step_model(
                old(slot)@,
                SessionEventView::StartRequested {
                    mode: RoutingMode::named(mode@),
                    port: settings@.mixed_port,
                },
            ).next
        },
{
    match slot.state() {
        SupervisorState::Idle => {},
        _ => {
            return Err(SessionError::AlreadyRunning);
        },
    }
    let node = match find_node_by_id(subscriptions, node_id) {
        Some(node) => node,
        None => {
            return Err(SessionError::Config("未找到该节点".to_string()));
        },
    };
    let config = generate_singbox_config(
        &node,
        mode,
        settings.mixed_port,
        settings.whitelist.as_slice(),
        settings.allow_lan,
    );
    let plan = slot.step(
        SessionEvent::StartRequested {
            mode: RoutingMode::from_name(mode),
            port: settings.mixed_port,
        },
    );
    Ok(Launch { config, plan })
}

/// Takes a stop request: the plan of [`SingBoxState::step`] for it.
///
/// The plan always begins by clearing the host's proxy. At rest it reports
/// that nothing ran, however often it is asked.
pub fn stop_singbox(slot: &mut SingBoxState) -> (plan: Plan)
    ensures
        final(slot)@ == step_model(old(slot)@, SessionEventView::StopRequested).next,
        plan@ == step_model(old(slot)@, SessionEventView::StopRequested).plan,
        final(slot)@.valid(),
{
    slot.step(SessionEvent::StopRequested)
}

/// What a status says to the user.
pub open spec fn status_text(status: StatusMessage) -> Seq<char> {
    match status {
        StatusMessage::Started => "启动成功"@,
        StatusMessage::Stopped => "已停止"@,
        StatusMessage::NotRunning => "未运行"@,
    }
}

/// What an error says to the user: the text it holds, word for word, or
/// for a refused start that the engine is already running.
pub open spec fn error_text(error: SessionErrorView) -> Seq<char> {
    match error {
        SessionErrorView::Config(text) => text,
        SessionErrorView::Launch(text) => text,
        SessionErrorView::Proxy(text) => text,
        SessionErrorView::AlreadyRunning => "Sing-box 已经在运行中"@,
    }
}

impl StatusMessage {
    pub fn text(&self) -> (text: String)
        ensures
            text@ == status_text(*self),
    {
        match self {
            StatusMessage::Started => "启动成功".to_string(),
            StatusMessage::Stopped => "已停止".to_string(),
            StatusMessage::NotRunning => "未运行".to_string(),
        }
    }
}

impl SessionError {
    pub fn message(&self) -> (text: String)
        ensures
            text@ == error_text(self@),
    {
        match self {
            SessionError::Config(text) => text.clone(),
            SessionError::Launch(text) => text.clone(),
            SessionError::Proxy(text) => text.clone(),
            SessionError::AlreadyRunning => "Sing-box 已经在运行中".to_string(),
        }
    }
}

/// Where a line of the engine's output came from.
#[derive(Clone, Copy, Debug, PartialEq, Eq, Structural)]
pub enum LogSource {
    Stdout,
    Stderr,
}

/// What the engine's process gave: a line of output, a failure of its
/// pipes, or its end with the exit code, if it had one.
#[derive(Debug)]
pub enum EngineOutput {
    Stdout(String),
    Stderr(String),
    Error(String),
    Terminated(Option<i32>),
}

pub enum EngineOutputView {
    Stdout(Seq<char>),
    Stderr(Seq<char>),
    Error(Seq<char>),
    Terminated(Option<i32>),
}

impl DeepView for EngineOutput {
    type V = EngineOutputView;

    open spec fn deep_view(&self) -> EngineOutputView {
        match self {
            EngineOutput::Stdout(line) => EngineOutputView::Stdout(line@),
            EngineOutput::Stderr(line) => EngineOutputView::Stderr(line@),
            EngineOutput::Error(reason) => EngineOutputView::Error(reason@),
            EngineOutput::Terminated(code) => EngineOutputView::Terminated(*code),
        }
    }
}

impl View for EngineOutput {
    type V = EngineOutputView;

    open spec fn view(&self) -> EngineOutputView {
        self.deep_view()
    }
}

/// What the observers are told: a log line with its source, or that the
/// engine ended. The two go out under different event names.
#[derive(Debug)]
pub enum Broadcast {
    Log { source: LogSource, line: String },
    Stopped(String),
}

pub enum BroadcastView {
    Log { source: LogSource, line: Seq<char> },
    Stopped(Seq<char>),
}

impl DeepView for Broadcast {
    type V = BroadcastView;

    open spec fn deep_view(&self) -> BroadcastView {
        match self {
            Broadcast::Log { source, line } => BroadcastView::Log { source: *source, line: line@ },
            Broadcast::Stopped(detail) => BroadcastView::Stopped(detail@),
        }
    }
}

impl View for Broadcast {
    type V = BroadcastView;

    open spec fn view(&self) -> BroadcastView {
        self.deep_view()
    }
}

/// What the observers are told of one output of the engine. Lines are
/// passed on as they are, in the order they come; a failure and the end of
/// the process are both the end of the engine.
pub open spec fn forwarded(output: EngineOutputView) -> BroadcastView {
    match output {
        EngineOutputView::Stdout(line) => BroadcastView::Log { source: LogSource::Stdout, line },
        EngineOutputView::Stderr(line) => BroadcastView::Log { source: LogSource::Stderr, line },
        EngineOutputView::Error(reason) => BroadcastView::Stopped("Core Error: "@ + reason),
        EngineOutputView::Terminated(_) => BroadcastView::Stopped("Core Terminated"@),
    }
}

/// The name of the event under which a broadcast goes out.
pub open spec fn event_name(broadcast: BroadcastView) -> Seq<char> {
    match broadcast {
        BroadcastView::Log { .. } => "singbox-log"@,
        BroadcastView::Stopped(_) => "singbox-stopped"@,
    }
}

/// Decides what the observers are told of one output of the engine.
pub fn forward(output: EngineOutput) -> (broadcast: Broadcast)
    ensures
        broadcast@ == forwarded(output@),
{
    match output {
        EngineOutput::Stdout(line) => Broadcast::Log { source: LogSource::Stdout, line },
        EngineOutput::Stderr(line) => Broadcast::Log { source: LogSource::Stderr, line },
        EngineOutput::Error(reason) => Broadcast::Stopped(
            "Core Error: ".to_string().concat(reason.as_str()),
        ),
        EngineOutput::Terminated(_) => Broadcast::Stopped("Core Terminated".to_string()),
    }
}

impl Broadcast {
    /// The name of the event under which this broadcast goes out.
    pub fn event(&self) -> (name: &'static str)
        ensures
            name@ == event_name(self@),
    {
        match self {
            Broadcast::Log { .. } => "singbox-log",
            Broadcast::Stopped(_) => "singbox-stopped",
        }
    }
}

/// Whether the end of the engine stands among `outputs`: a failure of its
/// pipes or the end of its process.
pub open spec fn ended(outputs: Seq<EngineOutputView>) -> bool {
    exists|i: int|
        0 <= i < outputs.len() && ((#[trigger] outputs[i]) is Error || outputs[i] is Terminated)
}

/// What `outputs` say of a failure, in their order: each line of error
/// output with a line feed after it, and the reason of each failure.
pub open spec fn diagnostics(outputs: Seq<EngineOutputView>) -> Seq<char>
    decreases outputs.len(),
{
    if outputs.len() == 0 {
        Seq::empty()
    } else {
        let before = diagnostics(outputs.drop_last());
        match outputs.last() {
            EngineOutputView::Stderr(line) => before + line + "\n"@,
            EngineOutputView::Error(reason) => before + reason,
            _ => before,
        }
    }
}

/// What the health check reports of the outputs that the engine gave
/// within the grace period: its end, with the diagnostics, if it ended, and
/// that it is alive otherwise.
pub open spec fn startup_model(outputs: Seq<EngineOutputView>) -> SessionEventView {
    if ended(outputs) {
        SessionEventView::Exited(diagnostics(outputs))
    } else {
        SessionEventView::Alive
    }
}

/// Decides the health check from what the engine gave within the grace
/// period.
pub fn startup_event(outputs: &[EngineOutput]) -> (event: SessionEvent)
    ensures
        event@ == startup_model(outputs.deep_view()),
{
    let ghost all = outputs.deep_view();
    let mut text = String::new();
    let mut is_ended = false;
    let mut i: usize = 0;
    assert(all.take(0) =~= Seq::<EngineOutputView>::empty());
    while i < outputs.len()
        invariant
            i <= outputs.len(),
            all == outputs.deep_view(),
            text@ == diagnostics(all.take(i as int)),
            is_ended == ended(all.take(i as int)),
        decreases outputs.len() - i,
    {
        proof {
            let head = all.take(i + 1);
            assert(head.last() == outputs@[i as int]@);
            assert(head.drop_last() =~= all.take(i as int));
            if ended(all.take(i as int)) {
                let k = choose|k: int|
                    0 <= k < i && ((#[trigger] all.take(i as int)[k]) is Error || all.take(
                        i as int,
                    )[k] is Terminated);
                assert(head[k] == all.take(i as int)[k]);
            }
            if ended(head) && !(head.last() is Error || head.last() is Terminated) {
                let k = choose|k: int|
                    0 <= k < i + 1 && ((#[trigger] head[k]) is Error || head[k] is Terminated);
                assert(all.take(i as int)[k] == head[k]);
            }
            if head.last() is Error || head.last() is Terminated {
                assert(head[i as int] == head.last());
            }
        }
        match &outputs[i] {
            EngineOutput::Stderr(line) => {
                text.append(line.as_str());
                text.append("\n");
            },
            EngineOutput::Error(reason) => {
                text.append(reason.as_str());
                is_ended = true;
            },
            EngineOutput::Terminated(_) => {
                is_ended = true;
            },
            EngineOutput::Stdout(_) => {},
        }
        i += 1;
    }
    assert(all.take(outputs.len() as int) =~= all);
    if is_ended {
        SessionEvent::Exited(text)
    } else {
        SessionEvent::Alive
    }
}

} // verus!
