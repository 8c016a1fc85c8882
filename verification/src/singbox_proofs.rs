use crate::singbox::{
    event_name, forwarded, step_model, teardown, EngineOutputView, PlanView, ProxyPhase, SessionActionView, SessionErrorView,
    SessionEventView, SessionView, StatusMessage, SupervisorState,
};
use crate::synthesis::RoutingMode;
use crate::system_proxy::{cleared_proxy, session_proxy};
use vstd::prelude::*;

verus! {

/// The session after a run of events, taken one after the other.
pub open spec fn run(session: SessionView, events: Seq<SessionEventView>) -> SessionView
    decreases events.len(),
{
    if events.len() == 0 {
        session
    } else {
        step_model(run(session, events.drop_last()), events.last()).next
    }
}

/// The session after `count` stop requests in a row.
pub open spec fn after_stops(session: SessionView, count: nat) -> SessionView
    decreases count,
{
    if count == 0 {
        session
    } else {
        step_model(after_stops(session, (count - 1) as nat), SessionEventView::StopRequested).next
    }
}

/// No event leads a valid session to one that is not valid.
pub proof fn lemma_step_keeps_valid(session: SessionView, event: SessionEventView)
    requires
        session.valid(),
    ensures
        step_model(session, event).next.valid(),
{
}

/// Whatever the host reports, in whatever order, a session that began
/// fresh is valid: the host's proxy follows it only while the engine runs.
pub proof fn lemma_reachable_is_valid(events: Seq<SessionEventView>)
    ensures
        run(SessionView::fresh(), events).valid(),
        run(SessionView::fresh(), events).proxy != ProxyPhase::Clear ==> run(
            SessionView::fresh(),
            events,
        ).phase == SupervisorState::Running,
    decreases events.len(),
{
    if events.len() > 0 {
        lemma_reachable_is_valid(events.drop_last());
        lemma_step_keeps_valid(run(SessionView::fresh(), events.drop_last()), events.last());
    }
}

/// A start request that meets a session which is not at rest is refused
/// with the error for a running session, asks nothing of the host and
/// leaves the session as it was. So of two starts with no stop between
/// them, the second changes neither the engine nor the host's proxy.
pub proof fn lemma_start_refused_unless_at_rest(
    session: SessionView,
    mode: RoutingMode,
    port: u16,
)
    requires
        session.phase != SupervisorState::Idle,
    ensures
        step_model(session, SessionEventView::StartRequested { mode, port }).next == session,
        step_model(session, SessionEventView::StartRequested { mode, port }).plan == (PlanView {
            actions: seq![],
            reply: Some(Err(SessionErrorView::AlreadyRunning)),
        }),
{
}

/// After a start that went through, up to the engaged proxy, a second
/// start is refused and changes nothing.
pub proof fn lemma_second_start_refused(
    session: SessionView,
    mode: RoutingMode,
    port: u16,
    other_mode: RoutingMode,
    other_port: u16,
)
    requires
        session.valid(),
        session.phase == SupervisorState::Idle,
    ensures
        ({
            let starting = step_model(session, SessionEventView::StartRequested { mode, port }).next;
            let alive = step_model(starting, SessionEventView::Alive).next;
            let settled = step_model(alive, SessionEventView::ProxyApplied).next;
            let again = SessionEventView::StartRequested { mode: other_mode, port: other_port };
            let refused = PlanView {
                actions: seq![],
                reply: Some(Err(SessionErrorView::AlreadyRunning)),
            };
            &&& starting.phase == SupervisorState::Starting
            &&& step_model(starting, again).next == starting
            &&& step_model(starting, again).plan == refused
            &&& alive.phase == SupervisorState::Running
            &&& step_model(alive, again).next == alive
            &&& step_model(alive, again).plan == refused
            &&& settled.phase == SupervisorState::Running
            &&& alive.proxy == ProxyPhase::Pending
            &&& settled.proxy == ProxyPhase::Engaged
            &&& step_model(settled, again).next == settled
            &&& step_model(settled, again).plan == refused
        }),
{
}

/// An engine that ends within the grace period is a failed launch: the
/// request fails with the engine's output, word for word, the session is at
/// rest again, and from the request to the failure the host was asked for
/// nothing but the spawn, so its proxy was never touched.
pub proof fn lemma_early_exit_fails_launch(
    session: SessionView,
    mode: RoutingMode,
    port: u16,
    output: Seq<char>,
)
    requires
        session.valid(),
        session.phase == SupervisorState::Idle,
    ensures
        ({
            let begun = step_model(session, SessionEventView::StartRequested { mode, port });
            let ended = step_model(begun.next, SessionEventView::Exited(output));
            &&& begun.plan.actions == seq![SessionActionView::Spawn]
            &&& begun.plan.reply is None
            &&& ended.plan.actions.len() == 0
            &&& ended.plan.reply == Some(
                Err::<StatusMessage, SessionErrorView>(SessionErrorView::Launch(output)),
            )
            &&& ended.next.phase == SupervisorState::Idle
            &&& ended.next.proxy == ProxyPhase::Clear
        }),
{
}

/// When the host refuses the proxy after the engine passed its health
/// check, the session clears the host's proxy, terminates the engine, and
/// only then reports the refusal, with the host's reason. It ends at rest
/// with the proxy clear, whether or not the handle confirmed the
/// termination; without the confirmation the engine is swept as well.
pub proof fn lemma_proxy_refusal_rolls_back(
    session: SessionView,
    mode: RoutingMode,
    port: u16,
    reason: Seq<char>,
)
    requires
        session.valid(),
        session.phase == SupervisorState::Idle,
    ensures
        ({
            let starting = step_model(session, SessionEventView::StartRequested { mode, port }).next;
            let alive = step_model(starting, SessionEventView::Alive);
            let refused = step_model(alive.next, SessionEventView::ProxyFailed(reason));
            let confirmed = step_model(refused.next, SessionEventView::KillConfirmed);
            let unconfirmed = step_model(refused.next, SessionEventView::KillUnconfirmed);
            let failure = Some(
                Err::<StatusMessage, SessionErrorView>(SessionErrorView::Proxy(reason)),
            );
            &&& alive.next.phase == SupervisorState::Running
            &&& alive.plan.reply is None
            &&& refused.plan.actions == seq![
                SessionActionView::SetProxy(cleared_proxy()),
                SessionActionView::Kill,
            ]
            &&& refused.plan.reply is None
            &&& refused.next.phase == SupervisorState::Stopping
            &&& refused.next.proxy == ProxyPhase::Clear
            &&& confirmed.plan.reply == failure
            &&& confirmed.plan.actions.len() == 0
            &&& confirmed.next.phase == SupervisorState::Idle
            &&& confirmed.next.proxy == ProxyPhase::Clear
            &&& unconfirmed.plan.reply == failure
            &&& unconfirmed.plan.actions == seq![SessionActionView::Sweep]
            &&& unconfirmed.next.phase == SupervisorState::Idle
            &&& unconfirmed.next.proxy == ProxyPhase::Clear
        }),
{
}

/// A stop request at rest is no error: it reports that nothing ran, and the
/// session stays exactly as it was.
pub proof fn lemma_stop_at_rest(session: SessionView)
    requires
        session.valid(),
        session.phase == SupervisorState::Idle,
    ensures
        step_model(session, SessionEventView::StopRequested).next == session,
        step_model(session, SessionEventView::StopRequested).plan.reply == Some(
            Ok::<StatusMessage, SessionErrorView>(StatusMessage::NotRunning),
        ),
        step_model(session, SessionEventView::StopRequested).plan.actions == seq![
            SessionActionView::SetProxy(cleared_proxy()),
            SessionActionView::Sweep,
        ],
{
}

/// Any number of stop requests in a row at rest leave the session at rest
/// and unchanged, so each of them reports that nothing ran.
pub proof fn lemma_stop_at_rest_repeats(session: SessionView, count: nat)
    requires
        session.valid(),
        session.phase == SupervisorState::Idle,
    ensures
        after_stops(session, count) == session,
        step_model(after_stops(session, count), SessionEventView::StopRequested).plan.reply
            == Some(Ok::<StatusMessage, SessionErrorView>(StatusMessage::NotRunning)),
    decreases count,
{
    if count > 0 {
        lemma_stop_at_rest_repeats(session, (count - 1) as nat);
    }
    lemma_stop_at_rest(session);
}

/// A stop request always begins by clearing the host's proxy, whatever the
/// state, and it leaves no proxy engaged.
pub proof fn lemma_stop_clears_proxy_first(session: SessionView)
    ensures
        step_model(session, SessionEventView::StopRequested).plan.actions.len() == 2,
        step_model(session, SessionEventView::StopRequested).plan.actions[0]
            == SessionActionView::SetProxy(cleared_proxy()),
        session.valid() ==> step_model(session, SessionEventView::StopRequested).next.proxy
            == ProxyPhase::Clear,
{
}

/// The host is asked to spawn an engine only by a start request that meets
/// a session at rest; the session then leaves rest. As every other start is
/// refused, no engine is ever spawned while another may be alive.
pub proof fn lemma_spawn_only_at_rest(session: SessionView, event: SessionEventView, i: int)
    requires
        0 <= i < step_model(session, event).plan.actions.len(),
        step_model(session, event).plan.actions[i] == SessionActionView::Spawn,
    ensures
        session.phase == SupervisorState::Idle,
        event is StartRequested,
        step_model(session, event).next.phase == SupervisorState::Starting,
{
}

/// The host is asked to enable a proxy only when the engine has just
/// passed its health check, and then on the session's listen port.
pub proof fn lemma_proxy_enabled_only_after_health_check(
    session: SessionView,
    event: SessionEventView,
    i: int,
)
    requires
        0 <= i < step_model(session, event).plan.actions.len(),
        step_model(session, event).plan.actions[i] matches SessionActionView::SetProxy(state)
            && state.enabled,
    ensures
        session.phase == SupervisorState::Starting,
        event == SessionEventView::Alive,
        step_model(session, event).next.phase == SupervisorState::Running,
        step_model(session, event).next.proxy == ProxyPhase::Pending,
        step_model(session, event).plan.actions == seq![
            SessionActionView::SetProxy(session_proxy(session.port)),
        ],
{
}

/// Whenever the host is asked to terminate the engine through its handle,
/// the same plan has it clear the proxy first.
pub proof fn lemma_proxy_cleared_before_kill(
    session: SessionView,
    event: SessionEventView,
    i: int,
)
    requires
        0 <= i < step_model(session, event).plan.actions.len(),
        step_model(session, event).plan.actions[i] == SessionActionView::Kill,
    ensures
        i == 1,
        step_model(session, event).plan.actions == teardown(),
        step_model(session, event).plan.actions[0] == SessionActionView::SetProxy(
            cleared_proxy(),
        ),
{
}

/// An engine that ends after its health check has crashed: the host's
/// proxy is cleared, the observers are told with the engine's output, no
/// request is answered and nothing is spawned again.
pub proof fn lemma_crash_clears_and_notifies(session: SessionView, output: Seq<char>)
    requires
        session.phase == SupervisorState::Running,
    ensures
        ({
            let crashed = step_model(session, SessionEventView::Exited(output));
            &&& crashed.next.phase == SupervisorState::Crashed
            &&& crashed.next.proxy == ProxyPhase::Clear
            &&& crashed.plan.reply is None
            &&& crashed.plan.actions == seq![
                SessionActionView::SetProxy(cleared_proxy()),
                SessionActionView::Notify(output),
            ]
            &&& step_model(crashed.next, SessionEventView::Reaped).next.phase
                == SupervisorState::Idle
        }),
{
}

/// Log lines and the end of the engine go out under different event names,
/// and only a failure or the end of the process is told as the end of the
/// engine.
pub proof fn lemma_events_named_apart(output: EngineOutputView)
    ensures
        "singbox-log"@ != "singbox-stopped"@,
        event_name(forwarded(output)) == "singbox-stopped"@ <==> (output is Error
            || output is Terminated),
        event_name(forwarded(output)) == "singbox-log"@ <==> (output is Stdout
            || output is Stderr),
{
    reveal_strlit("singbox-log");
    reveal_strlit("singbox-stopped");
    assert("singbox-log"@.len() != "singbox-stopped"@.len());
}

/// A start on which everything succeeds, in any mode: the engine is
/// spawned, and once it passed its health check the host is asked exactly
/// once to take the proxy on the session's listen port. The start is
/// answered only when the host took it, and the session then runs with the
/// proxy engaged.
pub proof fn lemma_start_engages_proxy_once(session: SessionView, mode: RoutingMode, port: u16)
    requires
        session.valid(),
        session.phase == SupervisorState::Idle,
    ensures
        ({
            let begun = step_model(session, SessionEventView::StartRequested { mode, port });
            let alive = step_model(begun.next, SessionEventView::Alive);
            let applied = step_model(alive.next, SessionEventView::ProxyApplied);
            &&& begun.plan.actions == seq![SessionActionView::Spawn]
            &&& begun.plan.reply is None
            &&& alive.plan.actions == seq![SessionActionView::SetProxy(session_proxy(port))]
            &&& alive.plan.reply is None
            &&& alive.next.phase == SupervisorState::Running
            &&& applied.plan.actions.len() == 0
            &&& applied.plan.reply == Some(
                Ok::<StatusMessage, SessionErrorView>(StatusMessage::Started),
            )
            &&& applied.next.phase == SupervisorState::Running
            &&& applied.next.proxy == ProxyPhase::Engaged
            &&& applied.next.port == port
            &&& applied.next.mode == mode
        }),
{
}

} // verus!
