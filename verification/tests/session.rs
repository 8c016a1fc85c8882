use singbox_session::settings::AppSettings;
use singbox_session::singbox::{
    engine_arguments, forward, start_singbox, startup_event, stop_singbox, Broadcast,
    EngineOutput, LogSource,
    Plan, ProxyPhase, SessionAction, SessionError, SessionEvent, SingBoxState, StatusMessage,
    SupervisorState, GRACE_PERIOD_MS,
};
use singbox_session::subscriptions::{find_node_by_id, Node, Subscription};
use singbox_session::synthesis::RoutingMode;
use singbox_session::system_proxy::{ProxyMode, SystemProxyState};

fn node(id: &str, address: &str) -> Node {
    Node {
        id: id.to_string(),
        protocol: "trojan".to_string(),
        name: "relay".to_string(),
        address: address.to_string(),
        port: 443,
        uuid: None,
        password: Some("secret".to_string()),
        cipher: None,
        sni: None,
        allow_insecure: false,
    }
}

fn subscription(url: &str, nodes: Vec<Node>) -> Subscription {
    Subscription {
        url: url.to_string(),
        name: "sub".to_string(),
        status: "active".to_string(),
        last_updated: "2024-01-01 00:00".to_string(),
        enabled: true,
        nodes,
    }
}

fn subscriptions() -> Vec<Subscription> {
    vec![
        subscription("https://a.example/sub", vec![node("a1", "a1.example"), node("a2", "a2.example")]),
        subscription("https://b.example/sub", vec![]),
        subscription("https://c.example/sub", vec![node("a2", "shadowed.example"), node("c1", "c1.example")]),
    ]
}

fn is_clear(state: &SystemProxyState) -> bool {
    !state.enabled
        && state.mode == ProxyMode::Static
        && state.host.is_empty()
        && state.port == 0
        && state.bypass.is_empty()
        && state.pac_url.is_empty()
}

fn shape(plan: &Plan) -> Vec<&'static str> {
    plan.actions
        .iter()
        .map(|a| match a {
            SessionAction::Spawn => "spawn",
            SessionAction::SetProxy(s) if s.enabled => "proxy-on",
            SessionAction::SetProxy(s) if is_clear(s) => "proxy-off",
            SessionAction::SetProxy(_) => "proxy-odd",
            SessionAction::Kill => "kill",
            SessionAction::Sweep => "sweep",
            SessionAction::Notify(_) => "notify",
        })
        .collect()
}

fn started(mode: RoutingMode, port: u16) -> SingBoxState {
    let mut slot = SingBoxState::new();
    let plan = slot.step(SessionEvent::StartRequested { mode, port });
    assert_eq!(shape(&plan), vec!["spawn"]);
    assert!(plan.reply.is_none());
    slot
}

fn running(mode: RoutingMode, port: u16) -> SingBoxState {
    let mut slot = started(mode, port);
    let plan = slot.step(SessionEvent::Alive);
    assert_eq!(shape(&plan), vec!["proxy-on"]);
    assert!(plan.reply.is_none());
    let plan = slot.step(SessionEvent::ProxyApplied);
    assert!(matches!(plan.reply, Some(Ok(StatusMessage::Started))));
    assert_eq!(slot.state(), SupervisorState::Running);
    slot
}

#[test]
fn new_slot_is_at_rest() {
    let slot = SingBoxState::new();
    assert_eq!(slot.state(), SupervisorState::Idle);
    assert_eq!(slot.proxy_phase(), ProxyPhase::Clear);
    assert_eq!(slot.mode(), RoutingMode::Global);
    assert_eq!(slot.port(), 0);
}

#[test]
fn start_walks_through_health_check_and_proxy() {
    let mut slot = SingBoxState::new();
    let plan = slot.step(SessionEvent::StartRequested { mode: RoutingMode::Rule, port: 2080 });
    assert_eq!(shape(&plan), vec!["spawn"]);
    assert!(plan.reply.is_none());
    assert_eq!(slot.state(), SupervisorState::Starting);
    assert_eq!(slot.proxy_phase(), ProxyPhase::Clear);

    let plan = slot.step(SessionEvent::Alive);
    assert!(plan.reply.is_none());
    assert_eq!(plan.actions.len(), 1);
    match &plan.actions[0] {
        SessionAction::SetProxy(state) => {
            assert!(state.enabled);
            assert_eq!(state.mode, ProxyMode::Static);
            assert_eq!(state.host, "127.0.0.1");
            assert_eq!(state.port, 2080);
            assert_eq!(state.bypass.len(), 20);
            assert_eq!(state.bypass[0], "localhost");
            assert_eq!(state.bypass[19], "192.168.*");
            assert_eq!(state.pac_url, "");
        }
        other => panic!("unexpected action {:?}", other),
    }
    assert_eq!(slot.state(), SupervisorState::Running);
    assert_eq!(slot.proxy_phase(), ProxyPhase::Pending);

    let plan = slot.step(SessionEvent::ProxyApplied);
    assert!(plan.actions.is_empty());
    assert!(matches!(plan.reply, Some(Ok(StatusMessage::Started))));
    assert_eq!(slot.state(), SupervisorState::Running);
    assert_eq!(slot.proxy_phase(), ProxyPhase::Engaged);
}

#[test]
fn every_mode_engages_the_host_proxy() {
    for mode in [RoutingMode::Direct, RoutingMode::Rule, RoutingMode::Global] {
        let mut slot = started(mode, 7890);
        let plan = slot.step(SessionEvent::Alive);
        assert!(plan.reply.is_none());
        assert_eq!(plan.actions.len(), 1);
        match &plan.actions[0] {
            SessionAction::SetProxy(state) => {
                assert!(state.enabled);
                assert_eq!(state.host, "127.0.0.1");
                assert_eq!(state.port, 7890);
            }
            other => panic!("unexpected action {:?}", other),
        }
        assert_eq!(slot.state(), SupervisorState::Running);
        assert_eq!(slot.proxy_phase(), ProxyPhase::Pending);
        let plan = slot.step(SessionEvent::ProxyApplied);
        assert!(plan.actions.is_empty());
        assert!(matches!(plan.reply, Some(Ok(StatusMessage::Started))));
        assert_eq!(slot.proxy_phase(), ProxyPhase::Engaged);
    }
}

#[test]
fn refused_proxy_rolls_back_in_direct_mode_too() {
    let mut slot = started(RoutingMode::Direct, 2080);
    let plan = slot.step(SessionEvent::Alive);
    assert_eq!(shape(&plan), vec!["proxy-on"]);
    let plan = slot.step(SessionEvent::ProxyFailed("access denied".to_string()));
    assert_eq!(shape(&plan), vec!["proxy-off", "kill"]);
    assert!(plan.reply.is_none());
    let plan = slot.step(SessionEvent::KillConfirmed);
    match plan.reply {
        Some(Err(SessionError::Proxy(text))) => assert_eq!(text, "access denied"),
        other => panic!("unexpected reply {:?}", other),
    }
    assert_eq!(slot.state(), SupervisorState::Idle);
    assert_eq!(slot.proxy_phase(), ProxyPhase::Clear);
}

#[test]
fn second_start_is_refused_and_changes_nothing() {
    for mut slot in [
        started(RoutingMode::Rule, 2080),
        running(RoutingMode::Rule, 2080),
        running(RoutingMode::Direct, 2080),
    ] {
        let (state, proxy, mode, port) = (slot.state(), slot.proxy_phase(), slot.mode(), slot.port());
        let plan = slot.step(SessionEvent::StartRequested { mode: RoutingMode::Global, port: 9999 });
        assert!(plan.actions.is_empty());
        assert!(matches!(plan.reply, Some(Err(SessionError::AlreadyRunning))));
        assert_eq!((slot.state(), slot.proxy_phase(), slot.mode(), slot.port()), (state, proxy, mode, port));
    }
}

#[test]
fn start_singbox_twice_reports_already_running() {
    let subs = subscriptions();
    let settings = AppSettings::default();
    let mut slot = SingBoxState::new();
    assert!(start_singbox(&mut slot, &subs, &settings, "a1", "Rule").is_ok());
    assert_eq!(slot.state(), SupervisorState::Starting);
    slot.step(SessionEvent::Alive);
    slot.step(SessionEvent::ProxyApplied);
    let again = start_singbox(&mut slot, &subs, &settings, "c1", "Global");
    assert!(matches!(again, Err(SessionError::AlreadyRunning)));
    assert_eq!(slot.state(), SupervisorState::Running);
    assert_eq!(slot.proxy_phase(), ProxyPhase::Engaged);
    assert_eq!(slot.mode(), RoutingMode::Rule);
}

#[test]
fn start_singbox_builds_the_configuration_of_the_node() {
    let subs = subscriptions();
    let settings = AppSettings { mixed_port: 7890, whitelist: vec!["baidu.com".to_string()], allow_lan: true };
    let mut slot = SingBoxState::new();
    let launch = start_singbox(&mut slot, &subs, &settings, "c1", "Rule").unwrap();
    assert_eq!(shape(&launch.plan), vec!["spawn"]);
    assert!(launch.plan.reply.is_none());
    let config = launch.config;
    assert_eq!(config.outbounds[0].server, Some("c1.example".to_string()));
    assert_eq!(config.inbounds[0].listen, "0.0.0.0");
    assert_eq!(config.inbounds[0].listen_port, 7890);
    assert_eq!(config.route.rules.len(), 5);
    assert_eq!(config.route.rules[1].domain, Some(vec!["c1.example".to_string()]));
    assert_eq!(config.route.rules[2].domain_suffix, Some(vec!["baidu.com".to_string()]));
    assert_eq!(slot.state(), SupervisorState::Starting);
    assert_eq!(slot.mode(), RoutingMode::Rule);
    assert_eq!(slot.port(), 7890);
}

#[test]
fn start_singbox_without_the_node_fails_and_stays_at_rest() {
    let subs = subscriptions();
    let mut slot = SingBoxState::new();
    let outcome = start_singbox(&mut slot, &subs, &AppSettings::default(), "missing", "Rule");
    match outcome {
        Err(SessionError::Config(text)) => assert_eq!(text, "未找到该节点"),
        other => panic!("unexpected outcome {:?}", other.map(|_| ())),
    }
    assert_eq!(slot.state(), SupervisorState::Idle);
    let outcome = start_singbox(&mut slot, &[], &AppSettings::default(), "a1", "Rule");
    assert!(matches!(outcome, Err(SessionError::Config(_))));
}

#[test]
fn early_exit_is_a_launch_error_with_the_output() {
    let mut slot = started(RoutingMode::Rule, 2080);
    let plan = slot.step(SessionEvent::Exited("FATAL[0000] listen tcp 127.0.0.1:2080: bind: address already in use".to_string()));
    assert!(plan.actions.is_empty());
    match plan.reply {
        Some(Err(SessionError::Launch(text))) => {
            assert_eq!(text, "FATAL[0000] listen tcp 127.0.0.1:2080: bind: address already in use")
        }
        other => panic!("unexpected reply {:?}", other),
    }
    assert_eq!(slot.state(), SupervisorState::Idle);
    assert_eq!(slot.proxy_phase(), ProxyPhase::Clear);
}

#[test]
fn spawn_failure_is_a_launch_error() {
    let mut slot = started(RoutingMode::Global, 2080);
    let plan = slot.step(SessionEvent::SpawnFailed("no such file".to_string()));
    assert!(plan.actions.is_empty());
    match plan.reply {
        Some(Err(SessionError::Launch(text))) => assert_eq!(text, "no such file"),
        other => panic!("unexpected reply {:?}", other),
    }
    assert_eq!(slot.state(), SupervisorState::Idle);
    let plan = slot.step(SessionEvent::StartRequested { mode: RoutingMode::Global, port: 1 });
    assert_eq!(shape(&plan), vec!["spawn"]);
}

#[test]
fn refused_proxy_rolls_the_session_back() {
    let mut slot = started(RoutingMode::Global, 2080);
    let plan = slot.step(SessionEvent::Alive);
    assert_eq!(shape(&plan), vec!["proxy-on"]);
    let plan = slot.step(SessionEvent::ProxyFailed("access denied".to_string()));
    assert_eq!(shape(&plan), vec!["proxy-off", "kill"]);
    assert!(plan.reply.is_none());
    assert_eq!(slot.state(), SupervisorState::Stopping);
    assert_eq!(slot.proxy_phase(), ProxyPhase::Clear);
    let plan = slot.step(SessionEvent::KillConfirmed);
    assert!(plan.actions.is_empty());
    match plan.reply {
        Some(Err(SessionError::Proxy(text))) => assert_eq!(text, "access denied"),
        other => panic!("unexpected reply {:?}", other),
    }
    assert_eq!(slot.state(), SupervisorState::Idle);
    assert_eq!(slot.proxy_phase(), ProxyPhase::Clear);
}

#[test]
fn refused_proxy_with_unconfirmed_kill_sweeps() {
    let mut slot = started(RoutingMode::Rule, 2080);
    slot.step(SessionEvent::Alive);
    slot.step(SessionEvent::ProxyFailed("denied".to_string()));
    let plan = slot.step(SessionEvent::KillUnconfirmed);
    assert_eq!(shape(&plan), vec!["sweep"]);
    assert!(matches!(plan.reply, Some(Err(SessionError::Proxy(_)))));
    assert_eq!(slot.state(), SupervisorState::Idle);
}

#[test]
fn stop_at_rest_reports_not_running_every_time() {
    let mut slot = SingBoxState::new();
    for _ in 0..5 {
        let plan = stop_singbox(&mut slot);
        assert_eq!(shape(&plan), vec!["proxy-off", "sweep"]);
        assert!(matches!(plan.reply, Some(Ok(StatusMessage::NotRunning))));
        assert_eq!(slot.state(), SupervisorState::Idle);
        assert_eq!(slot.proxy_phase(), ProxyPhase::Clear);
    }
}

#[test]
fn stop_clears_the_proxy_before_it_kills() {
    let mut slot = running(RoutingMode::Rule, 2080);
    let plan = stop_singbox(&mut slot);
    assert_eq!(shape(&plan), vec!["proxy-off", "kill"]);
    assert!(plan.reply.is_none());
    assert_eq!(slot.state(), SupervisorState::Stopping);
    assert_eq!(slot.proxy_phase(), ProxyPhase::Clear);
    let plan = slot.step(SessionEvent::KillConfirmed);
    assert!(plan.actions.is_empty());
    assert!(matches!(plan.reply, Some(Ok(StatusMessage::Stopped))));
    assert_eq!(slot.state(), SupervisorState::Idle);
    let plan = stop_singbox(&mut slot);
    assert!(matches!(plan.reply, Some(Ok(StatusMessage::NotRunning))));
}

#[test]
fn unconfirmed_kill_falls_back_to_a_sweep() {
    let mut slot = running(RoutingMode::Direct, 2080);
    let plan = stop_singbox(&mut slot);
    assert_eq!(shape(&plan), vec!["proxy-off", "kill"]);
    let plan = slot.step(SessionEvent::KillUnconfirmed);
    assert_eq!(shape(&plan), vec!["sweep"]);
    assert!(matches!(plan.reply, Some(Ok(StatusMessage::Stopped))));
    assert_eq!(slot.state(), SupervisorState::Idle);
}

#[test]
fn stop_while_starting_or_stopping_tears_down() {
    let mut slot = started(RoutingMode::Rule, 2080);
    let plan = stop_singbox(&mut slot);
    assert_eq!(shape(&plan), vec!["proxy-off", "kill"]);
    assert_eq!(slot.state(), SupervisorState::Stopping);
    let plan = stop_singbox(&mut slot);
    assert_eq!(shape(&plan), vec!["proxy-off", "kill"]);
    assert!(plan.reply.is_none());
    assert_eq!(slot.state(), SupervisorState::Stopping);
    let plan = slot.step(SessionEvent::Alive);
    assert!(plan.actions.is_empty() && plan.reply.is_none());
    assert_eq!(slot.state(), SupervisorState::Stopping);
}

#[test]
fn crash_clears_the_proxy_and_notifies() {
    let mut slot = running(RoutingMode::Global, 2080);
    let plan = slot.step(SessionEvent::Exited("Core Terminated".to_string()));
    assert_eq!(shape(&plan), vec!["proxy-off", "notify"]);
    match &plan.actions[1] {
        SessionAction::Notify(text) => assert_eq!(text, "Core Terminated"),
        other => panic!("unexpected action {:?}", other),
    }
    assert!(plan.reply.is_none());
    assert_eq!(slot.state(), SupervisorState::Crashed);
    assert_eq!(slot.proxy_phase(), ProxyPhase::Clear);

    let plan = slot.step(SessionEvent::StartRequested { mode: RoutingMode::Global, port: 2080 });
    assert!(matches!(plan.reply, Some(Err(SessionError::AlreadyRunning))));
    assert_eq!(slot.state(), SupervisorState::Crashed);

    let plan = slot.step(SessionEvent::Reaped);
    assert!(plan.actions.is_empty() && plan.reply.is_none());
    assert_eq!(slot.state(), SupervisorState::Idle);
}

#[test]
fn stop_after_a_crash_reports_not_running() {
    let mut slot = running(RoutingMode::Global, 2080);
    slot.step(SessionEvent::Exited(String::new()));
    let plan = stop_singbox(&mut slot);
    assert_eq!(shape(&plan), vec!["proxy-off", "sweep"]);
    assert!(matches!(plan.reply, Some(Ok(StatusMessage::NotRunning))));
    assert_eq!(slot.state(), SupervisorState::Idle);
}

#[test]
fn events_that_do_not_fit_are_ignored() {
    let events = || {
        vec![
            SessionEvent::SpawnFailed("x".to_string()),
            SessionEvent::Exited("x".to_string()),
            SessionEvent::Alive,
            SessionEvent::ProxyApplied,
            SessionEvent::ProxyFailed("x".to_string()),
            SessionEvent::KillConfirmed,
            SessionEvent::KillUnconfirmed,
            SessionEvent::Reaped,
        ]
    };
    let mut slot = SingBoxState::new();
    for event in events() {
        let plan = slot.step(event);
        assert!(plan.actions.is_empty() && plan.reply.is_none());
        assert_eq!(slot.state(), SupervisorState::Idle);
    }
    let mut slot = running(RoutingMode::Rule, 2080);
    for event in [
        SessionEvent::SpawnFailed("x".to_string()),
        SessionEvent::Alive,
        SessionEvent::ProxyApplied,
        SessionEvent::ProxyFailed("x".to_string()),
        SessionEvent::KillConfirmed,
        SessionEvent::KillUnconfirmed,
        SessionEvent::Reaped,
    ] {
        let plan = slot.step(event);
        assert!(plan.actions.is_empty() && plan.reply.is_none());
        assert_eq!(slot.state(), SupervisorState::Running);
        assert_eq!(slot.proxy_phase(), ProxyPhase::Engaged);
    }
}

#[test]
fn find_node_takes_the_first_match() {
    let subs = subscriptions();
    assert_eq!(find_node_by_id(&subs, "a1").unwrap().address, "a1.example");
    assert_eq!(find_node_by_id(&subs, "a2").unwrap().address, "a2.example");
    assert_eq!(find_node_by_id(&subs, "c1").unwrap().address, "c1.example");
    assert!(find_node_by_id(&subs, "zz").is_none());
    assert!(find_node_by_id(&subs, "").is_none());
    assert!(find_node_by_id(&[], "a1").is_none());
}

#[test]
fn engine_is_run_on_the_configuration_file() {
    assert_eq!(engine_arguments("/data/config.json"), vec!["run", "-c", "/data/config.json"]);
    assert_eq!(GRACE_PERIOD_MS, 500);
}

#[test]
fn output_lines_are_forwarded_with_their_source() {
    match forward(EngineOutput::Stdout("INFO started".to_string())) {
        Broadcast::Log { source, line } => {
            assert_eq!(source, LogSource::Stdout);
            assert_eq!(line, "INFO started");
        }
        other => panic!("unexpected broadcast {:?}", other),
    }
    let broadcast = forward(EngineOutput::Stderr("WARN slow".to_string()));
    assert_eq!(broadcast.event(), "singbox-log");
    match broadcast {
        Broadcast::Log { source, line } => {
            assert_eq!(source, LogSource::Stderr);
            assert_eq!(line, "WARN slow");
        }
        other => panic!("unexpected broadcast {:?}", other),
    }
}

#[test]
fn the_end_of_the_engine_is_forwarded_as_stopped() {
    let broadcast = forward(EngineOutput::Error("broken pipe".to_string()));
    assert_eq!(broadcast.event(), "singbox-stopped");
    match broadcast {
        Broadcast::Stopped(detail) => assert_eq!(detail, "Core Error: broken pipe"),
        other => panic!("unexpected broadcast {:?}", other),
    }
    for code in [Some(0), Some(1), Some(-9), None] {
        match forward(EngineOutput::Terminated(code)) {
            Broadcast::Stopped(detail) => assert_eq!(detail, "Core Terminated"),
            other => panic!("unexpected broadcast {:?}", other),
        }
    }
}

#[test]
fn engine_that_gave_no_end_is_alive() {
    assert!(matches!(startup_event(&[]), SessionEvent::Alive));
    let outputs = vec![
        EngineOutput::Stdout("INFO started".to_string()),
        EngineOutput::Stderr("WARN slow".to_string()),
    ];
    assert!(matches!(startup_event(&outputs), SessionEvent::Alive));
}

#[test]
fn engine_that_ended_is_reported_with_its_diagnostics() {
    let outputs = vec![
        EngineOutput::Stdout("INFO starting".to_string()),
        EngineOutput::Stderr("FATAL bind: address already in use".to_string()),
        EngineOutput::Stderr("exit".to_string()),
        EngineOutput::Terminated(Some(1)),
    ];
    match startup_event(&outputs) {
        SessionEvent::Exited(text) => assert_eq!(text, "FATAL bind: address already in use\nexit\n"),
        other => panic!("unexpected event {:?}", other),
    }
    let outputs = vec![
        EngineOutput::Stderr("a".to_string()),
        EngineOutput::Error("broken pipe".to_string()),
        EngineOutput::Stderr("b".to_string()),
    ];
    match startup_event(&outputs) {
        SessionEvent::Exited(text) => assert_eq!(text, "a\nbroken pipeb\n"),
        other => panic!("unexpected event {:?}", other),
    }
    match startup_event(&[EngineOutput::Terminated(None)]) {
        SessionEvent::Exited(text) => assert_eq!(text, ""),
        other => panic!("unexpected event {:?}", other),
    }
}

#[test]
fn early_exit_decided_from_outputs_fails_the_launch() {
    let mut slot = started(RoutingMode::Direct, 2080);
    let outputs = vec![EngineOutput::Stderr("FATAL".to_string()), EngineOutput::Terminated(Some(1))];
    let plan = slot.step(startup_event(&outputs));
    assert!(plan.actions.is_empty());
    match plan.reply {
        Some(Err(SessionError::Launch(text))) => assert_eq!(text, "FATAL\n"),
        other => panic!("unexpected reply {:?}", other),
    }
    assert_eq!(slot.state(), SupervisorState::Idle);
}
