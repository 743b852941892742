use edge_onboard::onboarding::{
    compose_up_args, exit_code, Action, Event, HealthReply, Onboarding, Outcome, ProcessEnd, RunError, Step,
};
use edge_onboard::provision::{Branch, Company, LoginReply, Registration};
use edge_onboard::request::{Mode, RunRequest};

fn request(mode: &str) -> RunRequest {
    RunRequest {
        repo_path: String::new(),
        mode: mode.to_string(),
        edge_home: None,
        api_port: None,
        admin_port: None,
        api_base_url: None,
        edge_api_url_for_pos: "http://192.168.1.10:8001/".to_string(),
        admin_email: None,
        admin_password: None,
        device_count: None,
        companies: None,
        enable_sync: None,
        cloud_api_url: None,
        edge_sync_key: None,
        edge_node_id: None,
        update_env: None,
    }
}

fn ok_health() -> Event {
    Event::Health(HealthReply::Status { status: Some("ok".to_string()), shown: "\"ok\"".to_string() })
}

fn is_provisioning(a: &Action) -> bool {
    matches!(
        a,
        Action::Login { .. } | Action::ListCompanies { .. } | Action::ListBranches { .. } | Action::Register { .. } | Action::WriteArtifacts(_)
    )
}

/// Drives a fresh run up to the health wait; returns every action seen.
fn up_to_health(run: &mut Onboarding) -> Vec<Step> {
    let mut seen = Vec::new();
    let s = run.step(Event::Start, false, 0);
    assert!(matches!(s.action, Action::PrepareBundle));
    seen.push(s);
    let s = run.step(Event::BundleReady(Ok(())), false, 1);
    assert!(matches!(s.action, Action::ReadConfig));
    seen.push(s);
    let s = run.step(Event::ConfigRead { exists: false, text: String::new(), compose_exists: true }, false, 1);
    assert!(matches!(s.action, Action::WriteConfig(_)));
    seen.push(s);
    let s = run.step(Event::Written(Ok(())), false, 2);
    assert!(matches!(s.action, Action::ComposeUp { build: false, refresh: false }));
    seen.push(s);
    let s = run.step(Event::ProcessExited(ProcessEnd::Exited(0)), false, 30);
    match &s.action {
        Action::PollHealth(u) => assert_eq!(u, "http://127.0.0.1:8001/health"),
        _ => panic!("expected a health poll"),
    }
    seen.push(s);
    seen
}

#[test]
fn onprem_run_starts_and_waits_but_registers_nothing() {
    let mut run = Onboarding::new(request("OnPrem"), false, "host".to_string());
    assert_eq!(run.mode, Mode::OnPrem);
    let mut seen = up_to_health(&mut run);
    let s = run.step(ok_health(), false, 40);
    assert!(matches!(s.action, Action::WriteConfig(_)));
    seen.push(s);
    let s = run.step(Event::Written(Ok(())), false, 41);
    assert!(matches!(s.action, Action::ComposeUp { refresh: true, .. }));
    seen.push(s);
    let s = run.step(Event::ProcessExited(ProcessEnd::Exited(0)), false, 50);
    assert!(matches!(s.action, Action::Finish(Outcome::Completed)));
    seen.push(s);
    assert!(seen.iter().all(|s| !is_provisioning(&s.action)));
    assert!(run.devices.is_empty());
}

#[test]
fn pos_mode_without_api_base_url_fails_before_anything_runs() {
    let mut run = Onboarding::new(request("pos"), false, "host".to_string());
    let s = run.step(Event::Start, false, 0);
    match s.action {
        Action::Finish(o) => {
            assert!(matches!(o, Outcome::Failed(RunError::MissingApiBaseUrl)));
            assert_eq!(exit_code(&o), 1);
        },
        _ => panic!("expected the run to end"),
    }
    let again = run.step(Event::ProcessExited(ProcessEnd::Exited(0)), false, 1);
    assert!(matches!(again.action, Action::Finish(Outcome::Failed(RunError::MissingApiBaseUrl))));
}

#[test]
fn pos_mode_with_api_base_url_skips_the_stack() {
    let mut req = request("pos");
    req.api_base_url = Some("https://edge.example/".to_string());
    let mut run = Onboarding::new(req, false, "host".to_string());
    run.step(Event::Start, false, 0);
    run.step(Event::BundleReady(Ok(())), false, 0);
    run.step(Event::ConfigRead { exists: false, text: String::new(), compose_exists: false }, false, 0);
    let s = run.step(Event::Written(Ok(())), false, 0);
    match &s.action {
        Action::PollHealth(u) => assert_eq!(u, "https://edge.example/health"),
        _ => panic!("expected a health poll"),
    }
}

#[test]
fn stop_during_health_wait_ends_the_run_as_stopped() {
    let mut run = Onboarding::new(request("hybrid"), false, "host".to_string());
    up_to_health(&mut run);
    let s = run.step(Event::Health(HealthReply::Unreachable("refused".to_string())), false, 31);
    assert!(matches!(s.action, Action::Sleep(2000)));
    let s = run.step(Event::Woke, true, 33);
    match s.action {
        Action::Finish(o) => {
            assert!(matches!(o, Outcome::Stopped));
            assert_eq!(exit_code(&o), 2);
        },
        _ => panic!("expected the run to stop"),
    }
    let later = run.step(ok_health(), false, 35);
    assert!(matches!(later.action, Action::Finish(Outcome::Stopped)));
    assert!(run.devices.is_empty());
}

#[test]
fn health_wait_times_out_with_last_reason() {
    let mut run = Onboarding::new(request("hybrid"), false, "host".to_string());
    up_to_health(&mut run);
    run.step(Event::Health(HealthReply::Status { status: Some("starting".to_string()), shown: "\"starting\"".to_string() }), false, 31);
    let s = run.step(Event::Woke, false, 30 + 300);
    match s.action {
        Action::Finish(Outcome::Failed(RunError::HealthTimeout(m))) => assert_eq!(m, "health status=\"starting\""),
        _ => panic!("expected a timeout"),
    }
}

#[test]
fn failing_compose_command_fails_the_run() {
    let mut run = Onboarding::new(request("hybrid"), false, "host".to_string());
    run.step(Event::Start, false, 0);
    run.step(Event::BundleReady(Ok(())), false, 0);
    run.step(Event::ConfigRead { exists: false, text: String::new(), compose_exists: true }, false, 0);
    run.step(Event::Written(Ok(())), false, 0);
    let s = run.step(Event::ProcessExited(ProcessEnd::Exited(3)), false, 0);
    assert!(matches!(s.action, Action::Finish(Outcome::Failed(RunError::Process(ProcessEnd::Exited(3))))));
}

#[test]
fn missing_compose_file_is_reported() {
    let mut req = request("hybrid");
    req.repo_path = "/srv/repo".to_string();
    let mut run = Onboarding::new(req, true, "host".to_string());
    let s = run.step(Event::Start, false, 0);
    assert!(matches!(s.action, Action::ReadConfig));
    let s = run.step(Event::ConfigRead { exists: true, text: "API_PORT=8001\n".to_string(), compose_exists: false }, false, 0);
    assert!(matches!(s.action, Action::Finish(Outcome::Failed(RunError::ComposeFileMissing))));
}

#[test]
fn fresh_run_generates_admin_password_uses_it_and_logs_it_once() {
    let mut run = Onboarding::new(request("hybrid"), false, "host".to_string());
    up_to_health(&mut run);
    let password = run.resolved.as_ref().unwrap().config.bootstrap_admin_password.clone();
    assert_eq!(password.len(), 20);
    let s = run.step(ok_health(), false, 40);
    match &s.action {
        Action::Login { url, email, password: p } => {
            assert_eq!(url, "http://127.0.0.1:8001/auth/login");
            assert_eq!(email, "admin@ahtrading.local");
            assert_eq!(p, &password);
        },
        _ => panic!("expected a login"),
    }
    let s = run.step(Event::LoggedIn(Ok(LoginReply { mfa_required: false, token: Some("T".to_string()) })), false, 41);
    assert!(matches!(s.action, Action::ListCompanies { .. }));
    let s = run.step(Event::Companies(Ok(vec![Company { id: "c1".to_string(), name: Some("Shop".to_string()) }])), false, 42);
    assert!(matches!(s.action, Action::ListBranches { .. }));
    let s = run.step(Event::Branches(Ok(vec![])), false, 43);
    assert!(matches!(s.action, Action::Register { .. }));
    let s = run.step(Event::Registered(Ok(Registration { id: Some("d1".to_string()), token: Some("t1".to_string()) })), false, 44);
    assert!(matches!(s.action, Action::WriteArtifacts(_)));
    let s = run.step(Event::Written(Ok(())), false, 45);
    assert!(matches!(s.action, Action::WriteConfig(_)));
    let s = run.step(Event::Written(Ok(())), false, 46);
    assert!(matches!(s.action, Action::ComposeUp { refresh: true, .. }));
    let s = run.step(Event::ProcessExited(ProcessEnd::Exited(1)), false, 47);
    assert!(matches!(s.action, Action::Finish(Outcome::Completed)));
    let shown: Vec<&String> = s.log.iter().filter(|l| l.contains(&password)).collect();
    assert_eq!(shown.len(), 1);
}

#[test]
fn hybrid_run_registers_devices_per_selected_tenant() {
    let mut req = request("hybrid");
    req.device_count = Some(2);
    req.companies = Some(vec!["c1".to_string(), "c3".to_string()]);
    let mut run = Onboarding::new(req, false, "host".to_string());
    up_to_health(&mut run);
    run.step(ok_health(), false, 40);
    run.step(Event::LoggedIn(Ok(LoginReply { mfa_required: false, token: Some("T".to_string()) })), false, 41);
    let companies = vec![
        Company { id: "c1".to_string(), name: Some("Acme Official".to_string()) },
        Company { id: "c2".to_string(), name: Some("Skipped".to_string()) },
        Company { id: "c3".to_string(), name: None },
    ];
    let s = run.step(Event::Companies(Ok(companies)), false, 42);
    match &s.action {
        Action::ListBranches { url, token, company_id } => {
            assert_eq!(url, "http://127.0.0.1:8001/branches");
            assert_eq!(token, "T");
            assert_eq!(company_id, "c1");
        },
        _ => panic!("expected branches"),
    }
    let branch = Branch { id: Some("b1".to_string()), name: Some("Main".to_string()) };
    let other = Branch { id: Some("b2".to_string()), name: None };
    let s = run.step(Event::Branches(Ok(vec![branch, other])), false, 43);
    match &s.action {
        Action::Register { url, .. } => assert_eq!(
            url,
            "http://127.0.0.1:8001/pos/devices/register?company_id=c1&device_code=ACME-OFFICIAL-POS-01&reset_token=true&branch_id=b1"
        ),
        _ => panic!("expected a registration"),
    }
    let reg = |i: &str| Event::Registered(Ok(Registration { id: Some(i.to_string()), token: Some(format!("t{i}")) }));
    let s = run.step(reg("d1"), false, 44);
    assert!(matches!(s.action, Action::Register { .. }));
    let s = run.step(reg("d2"), false, 45);
    match &s.action {
        Action::ListBranches { company_id, .. } => assert_eq!(company_id, "c3"),
        _ => panic!("expected the next tenant"),
    }
    run.step(Event::Branches(Ok(vec![])), false, 46);
    run.step(reg("d3"), false, 47);
    let s = run.step(reg("d4"), false, 48);
    match &s.action {
        Action::WriteArtifacts(b) => {
            assert_eq!(b.packs.len(), 4);
            assert_eq!(b.packs[2].pack.device_code, "C3-POS-01");
            assert_eq!(b.packs[2].pack.branch_id, "");
            assert_eq!(b.packs[0].pack.api_base_url, "http://192.168.1.10:8001");
            assert_eq!(b.prefill.device_id_official, "d1");
            assert_eq!(b.prefill.device_id_unofficial, "d2");
        },
        _ => panic!("expected the bundle"),
    }
    let codes: Vec<&str> = run.devices.iter().map(|d| d.device_code.as_str()).collect();
    assert_eq!(codes, vec!["ACME-OFFICIAL-POS-01", "ACME-OFFICIAL-POS-02", "C3-POS-01", "C3-POS-02"]);
}

#[test]
fn mfa_is_an_auth_failure() {
    let mut run = Onboarding::new(request("hybrid"), false, "host".to_string());
    up_to_health(&mut run);
    run.step(ok_health(), false, 40);
    let s = run.step(Event::LoggedIn(Ok(LoginReply { mfa_required: true, token: None })), false, 41);
    assert!(matches!(s.action, Action::Finish(Outcome::Failed(RunError::Provision(_)))));
}

#[test]
fn configuration_problems_are_caught_first() {
    let mut req = request("hybrid");
    req.edge_api_url_for_pos = " / ".to_string();
    let mut run = Onboarding::new(req, false, "h".to_string());
    assert!(matches!(run.step(Event::Start, false, 0).action, Action::Finish(Outcome::Failed(RunError::MissingPosUrl))));
    let mut req = request("hybrid");
    req.enable_sync = Some(true);
    let mut run = Onboarding::new(req, false, "h".to_string());
    assert!(matches!(run.step(Event::Start, false, 0).action, Action::Finish(Outcome::Failed(RunError::MissingSyncKey))));
}

#[test]
fn completed_runs_exit_with_zero() {
    assert_eq!(exit_code(&Outcome::Completed), 0);
    assert_eq!(exit_code(&Outcome::Failed(RunError::Unexpected)), 1);
    assert_eq!(exit_code(&Outcome::Stopped), 2);
}

#[test]
fn existing_config_without_rewrite_is_not_written_and_not_hardened() {
    let mut run = Onboarding::new(request("onprem"), false, "host".to_string());
    run.step(Event::Start, false, 0);
    run.step(Event::BundleReady(Ok(())), false, 0);
    let text = "POSTGRES_PASSWORD=keep\nBOOTSTRAP_ADMIN_PASSWORD=pw\n".to_string();
    let s = run.step(Event::ConfigRead { exists: true, text, compose_exists: true }, false, 0);
    assert!(matches!(s.action, Action::ComposeUp { refresh: false, .. }));
    run.step(Event::ProcessExited(ProcessEnd::Exited(0)), false, 1);
    let s = run.step(ok_health(), false, 2);
    assert!(matches!(s.action, Action::Finish(Outcome::Completed)));
    assert!(!s.log.iter().any(|l| l.contains("pw")));
}

#[test]
fn hardened_config_switches_bootstrap_off_and_keeps_the_rest() {
    let mut run = Onboarding::new(request("onprem"), false, "host".to_string());
    let steps = up_to_health(&mut run);
    let first = match &steps[2].action {
        Action::WriteConfig(t) => t.clone(),
        _ => panic!("expected the first write"),
    };
    let s = run.step(ok_health(), false, 40);
    let second = match &s.action {
        Action::WriteConfig(t) => t.clone(),
        _ => panic!("expected the hardened write"),
    };
    assert!(first.contains("\nBOOTSTRAP_ADMIN=1\n") && first.contains("\nBOOTSTRAP_ADMIN_RESET_PASSWORD=1\n"));
    assert_eq!(second, first.replace("BOOTSTRAP_ADMIN=1", "BOOTSTRAP_ADMIN=0").replace("BOOTSTRAP_ADMIN_RESET_PASSWORD=1", "BOOTSTRAP_ADMIN_RESET_PASSWORD=0"));
}

#[test]
fn compose_arguments() {
    let base = ["compose", "--env-file", "/e/.env.edge", "-f", "/e/c.yml", "up", "-d"];
    let with = |extra: &[&str]| -> Vec<String> { base.iter().chain(extra.iter()).map(|s| s.to_string()).collect() };
    assert_eq!(compose_up_args("/e/.env.edge", "/e/c.yml", false, false), with(&["--pull", "always"]));
    assert_eq!(compose_up_args("/e/.env.edge", "/e/c.yml", false, true), with(&["--pull", "always"]));
    assert_eq!(compose_up_args("/e/.env.edge", "/e/c.yml", true, false), with(&["--build"]));
    assert_eq!(compose_up_args("/e/.env.edge", "/e/c.yml", true, true), with(&[]));
}
