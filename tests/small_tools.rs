use edge_onboard::runner::{RunnerState, StartError};
use edge_onboard::agents::{log_entry, log_level, status_code_of, tail_limit, tail_lines, agent_field, is_agent_health_ok, is_agent_tauri_compatible, port_problem, secure_key, PortProblem};
use edge_onboard::prereqs::{check_prereqs, docker_compose_ok, docker_ok, has_repo_layout, repo_compose_file, repo_script};
use edge_onboard::printing::{clamp_copies, decode_pdf, parse_default_printer, parse_printers, PrintError};

#[test]
fn copies_are_clamped() {
    assert_eq!(clamp_copies(None), 1);
    assert_eq!(clamp_copies(Some(0)), 1);
    assert_eq!(clamp_copies(Some(3)), 3);
    assert_eq!(clamp_copies(Some(10)), 10);
    assert_eq!(clamp_copies(Some(50)), 10);
}

#[test]
fn pdf_payloads_are_decoded() {
    assert_eq!(decode_pdf(" aGVsbG8= \n").ok(), Some(b"hello".to_vec()));
    assert!(matches!(decode_pdf(""), Err(PrintError::EmptyPdf)));
    assert!(matches!(decode_pdf("!!not base64!!"), Err(PrintError::Base64(_))));
}

#[test]
fn agent_probes() {
    assert!(is_agent_health_ok(Some(200)));
    assert!(!is_agent_health_ok(Some(403)));
    assert!(!is_agent_health_ok(None));
    assert!(is_agent_tauri_compatible(Some(200)));
    assert!(!is_agent_tauri_compatible(Some(403)));
    assert!(port_problem(7070, false, None, None).is_none());
    assert!(port_problem(7070, true, Some(200), Some(200)).is_none());
    assert!(matches!(port_problem(7070, true, None, None), Some(PortProblem::InUse(7070))));
    assert!(matches!(port_problem(7072, true, Some(200), Some(403)), Some(PortProblem::IncompatibleAgent(7072))));
}

#[test]
fn credential_keys() {
    assert_eq!(secure_key("  token "), Some("token".to_string()));
    assert_eq!(secure_key("   "), None);
    assert_eq!(secure_key(&"k".repeat(120)).map(|s| s.len()), Some(120));
    assert_eq!(secure_key(&"k".repeat(121)), None);
    assert_eq!(secure_key(&"é".repeat(61)), None);
    assert_eq!(agent_field(&Some(" c1 ".to_string())), Some("c1".to_string()));
    assert_eq!(agent_field(&Some("  ".to_string())), None);
    assert_eq!(agent_field(&None), None);
}

#[test]
fn repo_layout_paths() {
    assert_eq!(repo_script("/srv/repo"), "/srv/repo/scripts/onboard_onprem_pos.py");
    assert_eq!(repo_script("/srv/repo/"), "/srv/repo/scripts/onboard_onprem_pos.py");
    assert_eq!(repo_compose_file("r"), "r/deploy/docker-compose.edge.yml");
    assert!(has_repo_layout(true, true));
    assert!(!has_repo_layout(true, false));
}

#[test]
fn docker_checks_and_hints() {
    assert!(docker_ok(Some(0)));
    assert!(!docker_ok(Some(1)));
    assert!(!docker_ok(None));
    assert!(docker_compose_ok(Some(0)));
    assert!(!docker_compose_ok(None));
    assert_eq!(check_prereqs(true, true, true).details.len(), 0);
    assert_eq!(check_prereqs(false, false, false).details.len(), 2);
    assert_eq!(check_prereqs(true, true, false).details.len(), 1);
}

#[test]
fn only_one_run_at_a_time() {
    let mut st = RunnerState::new();
    assert_eq!(st.try_start(), Ok(()));
    assert_eq!(st.try_start(), Err(StartError::AlreadyRunning));
    st.request_stop();
    st.request_stop();
    assert!(st.stop_requested && st.running);
    st.finish();
    assert!(!st.running);
    assert_eq!(st.try_start(), Ok(()));
    assert!(!st.stop_requested);
}

#[test]
fn lpstat_default_printer() {
    assert_eq!(parse_default_printer("system default destination: HP_LaserJet\n"), Some("HP_LaserJet".to_string()));
    assert_eq!(parse_default_printer("no system default destination\n"), None);
    assert_eq!(parse_default_printer("system default destination: A\r\nsystem default destination: B\n"), Some("B".to_string()));
    assert_eq!(parse_default_printer(""), None);
}

#[test]
fn lpstat_printer_list() {
    let out = "printer HP_LaserJet is idle.  enabled since Mon\n\tDescription: office\nprinter   Zebra disabled since Tue\nprinters are fine\n";
    assert_eq!(parse_printers(out), vec!["HP_LaserJet".to_string(), "Zebra".to_string()]);
    assert!(parse_printers("").is_empty());
}

#[test]
fn http_status_line() {
    assert_eq!(status_code_of("HTTP/1.1 200 OK\r\nContent-Type: x\r\n"), Some(200));
    assert_eq!(status_code_of("HTTP/1.1   403 Forbidden"), Some(403));
    assert_eq!(status_code_of("HTTP/1.1"), None);
    assert_eq!(status_code_of(""), None);
    assert_eq!(status_code_of("garbage here\n"), None);
}

#[test]
fn log_tails() {
    assert_eq!(tail_lines("a\nb\nc\n", 2), "b\nc");
    assert_eq!(tail_lines("a\r\nb", 5), "a\nb");
    assert_eq!(tail_lines("a\nb\n", 0), "a\nb\n");
    assert_eq!(tail_lines("", 3), "");
    assert_eq!(tail_lines("x\n\ny\n", 2), "\ny");
}

#[test]
fn log_entries() {
    assert_eq!(log_level("  WARN "), "warn");
    assert_eq!(log_level("   "), "info");
    assert_eq!(log_entry(17, "info", " hello ", &None), "[17][info] hello\n");
    assert_eq!(log_entry(1, "error", "boom", &Some(" at x \n".to_string())), "[1][error] boom\nat x\n");
    assert_eq!(log_entry(1, "error", "boom", &Some("  ".to_string())), "[1][error] boom\n");
    assert_eq!(tail_limit(None, 120, 600), 120);
    assert_eq!(tail_limit(Some(5000), 120, 600), 600);
    assert_eq!(tail_limit(Some(7), 200, 1000), 7);
}
