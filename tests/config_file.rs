use edge_onboard::config::{resolve, EdgeConfig};
use edge_onboard::envfile::EnvFile;
use edge_onboard::request::RunRequest;

fn request() -> RunRequest {
    RunRequest {
        repo_path: String::new(),
        mode: "hybrid".to_string(),
        edge_home: None,
        api_port: None,
        admin_port: None,
        api_base_url: None,
        edge_api_url_for_pos: "http://192.168.1.10:8001".to_string(),
        admin_email: None,
        admin_password: None,
        device_count: None,
        companies: None,
        enable_sync: None,
        cloud_api_url: None,
        edge_sync_key: None,
        edge_node_id: None,
        update_env: None,
    }
}

fn alnum(s: &str) -> bool {
    s.chars().all(|c| c.is_ascii_alphanumeric())
}

#[test]
fn parse_skips_comments_blanks_and_bad_lines() {
    let f = EnvFile::parse("# c\n\n  A = 1 \nnot a pair\n=x\nB=x=y\r\n#C=3\n");
    assert_eq!(f.keys, vec!["A".to_string(), "B".to_string()]);
    assert_eq!(f.values, vec!["1".to_string(), "x=y".to_string()]);
    assert_eq!(f.get("A"), Some("1".to_string()));
    assert_eq!(f.get("C"), None);
}

#[test]
fn later_lines_override_earlier_ones() {
    let f = EnvFile::parse("K=first\nK=second");
    assert_eq!(f.get("K"), Some("second".to_string()));
}

#[test]
fn fresh_config_generates_secrets_and_defaults() {
    let r = resolve(&request(), &EnvFile::empty(), false, "edge-host");
    let c = &r.config;
    assert!(r.should_write);
    assert_eq!(c.api_port, 8001);
    assert_eq!(c.admin_port, 3000);
    assert_eq!(c.postgres_db, "ahtrading");
    assert_eq!(c.app_db_user, "ahapp");
    assert_eq!(c.minio_root_user, "minioadmin");
    assert_eq!(c.s3_bucket, "attachments");
    assert_eq!(c.bootstrap_admin, "1");
    assert_eq!(c.bootstrap_admin_reset_password, "1");
    assert_eq!(c.bootstrap_admin_email, "admin@ahtrading.local");
    assert_eq!(c.sync_node_id, "edge-host");
    assert_eq!(c.sync_target_url, "");
    assert_eq!(c.postgres_password.len(), 24);
    assert_eq!(c.app_db_password.len(), 24);
    assert_eq!(c.minio_root_password.len(), 24);
    assert!(alnum(&c.postgres_password) && alnum(&c.app_db_password) && alnum(&c.minio_root_password));
}

#[test]
fn fresh_run_without_admin_password_generates_twenty_characters() {
    let r = resolve(&request(), &EnvFile::empty(), false, "edge-host");
    assert!(r.generated_admin_password);
    assert_eq!(r.config.bootstrap_admin_password.len(), 20);
    assert!(alnum(&r.config.bootstrap_admin_password));
}

#[test]
fn requested_values_win_over_persisted_ones() {
    let existing = EnvFile::parse("API_PORT=9000\nBOOTSTRAP_ADMIN_EMAIL=old@x\nBOOTSTRAP_ADMIN_PASSWORD=oldpw\n");
    let mut req = request();
    req.api_port = Some(9100);
    req.admin_email = Some("new@x".to_string());
    req.admin_password = Some("   ".to_string());
    let r = resolve(&req, &existing, true, "h");
    assert_eq!(r.config.api_port, 9100);
    assert_eq!(r.config.bootstrap_admin_email, "new@x");
    assert_eq!(r.config.bootstrap_admin_password, "oldpw");
    assert!(!r.generated_admin_password);
    assert!(!r.should_write);
}

#[test]
fn persisted_port_is_used_when_it_parses() {
    let r = resolve(&request(), &EnvFile::parse("API_PORT=9000\nADMIN_PORT=abc\n"), true, "h");
    assert_eq!(r.config.api_port, 9000);
    assert_eq!(r.config.admin_port, 3000);
}

#[test]
fn existing_config_keeps_bootstrap_switches() {
    let r = resolve(&request(), &EnvFile::parse("BOOTSTRAP_ADMIN=0\n"), true, "h");
    assert_eq!(r.config.bootstrap_admin, "0");
    assert_eq!(r.config.bootstrap_admin_reset_password, "0");
    let mut req = request();
    req.update_env = Some(true);
    let r2 = resolve(&req, &EnvFile::parse("BOOTSTRAP_ADMIN=0\n"), true, "h");
    assert!(r2.should_write);
    assert_eq!(r2.config.bootstrap_admin, "1");
}

#[test]
fn sync_settings_apply_only_when_enabled() {
    let mut req = request();
    req.cloud_api_url = Some(" https://cloud.example/ ".to_string());
    req.edge_sync_key = Some("k1".to_string());
    let off = resolve(&req, &EnvFile::empty(), false, "h");
    assert_eq!(off.config.sync_target_url, "");
    assert_eq!(off.config.sync_key, "");
    req.enable_sync = Some(true);
    let on = resolve(&req, &EnvFile::empty(), false, "h");
    assert_eq!(on.config.sync_target_url, "https://cloud.example");
    assert_eq!(on.config.sync_key, "k1");
}

#[test]
fn written_config_reads_back_with_secrets_kept() {
    let before = EnvFile::parse("POSTGRES_PASSWORD=keepme123\nAPP_DB_PASSWORD=  \n");
    let mut req = request();
    req.update_env = Some(true);
    let r = resolve(&req, &before, true, "h");
    let text = r.config.render();
    let after = EnvFile::parse(&text);
    assert_eq!(after.get("POSTGRES_PASSWORD"), Some("keepme123".to_string()));
    let app = after.get("APP_DB_PASSWORD").unwrap();
    assert_eq!(app.len(), 24);
    assert!(alnum(&app));
    assert_eq!(after.get("MINIO_ROOT_PASSWORD").unwrap().len(), 24);
    assert_eq!(after.keys.len(), 17);
    // A second pass over the new file keeps every secret.
    let again = resolve(&request(), &after, true, "h");
    assert_eq!(again.config.app_db_password, app);
    assert_eq!(again.config.minio_root_password, r.config.minio_root_password);
}

#[test]
fn render_layout_is_fixed() {
    let r = resolve(&request(), &EnvFile::empty(), false, "node-1");
    let text = r.config.render();
    let lines: Vec<&str> = text.split('\n').collect();
    assert_eq!(lines.len(), 32);
    assert_eq!(lines[4], "API_PORT=8001");
    assert_eq!(lines[5], "ADMIN_PORT=3000");
    assert_eq!(lines[30], "EDGE_SYNC_NODE_ID=node-1");
    assert!(text.ends_with('\n'));
}

#[test]
fn harden_switches_bootstrap_off() {
    let mut c: EdgeConfig = resolve(&request(), &EnvFile::empty(), false, "h").config;
    let pw = c.postgres_password.clone();
    c.harden();
    assert_eq!(c.bootstrap_admin, "0");
    assert_eq!(c.bootstrap_admin_reset_password, "0");
    assert_eq!(c.postgres_password, pw);
}
