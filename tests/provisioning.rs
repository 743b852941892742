use edge_onboard::artifacts::{build_bundle, launcher_prefill, pick_roles, pick_roles_lowered};
use edge_onboard::provision::{
    company_selected, login_token, register_url, registration_parts, DeviceRecord, LoginReply,
    ProvisionError, Registration,
};

fn device(company: &str, name: &str, id: &str) -> DeviceRecord {
    DeviceRecord {
        company_id: company.to_string(),
        company_name: name.to_string(),
        branch_id: Some("b1".to_string()),
        branch_name: Some("Main".to_string()),
        device_code: format!("{}-POS-01", name.to_uppercase().replace(' ', "-")),
        device_id: id.to_string(),
        device_token: format!("tok-{id}"),
    }
}

#[test]
fn register_url_encodes_and_resets_token() {
    let u = register_url("http://h:8001", "c 1", "ACME-POS-01", &None);
    assert_eq!(u, "http://h:8001/pos/devices/register?company_id=c%201&device_code=ACME-POS-01&reset_token=true");
    let b = register_url("http://h", "c1", "A-POS-02", &Some("br/é".to_string()));
    assert_eq!(b, "http://h/pos/devices/register?company_id=c1&device_code=A-POS-02&reset_token=true&branch_id=br%2F%C3%A9");
    let blank = register_url("http://h", "c1", "A-POS-02", &Some("  ".to_string()));
    assert!(!blank.contains("branch_id"));
}

#[test]
fn registering_the_same_code_twice_sends_the_same_request() {
    let a = register_url("http://h", "c1", "ACME-POS-01", &Some("b".to_string()));
    let b = register_url("http://h", "c1", "ACME-POS-01", &Some("b".to_string()));
    assert_eq!(a, b);
    assert!(a.contains("&reset_token=true"));
}

#[test]
fn login_reply_checks() {
    let mfa = LoginReply { mfa_required: true, token: Some("t".to_string()) };
    assert!(matches!(login_token(&mfa), Err(ProvisionError::MfaRequired)));
    let none = LoginReply { mfa_required: false, token: Some(" ".to_string()) };
    assert!(matches!(login_token(&none), Err(ProvisionError::NoToken)));
    let missing = LoginReply { mfa_required: false, token: None };
    assert!(matches!(login_token(&missing), Err(ProvisionError::NoToken)));
    let ok = LoginReply { mfa_required: false, token: Some("abc".to_string()) };
    assert_eq!(login_token(&ok).ok(), Some("abc".to_string()));
}

#[test]
fn registration_reply_checks() {
    let ok = Registration { id: Some("d1".to_string()), token: Some("t1".to_string()) };
    let (id, tok) = registration_parts(&ok, "X-POS-01").ok().unwrap();
    assert_eq!((id.as_str(), tok.as_str()), ("d1", "t1"));
    let bad = Registration { id: Some("d1".to_string()), token: None };
    match registration_parts(&bad, "X-POS-01") {
        Err(ProvisionError::RegistrationIncomplete(code)) => assert_eq!(code, "X-POS-01"),
        _ => panic!("expected an incomplete registration"),
    }
}

#[test]
fn tenant_filter() {
    let none: Vec<String> = vec![];
    assert!(company_selected("c1", &none));
    assert!(!company_selected("  ", &none));
    let blanks = vec![" ".to_string()];
    assert!(company_selected("c1", &blanks));
    let f = vec![" c2 ".to_string(), "c3".to_string()];
    assert!(company_selected(" c2", &f));
    assert!(!company_selected("c1", &f));
}

#[test]
fn official_and_unofficial_tenants_fill_their_slots() {
    let ds = vec![device("c-off", "Acme Official", "d1"), device("c-un", "Acme Unofficial", "d2")];
    assert_eq!(pick_roles(&ds), (Some(0), Some(1)));
    let p = launcher_prefill(&ds, "", "http://edge:8001");
    assert_eq!(p.company_official, "c-off");
    assert_eq!(p.device_id_official, "d1");
    assert_eq!(p.device_token_official, "tok-d1");
    assert_eq!(p.company_unofficial, "c-un");
    assert_eq!(p.device_id_unofficial, "d2");
    assert_eq!(p.edge_url, "http://edge:8001");
    assert_eq!(p.port_official, 7070);
    assert_eq!(p.port_unofficial, 7072);
}

#[test]
fn order_of_tenants_does_not_matter_for_roles() {
    let ds = vec![device("c-un", "ACME UNOFFICIAL", "d2"), device("c-off", "Acme OFFICIAL", "d1")];
    assert_eq!(pick_roles(&ds), (Some(1), Some(0)));
}

#[test]
fn a_single_device_fills_both_slots() {
    let ds = vec![device("c1", "Shop", "d1")];
    assert_eq!(pick_roles(&ds), (Some(0), Some(0)));
    let p = launcher_prefill(&ds, "https://cloud", "http://edge");
    assert_eq!(p.device_id_unofficial, "d1");
    assert_eq!(p.edge_url, "https://cloud");
    assert_eq!(p.edge_lan_url, "http://edge");
}

#[test]
fn unnamed_roles_fall_back_to_first_and_second() {
    let names = vec!["shop a".to_string(), "shop b".to_string(), "shop c".to_string()];
    assert_eq!(pick_roles_lowered(&names), (Some(0), Some(1)));
    let empty: Vec<String> = vec![];
    assert_eq!(pick_roles_lowered(&empty), (None, None));
}

#[test]
fn bundle_has_a_pack_per_device() {
    let ds = vec![device("c-off", "Acme Official", "d1"), device("c-un", "Acme Unofficial", "d2")];
    let b = build_bundle(&ds, "", "http://edge:8001");
    assert_eq!(b.packs.len(), 2);
    assert_eq!(b.packs[0].file_name, "acme-official__acme-official-pos-01.json");
    assert_eq!(b.packs[0].pack.api_base_url, "http://edge:8001");
    assert_eq!(b.packs[0].pack.branch_id, "b1");
    assert_eq!(b.packs[0].pack.shift_id, "");
    assert_eq!(b.packs[1].pack.device_token, "tok-d2");
    assert_eq!(b.devices.len(), 2);
    assert_eq!(b.devices[1].device_id, "d2");
    assert_eq!(b.edge_api_url_for_pos, "http://edge:8001");
}
