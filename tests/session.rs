use bitsrun::client::decimal;
use bitsrun::client::encode_info;
use bitsrun::client::login_params;
use bitsrun::client::login_payload;
use bitsrun::client::payload_object;
use bitsrun::client::SrunClient;
use bitsrun::portal::ac_id_from_url;
use bitsrun::portal::unwrap_jsonp;
use bitsrun::portal::SrunError;
use bitsrun::portal::SrunLoginState;
use bitsrun::portal::SrunPortalResponse;
use bitsrun::signature::logout_sign;

fn pairs(items: &[(&str, &str)]) -> Vec<(String, String)> {
    items
        .iter()
        .map(|(k, v)| (k.to_string(), v.to_string()))
        .collect()
}

fn session(error: &str, user_name: Option<&str>, online_ip: &str, dm: bool) -> SrunClient {
    let mut state = SrunLoginState::new(error.to_string(), online_ip.to_string());
    state.user_name = user_name.map(|u| u.to_string());
    SrunClient::new(
        "3120225654".to_string(),
        "p\"w".to_string(),
        "1".to_string(),
        state,
        Some("10.0.0.5".to_string()),
        Some(dm),
    )
}

#[test]
fn new_uses_override_or_online_ip() {
    let state = SrunLoginState::new("ok".to_string(), "10.1.2.3".to_string());
    let c = SrunClient::new(
        "u".to_string(),
        "p".to_string(),
        "7".to_string(),
        state.clone(),
        None,
        None,
    );
    assert_eq!(c.ip, "10.1.2.3");
    assert!(!c.dm);
    assert_eq!(c.portal, "http://10.0.0.55");
    let c = SrunClient::new(
        "u".to_string(),
        "p".to_string(),
        "7".to_string(),
        state,
        Some("10.9.9.9".to_string()),
        Some(true),
    );
    assert_eq!(c.ip, "10.9.9.9");
    assert!(c.dm);
}

#[test]
fn login_short_circuits_when_online() {
    let c = session("ok", Some("3120225654"), "10.0.0.5", false);
    assert_eq!(
        c.login(false).err(),
        Some(SrunError::AlreadyLoggedIn("10.0.0.5".to_string()))
    );
}

#[test]
fn forced_login_asks_for_challenge() {
    let c = session("ok", Some("3120225654"), "10.0.0.5", false);
    let req = c.login(true).ok().unwrap();
    assert_eq!(req.url, "http://10.0.0.55/cgi-bin/get_challenge");
    assert_eq!(
        req.params,
        pairs(&[("callback", "jsonp"), ("username", "3120225654"), ("ip", "10.0.0.5")])
    );
}

#[test]
fn login_payload_is_sorted_json() {
    assert_eq!(
        login_payload("3120225654", "p\"w", "10.0.0.5", "1").unwrap(),
        "{\"acid\":\"1\",\"enc_ver\":\"srun_bx1\",\"ip\":\"10.0.0.5\",\"password\":\"p\\\"w\",\"username\":\"3120225654\"}"
    );
    assert_eq!(
        payload_object("A", "I", "P", "U"),
        "{\"acid\":A,\"enc_ver\":\"srun_bx1\",\"ip\":I,\"password\":P,\"username\":U}"
    );
}

#[test]
fn encode_info_prefixes_marker() {
    let info = encode_info("hello world", "0123456789abcdef0123456789abcdef").unwrap();
    assert_eq!(info, "{SRBX1}GFRr4Bl6uC923cH2jlZFDS==");
}

#[test]
fn login_params_in_protocol_order() {
    let p = login_params("u", "h", "c", "i", "a", "ip");
    assert_eq!(
        p,
        pairs(&[
            ("callback", "jsonp"),
            ("action", "login"),
            ("username", "u"),
            ("password", "{MD5}h"),
            ("chksum", "c"),
            ("info", "i"),
            ("ac_id", "a"),
            ("ip", "ip"),
            ("type", "1"),
            ("n", "200"),
        ])
    );
}

#[test]
fn login_submission_rejects_empty_challenge() {
    let c = session("not_online_error", None, "10.0.0.5", false);
    assert_eq!(c.login_submission("").err(), Some(SrunError::EmptyChallenge));
}

#[test]
fn logout_short_circuits_when_offline() {
    let c = session("not_online_error", None, "10.0.0.5", false);
    assert_eq!(
        c.logout_at(false, 0).err(),
        Some(SrunError::AlreadyLoggedOut("10.0.0.5".to_string()))
    );
    assert!(c.logout(false).is_err());
    assert!(c.logout_at(true, 0).is_ok());
}

#[test]
fn logout_with_other_user_warns_and_proceeds() {
    let c = session("ok", Some("someone_else"), "10.0.0.5", false);
    let plan = c.logout_at(false, 0).ok().unwrap();
    assert!(plan.user_mismatch);
    assert!(!plan.ip_mismatch);
    assert_eq!(plan.request.url, "http://10.0.0.55/cgi-bin/srun_portal");
    assert_eq!(
        plan.request.params,
        pairs(&[
            ("callback", "jsonp"),
            ("ip", "10.0.0.5"),
            ("username", "someone_else"),
            ("action", "logout"),
            ("ac_id", "1"),
        ])
    );
}

#[test]
fn logout_flags_ip_mismatch() {
    let c = session("ok", Some("3120225654"), "10.0.0.6", false);
    let plan = c.logout(false).ok().unwrap();
    assert!(!plan.user_mismatch);
    assert!(plan.ip_mismatch);
}

#[test]
fn dm_logout_is_signed_with_timestamp() {
    let c = session("ok", Some("3120225654"), "10.0.0.5", true);
    let plan = c.logout_at(false, 1700000000).ok().unwrap();
    assert_eq!(plan.request.url, "http://10.0.0.55/cgi-bin/rad_user_dm");
    assert_eq!(
        plan.request.params,
        pairs(&[
            ("callback", "jsonp"),
            ("ip", "10.0.0.5"),
            ("username", "3120225654"),
            ("time", "1700000000"),
            ("unbind", "1"),
            ("sign", "6bb40d1220eb99ccaa81ddd8579a82b72073b132"),
        ])
    );
    let now = c.logout(false).ok().unwrap();
    let time = &now.request.params[3].1;
    assert_eq!(
        now.request.params[5].1,
        logout_sign(time, "3120225654", "10.0.0.5", "1")
    );
}

#[test]
fn decimal_writes_integers() {
    assert_eq!(decimal(0), "0");
    assert_eq!(decimal(7), "7");
    assert_eq!(decimal(1700000000), "1700000000");
    assert_eq!(decimal(-42), "-42");
    assert_eq!(decimal(i64::MAX), i64::MAX.to_string());
    assert_eq!(decimal(i64::MIN), i64::MIN.to_string());
}

fn text_field(v: &serde_json::Value, key: &str) -> String {
    v.get(key).and_then(|x| x.as_str()).unwrap_or_default().to_string()
}

#[test]
fn scripted_login_exchange_succeeds() {
    // redirect that reveals the access-controller id
    let ac_id = ac_id_from_url("http://10.0.0.55/srun_portal_pc?ac_id=1&theme=bit").unwrap();
    // the device is offline
    let status = unwrap_jsonp(
        "jsonp({\"client_ip\":\"10.0.0.5\",\"error\":\"not_online_error\",\"online_ip\":\"10.0.0.5\",\"res\":\"not_online_error\"})",
    )
    .unwrap();
    let status: serde_json::Value = serde_json::from_str(&status).unwrap();
    let state = SrunLoginState::new(text_field(&status, "error"), text_field(&status, "online_ip"));
    let c = SrunClient::new(
        "3120225654".to_string(),
        "p\"w".to_string(),
        ac_id,
        state,
        None,
        None,
    );
    let challenge_req = c.login(false).ok().unwrap();
    assert_eq!(challenge_req.url, "http://10.0.0.55/cgi-bin/get_challenge");
    // the challenge token
    let body = unwrap_jsonp("jsonp({\"challenge\":\"abc123\",\"client_ip\":\"10.0.0.5\"})").unwrap();
    let body: serde_json::Value = serde_json::from_str(&body).unwrap();
    let token = text_field(&body, "challenge");
    let req = c.login_submission(&token).ok().unwrap();
    assert_eq!(req.url, "http://10.0.0.55/cgi-bin/srun_portal");
    assert_eq!(
        req.params,
        pairs(&[
            ("callback", "jsonp"),
            ("action", "login"),
            ("username", "3120225654"),
            ("password", "{MD5}0eee86e484505ec4ab48c18095e6a8ac"),
            ("chksum", "78fb63673dac3367d6d8c93bf2ff66c1e6448651"),
            ("info", "{SRBX1}qho7HI4RdlvhjnoATL/uJ5oyND8MuROjDXunypL+CmEOzjz0tDQcSLXnLpdMjTU+Fz9ZIebZZ3rWiDF99SQJZwKy4FSw/uWAHwrv0SiI8Oflu4R+4egWbpPCG2nkm/r9"),
            ("ac_id", "1"),
            ("ip", "10.0.0.5"),
            ("type", "1"),
            ("n", "200"),
        ])
    );
    // the portal accepts
    let body = unwrap_jsonp(
        "jsonp({\"client_ip\":\"10.0.0.5\",\"error\":\"ok\",\"error_msg\":\"\",\"online_ip\":\"10.0.0.5\",\"res\":\"ok\",\"suc_msg\":\"login_ok\"})",
    )
    .unwrap();
    let body: serde_json::Value = serde_json::from_str(&body).unwrap();
    let resp = SrunPortalResponse {
        access_token: None,
        username: None,
        suc_msg: Some(text_field(&body, "suc_msg")),
        client_ip: text_field(&body, "client_ip"),
        online_ip: text_field(&body, "online_ip"),
        error: text_field(&body, "error"),
        error_msg: text_field(&body, "error_msg"),
        res: text_field(&body, "res"),
    };
    assert!(resp.login_succeeded());
}
