use operit::link::{
    client_pair_finish_request, client_pair_start_request, client_pair_start_state, content_type_for_extension,
    inject_web_access_runtime_config, pairing_code_from, parse_public_key, public_key_to_string,
    sanitize_web_asset_path, token_matches, PairStartState, PairedRemoteSession, RemoteDeviceInfo,
    RemoteLinkClient, RemoteLinkServerState,
};

fn info(platform: &str, model: &str) -> RemoteDeviceInfo {
    RemoteDeviceInfo { platform: platform.to_string(), model: model.to_string() }
}

fn server() -> RemoteLinkServerState {
    RemoteLinkServerState::new("tok".to_string(), vec![7u8; 32], "core-1".to_string(), info("linux", "pc"))
}

const CLIENT_SECRET: [u8; 32] = [9u8; 32];

/// Runs the first half of a pairing and returns the client's state.
fn start_pairing(server: &mut RemoteLinkServerState, pairing_id: &str, code: &str) -> PairStartState {
    let request = client_pair_start_request("tok", &CLIENT_SECRET, "dev-1".to_string(), info("android", "phone"), "cn".to_string());
    let shared = server.pair_start_check(&request).ok().expect("pair start accepted");
    let response = server.pair_start_commit(request, shared, pairing_id.to_string(), code.to_string(), "sn".to_string());
    assert_eq!(response.pairingId, pairing_id);
    assert_eq!(response.serverNonce, "sn");
    client_pair_start_state(&CLIENT_SECRET, "dev-1".to_string(), info("android", "phone"), "cn".to_string(), response)
        .ok()
        .expect("core key accepted")
}

#[test]
fn device_info_display_name() {
    assert_eq!(info("linux", "pc").displayName(), "linux-pc");
}

#[test]
fn hello_needs_the_token() {
    let s = server();
    let hello = s.hello(Some("tok")).ok().expect("hello");
    assert!(hello.pairingRequired);
    assert_eq!(hello.protocolVersion, 1);
    let refused = s.hello(Some("nope")).err().expect("refused");
    assert_eq!(refused.status, 401);
    assert_eq!(refused.error.code, "UNAUTHORIZED");
    assert_eq!(refused.error.message, "invalid token");
    assert!(s.hello(None).is_err());
    assert!(token_matches("a", Some("a")));
    assert!(!token_matches("a", None));
}

#[test]
fn pairing_handshake_gives_both_sides_one_secret() {
    let mut s = server();
    let state = start_pairing(&mut s, "p1", "123456");
    let finish = client_pair_finish_request(&state, " 123456 ");
    assert_eq!(finish.pairingCode, "123456");
    let (pairing, secret) = s.pair_finish_check(&finish).ok().expect("pairing accepted");
    assert_eq!(pairing.clientDeviceId, "dev-1");
    let answer = s.pair_finish_commit("sid".to_string(), pairing, secret);
    assert_eq!(answer.sessionId, "sid");
    let session = PairedRemoteSession::complete("http://host:9050", &state, answer).ok().expect("core proof");
    let body = br#"{"x":1}"#;
    let signature = session.sign_body(body);
    assert!(s.verify_session(Some("sid"), Some("dev-1"), Some(&signature), body).is_ok());
    let wrong = s.verify_session(Some("sid"), Some("dev-1"), Some("AAAA"), body).err().expect("bad signature");
    assert_eq!(wrong.status, 401);
    let other_device = s.verify_session(Some("sid"), Some("dev-2"), Some(&signature), body).err().expect("device");
    assert_eq!(other_device.error.message, "device mismatch");
    let missing = s.verify_session(None, Some("dev-1"), Some(&signature), body).err().expect("missing");
    assert_eq!(missing.error.message, "missing session");
    assert!(s.needs_refresh("sid"));
    let info = s.session_info(Some("sid"), "n1".to_string()).ok().expect("session info");
    assert_eq!(info.clientDeviceId, "dev-1");
    assert_eq!(info.nonce, "n1");
    assert_eq!(info.transports, vec!["http".to_string(), "ws".to_string()]);
}

#[test]
fn pairing_with_a_wrong_code_is_refused_and_forgotten() {
    let mut s = server();
    let state = start_pairing(&mut s, "p2", "111111");
    let finish = client_pair_finish_request(&state, "222222");
    let refused = s.pair_finish_check(&finish).err().expect("wrong code");
    assert_eq!(refused.status, 401);
    assert_eq!(refused.error.message, "invalid pairing code");
    let again = s.pair_finish_check(&finish).err().expect("pairing gone");
    assert_eq!(again.status, 400);
    assert_eq!(again.error.message, "pairing not found");
}

#[test]
fn pairing_with_a_forged_proof_is_refused() {
    let mut s = server();
    let state = start_pairing(&mut s, "p3", "333333");
    let mut finish = client_pair_finish_request(&state, "333333");
    finish.clientProof = "forged".to_string();
    let refused = s.pair_finish_check(&finish).err().expect("forged proof");
    assert_eq!(refused.error.message, "invalid client proof");
}

#[test]
fn pair_start_refuses_bad_token_and_bad_key() {
    let s = server();
    let mut request = client_pair_start_request("bad", &CLIENT_SECRET, "dev".to_string(), info("a", "b"), "n".to_string());
    let refused = s.pair_start_check(&request).err().expect("bad token");
    assert_eq!(refused.status, 401);
    request.token = "tok".to_string();
    request.clientPublicKey = "AAAA".to_string();
    let refused = s.pair_start_check(&request).err().expect("short key");
    assert_eq!(refused.status, 400);
    assert_eq!(refused.error.code, "BAD_REQUEST");
}

#[test]
fn exported_record_restores_the_session() {
    let mut s = server();
    let state = start_pairing(&mut s, "p4", "444444");
    let finish = client_pair_finish_request(&state, "444444");
    let (pairing, secret) = s.pair_finish_check(&finish).ok().expect("pairing accepted");
    let answer = s.pair_finish_commit("sid4".to_string(), pairing, secret);
    let session = PairedRemoteSession::complete("http://host/", &state, answer).ok().expect("core proof");
    let record = session.exportRecord();
    let restored = PairedRemoteSession::fromRecord(record).ok().expect("restored");
    assert_eq!(restored.sign_body(b"abc"), session.sign_body(b"abc"));
    assert_eq!(restored.baseUrl, "http://host");
}

#[test]
fn restoring_a_broken_record_fails() {
    let mut s = server();
    let state = start_pairing(&mut s, "p5", "555555");
    let finish = client_pair_finish_request(&state, "555555");
    let (pairing, secret) = s.pair_finish_check(&finish).ok().expect("pairing accepted");
    let answer = s.pair_finish_commit("sid5".to_string(), pairing, secret);
    let session = PairedRemoteSession::complete("http://host", &state, answer).ok().expect("core proof");
    let mut record = session.exportRecord();
    record.sessionSecret = "%%%".to_string();
    assert!(PairedRemoteSession::fromRecord(record).is_err());
}

#[test]
fn public_keys_round_trip_through_base64() {
    let key = vec![3u8; 32];
    let text = public_key_to_string(&key);
    assert_eq!(parse_public_key(&text), Ok(key));
    assert!(parse_public_key("AAAA").is_err());
    assert!(parse_public_key("not base64!").is_err());
}

#[test]
fn pairing_codes_have_six_digits() {
    assert_eq!(pairing_code_from(42), "000042");
    assert_eq!(pairing_code_from(1_234_567), "234567");
    assert_eq!(pairing_code_from(999_999), "999999");
}

#[test]
fn web_asset_paths_stay_inside_the_root() {
    assert_eq!(sanitize_web_asset_path("/").ok(), Some("index.html".to_string()));
    assert_eq!(sanitize_web_asset_path("//app/main.js").ok(), Some("app/main.js".to_string()));
    let refused = sanitize_web_asset_path("/a/../secret").err().expect("refused");
    assert_eq!(refused.status, 400);
    assert_eq!(refused.error.message, "invalid web asset path");
    assert!(sanitize_web_asset_path("./x").is_err());
    assert_eq!(content_type_for_extension(Some("js")), "application/javascript; charset=utf-8");
    assert_eq!(content_type_for_extension(Some("jpeg")), "image/jpeg");
    assert_eq!(content_type_for_extension(Some("bin")), "application/octet-stream");
    assert_eq!(content_type_for_extension(None), "application/octet-stream");
}

#[test]
fn runtime_config_goes_before_the_bridge_script() {
    let html = "<head><script src=\"operit_runtime_bridge.js\"></script></head>";
    assert_eq!(
        inject_web_access_runtime_config(html, "{}"),
        "<head><script>window.__OPERIT_WEB_ACCESS__ = {};</script>\n  <script src=\"operit_runtime_bridge.js\"></script></head>"
    );
    assert_eq!(inject_web_access_runtime_config("<p/>", "{}"), "<p/>");
}

#[test]
fn client_urls_drop_trailing_slashes() {
    let c = RemoteLinkClient::new("http://h:1//");
    assert_eq!(c.url("/api/hello"), "http://h:1/api/hello");
}
