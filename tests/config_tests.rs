use chrono::Datelike;
use ingest_client::config::socket_address;
use ingest_client::web::{callback_refused, callback_verified, callback_without_token, landing_page, token_expiry};
use ingest_client::{
    ClientConfiguration, ClientError, ConnectionSupervisor, MissingSetting, PageVariables,
    SessionState, Template,
};

fn config(token: Option<&str>, id: Option<u128>) -> ClientConfiguration {
    ClientConfiguration {
        hardware_id: id,
        ingest_server: Some(String::from("ingest.example:4000")),
        token: token.map(String::from),
        token_expires_at: None,
    }
}

#[test]
fn start_without_token_reports_missing_configuration() {
    let sup = ConnectionSupervisor::new();
    let r = sup.start(&config(None, Some(1)));
    assert!(matches!(r, Err(ClientError::ConfigurationMissing(MissingSetting::Token))));
    assert!(!sup.is_connected());
}

#[test]
fn start_without_identity_reports_missing_configuration() {
    let sup = ConnectionSupervisor::new();
    let r = sup.start(&config(Some("tok"), None));
    assert!(matches!(r, Err(ClientError::ConfigurationMissing(MissingSetting::Identity))));
}

#[test]
fn start_gives_handshaking_session_and_url() {
    let mut sup = ConnectionSupervisor::new();
    let start = sup.start(&config(Some("tok"), Some(0xabc))).unwrap();
    assert_eq!(start.url, "ws://ingest.example:4000/client/websocket?vsn=2.0.0&token=tok");
    assert_eq!(start.session.current_state(), SessionState::Handshaking);
    let mut session = start.session;
    session.handshake_succeeded();
    let join = session.next_outbound().unwrap();
    assert_eq!(join.2 .0, "client:00000000-0000-0000-0000-000000000abc");
    sup.transport_opened();
    assert!(sup.is_connected());
    sup.session_ended();
    assert!(!sup.is_connected());
}

#[test]
fn defaults_fill_server_and_identity() {
    let c = ClientConfiguration { hardware_id: None, ingest_server: None, token: None, token_expires_at: None };
    let (filled, assigned) = c.fill_defaults(5);
    assert!(assigned);
    assert_eq!(filled.hardware_id, Some(5));
    assert_eq!(filled.ingest_server.as_deref(), Some("localhost:4000"));
    let (again, assigned) = filled.fill_defaults(6);
    assert!(!assigned);
    assert_eq!(again.hardware_id, Some(5));
    assert_eq!(socket_address("localhost:4000", "t"), "ws://localhost:4000/client/websocket?vsn=2.0.0&token=t");
}

#[test]
fn authentication_needed_rules() {
    let mut c = config(Some("tok"), Some(1));
    assert!(c.needs_authentication(700_000));
    c.token_expires_at = Some(700_000);
    assert!(!c.needs_authentication(700_000));
    assert!(c.needs_authentication(700_001));
    c.token = None;
    assert!(!c.needs_authentication(700_001));
}

#[test]
fn token_expiry_reads_date_or_adds_ten_days() {
    let day = chrono::NaiveDate::from_ymd_opt(2024, 1, 31).unwrap().num_days_from_ce();
    assert_eq!(token_expiry(Some("20240131"), 700_000), day);
    assert_eq!(token_expiry(Some("31-01-2024"), 700_000), 700_010);
    assert_eq!(token_expiry(None, 700_000), 700_010);
}

#[test]
fn register_url_and_pages() {
    let c = config(None, Some(0x10));
    let vars = PageVariables::new(&c, 99);
    assert_eq!(
        vars.register_url,
        "http://ingest.example:4000/dashboard/destinations/client/register_client?client_id=00000000-0000-0000-0000-000000000010"
    );
    let (page, reconnect) = landing_page(&c, 99, false);
    assert_eq!(page.template, Template::Register);
    assert_eq!(page.vars.connected, Some(false));
    assert!(reconnect);
    let (page, reconnect) = landing_page(&config(Some("t"), Some(1)), 99, true);
    assert_eq!(page.template, Template::Main);
    assert!(!reconnect);
    assert_eq!(Template::Main.file_name(), "main.hbs");

    let missing = callback_without_token(&c, 99);
    assert_eq!(missing.template, Template::Register);
    assert_eq!(missing.vars.error_message.as_deref(), Some("No token present in callback, try registering again"));
    let refused = callback_refused(&c, 99, String::from("HTTP error: 403 Forbidden"));
    assert_eq!(refused.vars.error_message.as_deref(), Some("HTTP error: 403 Forbidden"));
    let (updated, ok) = callback_verified(&c, 99, String::from("new-token"), Some("20240131"), 700_000);
    assert_eq!(updated.token.as_deref(), Some("new-token"));
    assert_eq!(updated.hardware_id, Some(0x10));
    assert_eq!(updated.token_expires_at, Some(chrono::NaiveDate::from_ymd_opt(2024, 1, 31).unwrap().num_days_from_ce()));
    assert_eq!(ok.template, Template::Main);
    assert_eq!(ok.vars.success_message.as_deref(), Some("Successfully registered client. Restart Required"));
}

#[test]
fn page_without_identity_uses_fallback_id() {
    let c = ClientConfiguration { hardware_id: None, ingest_server: None, token: None, token_expires_at: None };
    let vars = PageVariables::new(&c, 0xff);
    assert_eq!(
        vars.register_url,
        "http:///dashboard/destinations/client/register_client?client_id=00000000-0000-0000-0000-0000000000ff"
    );
}
