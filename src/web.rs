use crate::config::ClientConfiguration;
use crate::ids::{uuid_text, uuid_text_of};
use vstd::prelude::*;
use vstd::string::*;

verus! {

/// Days a token stays valid when the server does not say otherwise.
pub const TOKEN_VALIDITY_DAYS: i32 = 10;

/// The day number of the calendar date that `s` spells in the strftime
/// format `fmt`, counted from 1 January of year 1 (day 1); `None` if `s`
/// does not spell a date in that format.
pub uninterp spec fn parsed_day_number(s: Seq<char>, fmt: Seq<char>) -> Option<int>;

/// Relies on chrono::NaiveDate::parse_from_str and
/// chrono::Datelike::num_days_from_ce: parse a calendar date, then count its
/// days from the common era.
#[verifier::external_body]
fn parse_date_days(s: &str, fmt: &str) -> (r: Option<i32>)
    ensures
        match r {
            None => parsed_day_number(s@, fmt@) is None,
            Some(d) => parsed_day_number(s@, fmt@) == Some(d as int),
        },
{
    match chrono::NaiveDate::parse_from_str(s, fmt) {
        Ok(d) => Some(chrono::Datelike::num_days_from_ce(&d)),
        Err(_) => None,
    }
}

/// The expiry day of a token obtained on day `today`: the date the server
/// sent as `YYYYMMDD`, or, when it sent none or an unreadable one, ten days on.
pub open spec fn token_expiry_spec(expires: Option<Seq<char>>, today: int) -> int {
    match expires {
        Some(s) => match parsed_day_number(s, "%Y%m%d"@) {
            Some(d) => d,
            None => today + TOKEN_VALIDITY_DAYS,
        },
        None => today + TOKEN_VALIDITY_DAYS,
    }
}

pub fn token_expiry(expires: Option<&str>, today: i32) -> (r: i32)
    requires
        today <= i32::MAX - TOKEN_VALIDITY_DAYS,
    ensures
        r == token_expiry_spec(
            match expires {
                Some(s) => Some(s@),
                None => None,
            },
            today as int,
        ),
{
    match expires {
        Some(s) => match parse_date_days(s, "%Y%m%d") {
            Some(d) => d,
            None => today + TOKEN_VALIDITY_DAYS,
        },
        None => today + TOKEN_VALIDITY_DAYS,
    }
}

/// The page on which the user registers this client with the service.
pub open spec fn register_url_spec(server: Seq<char>, client_id: Seq<char>) -> Seq<char> {
    "http://"@ + server + "/dashboard/destinations/client/register_client?client_id="@ + client_id
}

/// The configured server, or nothing.
pub open spec fn server_or_empty(c: ClientConfiguration) -> Seq<char> {
    match c.ingest_server {
        Some(s) => s@,
        None => Seq::empty(),
    }
}

/// The id shown to the service: the hardware id, or `fallback` without one.
pub open spec fn shown_id(c: ClientConfiguration, fallback: u128) -> u128 {
    match c.hardware_id {
        Some(h) => h,
        None => fallback,
    }
}

/// The page templates of the local web server.
#[derive(Clone, Copy, Debug, PartialEq, Eq, Structural)]
pub enum Template {
    Register,
    Main,
}

impl Template {
    pub fn file_name(&self) -> (r: &'static str)
        ensures
            r@ == match self {
                Template::Register => "register.hbs"@,
                Template::Main => "main.hbs"@,
            },
    {
        match self {
            Template::Register => "register.hbs",
            Template::Main => "main.hbs",
        }
    }
}

/// The values a page template is rendered with.
#[derive(Clone, Debug)]
pub struct PageVariables {
    pub register_url: String,
    pub error_message: Option<String>,
    pub success_message: Option<String>,
    pub connected: Option<bool>,
}

impl PageVariables {
    /// The variables of a page for `config`, with no message yet. `fallback_id`
    /// stands in for a missing hardware id.
    pub fn new(config: &ClientConfiguration, fallback_id: u128) -> (r: PageVariables)
        ensures
            r.register_url@ == register_url_spec(
                server_or_empty(*config),
                uuid_text_of(shown_id(*config, fallback_id)),
            ),
            r.error_message is None,
            r.success_message is None,
            r.connected is None,
    {
        let mut url = String::from_str("http://");
        match &config.ingest_server {
            Some(s) => url.append(s.as_str()),
            None => {},
        }
        url.append("/dashboard/destinations/client/register_client?client_id=");
        let id = match config.hardware_id {
            Some(h) => h,
            None => fallback_id,
        };
        let id_text = uuid_text(id);
        url.append(id_text.as_str());
        PageVariables { register_url: url, error_message: None, success_message: None, connected: None }
    }
}

/// A rendered-page decision: which template, with which variables.
pub struct Page {
    pub template: Template,
    pub vars: PageVariables,
}

/// The landing page: the registration page until a token is stored, the main
/// page after. It shows whether the client is connected; when it is not, the
/// caller starts a connection attempt (`reconnect`).
pub fn landing_page(config: &ClientConfiguration, fallback_id: u128, connected: bool) -> (r: (
    Page,
    bool,
))
    ensures
        r.0.template == if config.token is None {
            Template::Register
        } else {
            Template::Main
        },
        r.0.vars.register_url@ == register_url_spec(
            server_or_empty(*config),
            uuid_text_of(shown_id(*config, fallback_id)),
        ),
        r.0.vars.connected == Some(connected),
        r.0.vars.error_message is None,
        r.0.vars.success_message is None,
        r.1 == !connected,
{
    let mut vars = PageVariables::new(config, fallback_id);
    vars.connected = Some(connected);
    let template = if config.token.is_none() {
        Template::Register
    } else {
        Template::Main
    };
    (Page { template, vars }, !connected)
}

/// The answer to an authentication callback that carried no token.
pub fn callback_without_token(config: &ClientConfiguration, fallback_id: u128) -> (r: Page)
    ensures
        r.template == Template::Register,
        r.vars.error_message matches Some(m) && m@
            == "No token present in callback, try registering again"@,
        r.vars.success_message is None,
        r.vars.register_url@ == register_url_spec(
            server_or_empty(*config),
            uuid_text_of(shown_id(*config, fallback_id)),
        ),
{
    let mut vars = PageVariables::new(config, fallback_id);
    vars.error_message = Some(String::from_str("No token present in callback, try registering again"));
    Page { template: Template::Register, vars }
}

/// The answer to an authentication callback whose token the server refused
/// at the verification handshake; `reason` is the failure's text.
pub fn callback_refused(config: &ClientConfiguration, fallback_id: u128, reason: String) -> (r:
    Page)
    ensures
        r.template == Template::Register,
        r.vars.error_message matches Some(m) && m@ == reason@,
        r.vars.success_message is None,
{
    let mut vars = PageVariables::new(config, fallback_id);
    vars.error_message = Some(reason);
    Page { template: Template::Register, vars }
}

/// The answer to an authentication callback whose token passed the
/// verification handshake on day `today`: the configuration to persist, with
/// the token and its expiry, and the page that asks for a restart.
pub fn callback_verified(
    config: &ClientConfiguration,
    fallback_id: u128,
    token: String,
    expires: Option<&str>,
    today: i32,
) -> (r: (ClientConfiguration, Page))
    requires
        today <= i32::MAX - TOKEN_VALIDITY_DAYS,
    ensures
        r.0.hardware_id == config.hardware_id,
        r.0.ingest_server == config.ingest_server,
        r.0.token == Some(token),
        r.0.token_expires_at == Some(
            token_expiry_spec(
                match expires {
                    Some(s) => Some(s@),
                    None => None,
                },
                today as int,
            ) as i32,
        ),
        r.1.template == Template::Main,
        r.1.vars.success_message matches Some(m) && m@
            == "Successfully registered client. Restart Required"@,
        r.1.vars.error_message is None,
{
    let expires_at = token_expiry(expires, today);
    let updated = config.with_token(token, expires_at);
    let mut vars = PageVariables::new(config, fallback_id);
    vars.success_message = Some(String::from_str("Successfully registered client. Restart Required"));
    (updated, Page { template: Template::Main, vars })
}

} // verus!
