//! Process-wide configuration.
//!
//! Loaded once at startup and immutable thereafter; every component receives
//! the values it needs explicitly, never through ambient global state.

use vstd::prelude::*;
use vstd::string::StringExecFns;

verus! {

/// How verbose the process's logging should be.
#[derive(Clone, Copy, Debug, PartialEq, Eq, Structural)]
pub enum DebugLevel {
    Info,
    Debug,
    Trace,
}

/// The configuration the process starts with: where to bind, how to log,
/// the region's branding, the mail and database parameters, and the keys
/// and identifiers of the external collaborators.
#[derive(Clone, Debug)]
pub struct ConfigFile {
    pub bind_address: String,
    pub bind_port: u16,
    pub debug: DebugLevel,
    pub f3_region: String,
    pub email_sender_address: String,
    pub email_reply_to_address: String,
    pub email_smtp_host: String,
    pub email_smtp_user: Option<String>,
    pub email_smtp_pass: Option<String>,
    pub mysql_hostname: String,
    pub mysql_port: u16,
    pub mysql_username: String,
    pub mysql_password: String,
    pub mysql_database: String,
    pub mailchimp_api_endpoint: String,
    pub mailchimp_list_id: String,
    pub mailchimp_api_key: String,
    pub slack_api_key: String,
    pub slack_channel_id: String,
    pub slack_signing_secret: String,
    pub slack_invite_link: String,
}

/// The decimal digit for a value below ten.
pub open spec fn dec_digit(v: int) -> char {
    if v == 0 {
        '0'
    } else if v == 1 {
        '1'
    } else if v == 2 {
        '2'
    } else if v == 3 {
        '3'
    } else if v == 4 {
        '4'
    } else if v == 5 {
        '5'
    } else if v == 6 {
        '6'
    } else if v == 7 {
        '7'
    } else if v == 8 {
        '8'
    } else {
        '9'
    }
}

/// The usual decimal rendering of a non-negative number, without leading
/// zeros.
pub open spec fn dec_of(n: int) -> Seq<char>
    decreases n,
{
    if n < 10 {
        seq![dec_digit(n)]
    } else {
        dec_of(n / 10) + seq![dec_digit(n % 10)]
    }
}

fn digit_str(d: u16) -> (r: &'static str)
    requires
        d < 10,
    ensures
        r@ =~= seq![dec_digit(d as int)],
{
    proof {
        reveal_strlit("0");
        reveal_strlit("1");
        reveal_strlit("2");
        reveal_strlit("3");
        reveal_strlit("4");
        reveal_strlit("5");
        reveal_strlit("6");
        reveal_strlit("7");
        reveal_strlit("8");
        reveal_strlit("9");
    }
    if d == 0 {
        "0"
    } else if d == 1 {
        "1"
    } else if d == 2 {
        "2"
    } else if d == 3 {
        "3"
    } else if d == 4 {
        "4"
    } else if d == 5 {
        "5"
    } else if d == 6 {
        "6"
    } else if d == 7 {
        "7"
    } else if d == 8 {
        "8"
    } else {
        "9"
    }
}

/// Render a port number in decimal.
pub fn u16_to_string(n: u16) -> (r: String)
    ensures
        r@ == dec_of(n as int),
    decreases n,
{
    if n < 10 {
        digit_str(n).to_owned()
    } else {
        let mut s = u16_to_string(n / 10);
        s.append(digit_str(n % 10));
        s
    }
}

/// The connection URL for the relational store, composed from the
/// configured credentials, host, port and database name.
pub open spec fn db_url_spec(
    username: Seq<char>,
    password: Seq<char>,
    hostname: Seq<char>,
    port: int,
    database: Seq<char>,
) -> Seq<char> {
    "mysql://"@ + username + ":"@ + password + "@"@ + hostname + ":"@ + dec_of(port) + "/"@
        + database
}

/// Build the connection URL for the relational store.
pub fn db_url(config: &ConfigFile) -> (r: String)
    ensures
        r@ == db_url_spec(
            config.mysql_username@,
            config.mysql_password@,
            config.mysql_hostname@,
            config.mysql_port as int,
            config.mysql_database@,
        ),
{
    let mut s = "mysql://".to_owned();
    s.append(config.mysql_username.as_str());
    s.append(":");
    s.append(config.mysql_password.as_str());
    s.append("@");
    s.append(config.mysql_hostname.as_str());
    s.append(":");
    let port = u16_to_string(config.mysql_port);
    s.append(port.as_str());
    s.append("/");
    s.append(config.mysql_database.as_str());
    s
}

/// The SMTP credentials the invitation transport should use: none when no
/// user is configured, and otherwise the configured user with the
/// configured password, or with an empty password when none is set.
pub open spec fn smtp_credentials_spec(user: Option<Seq<char>>, pass: Option<Seq<char>>) -> Option<
    (Seq<char>, Seq<char>),
> {
    match user {
        None => None,
        Some(u) => Some(
            (
                u,
                match pass {
                    Some(p) => p,
                    None => Seq::<char>::empty(),
                },
            ),
        ),
    }
}

/// Decide the SMTP credentials from the configured user and password.
pub fn smtp_credentials(config: &ConfigFile) -> (r: Option<(String, String)>)
    ensures
        r.deep_view() == smtp_credentials_spec(
            config.email_smtp_user.deep_view(),
            config.email_smtp_pass.deep_view(),
        ),
{
    let user = match &config.email_smtp_user {
        Some(u) => u.clone(),
        None => { return None },
    };
    let pass = match &config.email_smtp_pass {
        Some(p) => p.clone(),
        None => String::new(),
    };
    Some((user, pass))
}

} // verus!
