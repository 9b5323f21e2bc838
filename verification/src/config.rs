//! The settings that every component is built with, and how they are read
//! from the values of the environment.

use vstd::prelude::*;
use crate::entity::opt_text;

verus! {

/// Settings of the service. The lifetimes may be any `i64`: sums and
/// products of times are held at the bounds of `i64`.
#[derive(Debug, Clone, PartialEq, Eq)]
pub struct AppConfig {
    pub server_address: String,
    pub server_port: u16,
    pub database_url: String,
    pub jwt_secret: String,
    pub jwt_access_expiration_min: i64,
    pub jwt_refresh_expiration_days: i64,
    pub resend_api_key: String,
    pub app_url: String,
    pub email_from: String,
}

pub struct AppConfigView {
    pub server_address: Seq<char>,
    pub server_port: u16,
    pub database_url: Seq<char>,
    pub jwt_secret: Seq<char>,
    pub jwt_access_expiration_min: i64,
    pub jwt_refresh_expiration_days: i64,
    pub resend_api_key: Seq<char>,
    pub app_url: Seq<char>,
    pub email_from: Seq<char>,
}

impl View for AppConfig {
    type V = AppConfigView;

    open spec fn view(&self) -> AppConfigView {
        AppConfigView {
            server_address: self.server_address@,
            server_port: self.server_port,
            database_url: self.database_url@,
            jwt_secret: self.jwt_secret@,
            jwt_access_expiration_min: self.jwt_access_expiration_min,
            jwt_refresh_expiration_days: self.jwt_refresh_expiration_days,
            resend_api_key: self.resend_api_key@,
            app_url: self.app_url@,
            email_from: self.email_from@,
        }
    }
}

/// The values of the nine variables as the environment holds them, `None`
/// for one that is not set.
#[derive(Debug, Clone, PartialEq, Eq)]
pub struct ConfigSource {
    pub server_address: Option<String>,
    pub server_port: Option<String>,
    pub database_url: Option<String>,
    pub jwt_secret: Option<String>,
    pub jwt_access_expiration_min: Option<String>,
    pub jwt_refresh_expiration_days: Option<String>,
    pub resend_api_key: Option<String>,
    pub app_url: Option<String>,
    pub email_from: Option<String>,
}

pub struct ConfigSourceView {
    pub server_address: Option<Seq<char>>,
    pub server_port: Option<Seq<char>>,
    pub database_url: Option<Seq<char>>,
    pub jwt_secret: Option<Seq<char>>,
    pub jwt_access_expiration_min: Option<Seq<char>>,
    pub jwt_refresh_expiration_days: Option<Seq<char>>,
    pub resend_api_key: Option<Seq<char>>,
    pub app_url: Option<Seq<char>>,
    pub email_from: Option<Seq<char>>,
}

impl View for ConfigSource {
    type V = ConfigSourceView;

    open spec fn view(&self) -> ConfigSourceView {
        ConfigSourceView {
            server_address: opt_text(self.server_address),
            server_port: opt_text(self.server_port),
            database_url: opt_text(self.database_url),
            jwt_secret: opt_text(self.jwt_secret),
            jwt_access_expiration_min: opt_text(self.jwt_access_expiration_min),
            jwt_refresh_expiration_days: opt_text(self.jwt_refresh_expiration_days),
            resend_api_key: opt_text(self.resend_api_key),
            app_url: opt_text(self.app_url),
            email_from: opt_text(self.email_from),
        }
    }
}

/// The `u16` that `str::parse` reads from a text, if it reads one.
pub uninterp spec fn parsed_u16(text: Seq<char>) -> Option<u16>;

/// The `i64` that `str::parse` reads from a text, if it reads one.
pub uninterp spec fn parsed_i64(text: Seq<char>) -> Option<i64>;

/// `str::parse::<u16>`: the number that std reads from the text, named
/// `parsed_u16`.
#[verifier::external_body]
fn parse_u16(text: &str) -> (r: Option<u16>)
    ensures
        r == parsed_u16(text@),
{
    text.parse::<u16>().ok()
}

/// `str::parse::<i64>`: the number that std reads from the text, named
/// `parsed_i64`.
#[verifier::external_body]
fn parse_i64(text: &str) -> (r: Option<i64>)
    ensures
        r == parsed_i64(text@),
{
    text.parse::<i64>().ok()
}

/// The value of a variable, or `default` where it is not set.
pub open spec fn or_default(value: Option<Seq<char>>, default: Seq<char>) -> Seq<char> {
    match value {
        Some(v) => v,
        None => default,
    }
}

/// The settings that a source yields, or the complaint about the first
/// variable that is missing or is no number. The checks run in the order
/// port, database, secret, access lifetime, refresh lifetime, mail key.
pub open spec fn config_of(source: ConfigSourceView) -> Result<AppConfigView, Seq<char>> {
    let port = parsed_u16(or_default(source.server_port, "8080"@));
    let minutes = parsed_i64(or_default(source.jwt_access_expiration_min, "15"@));
    let days = parsed_i64(or_default(source.jwt_refresh_expiration_days, "7"@));
    if port is None {
        Err("SERVER_PORT must be a valid u16"@)
    } else if source.database_url is None {
        Err("DATABASE_URL must be set"@)
    } else if source.jwt_secret is None {
        Err("JWT_SECRET must be set"@)
    } else if minutes is None {
        Err("JWT_ACCESS_EXPIRATION_MIN must be a valid number"@)
    } else if days is None {
        Err("JWT_REFRESH_EXPIRATION_DAYS must be a valid number"@)
    } else if source.resend_api_key is None {
        Err("RESEND_API_KEY must be set"@)
    } else {
        Ok(
            AppConfigView {
                server_address: or_default(source.server_address, "127.0.0.1"@),
                server_port: port->0,
                database_url: source.database_url->0,
                jwt_secret: source.jwt_secret->0,
                jwt_access_expiration_min: minutes->0,
                jwt_refresh_expiration_days: days->0,
                resend_api_key: source.resend_api_key->0,
                app_url: or_default(source.app_url, "http://localhost:3000"@),
                email_from: or_default(source.email_from, "onboarding@resend.dev"@),
            },
        )
    }
}

fn value_or(value: Option<String>, default: &str) -> (r: String)
    ensures
        r@ == or_default(opt_text(value), default@),
{
    match value {
        Some(v) => v,
        None => String::from_str(default),
    }
}

impl AppConfig {
    /// Builds the settings from the values of the environment, with the
    /// defaults for what is not set. The error is the complaint to stop
    /// with.
    pub fn from_source(source: ConfigSource) -> (r: Result<AppConfig, String>)
        ensures
            match r {
                Ok(config) => config_of(source@) == Ok::<AppConfigView, Seq<char>>(config@),
                Err(complaint) => config_of(source@) == Err::<AppConfigView, Seq<char>>(
                    complaint@,
                ),
            },
    {
        let server_address = value_or(source.server_address, "127.0.0.1");
        let server_port = match parse_u16(value_or(source.server_port, "8080").as_str()) {
            Some(port) => port,
            None => { return Err(String::from_str("SERVER_PORT must be a valid u16")); },
        };
        let database_url = match source.database_url {
            Some(url) => url,
            None => { return Err(String::from_str("DATABASE_URL must be set")); },
        };
        let jwt_secret = match source.jwt_secret {
            Some(secret) => secret,
            None => { return Err(String::from_str("JWT_SECRET must be set")); },
        };
        let jwt_access_expiration_min = match parse_i64(
            value_or(source.jwt_access_expiration_min, "15").as_str(),
        ) {
            Some(minutes) => minutes,
            None => {
                return Err(
                    String::from_str("JWT_ACCESS_EXPIRATION_MIN must be a valid number"),
                );
            },
        };
        let jwt_refresh_expiration_days = match parse_i64(
            value_or(source.jwt_refresh_expiration_days, "7").as_str(),
        ) {
            Some(days) => days,
            None => {
                return Err(
                    String::from_str("JWT_REFRESH_EXPIRATION_DAYS must be a valid number"),
                );
            },
        };
        let resend_api_key = match source.resend_api_key {
            Some(key) => key,
            None => { return Err(String::from_str("RESEND_API_KEY must be set")); },
        };
        let app_url = value_or(source.app_url, "http://localhost:3000");
        let email_from = value_or(source.email_from, "onboarding@resend.dev");
        Ok(
            AppConfig {
                server_address,
                server_port,
                database_url,
                jwt_secret,
                jwt_access_expiration_min,
                jwt_refresh_expiration_days,
                resend_api_key,
                app_url,
                email_from,
            },
        )
    }
}

} // verus!
