//! Application configuration: the parsing and defaulting rules applied to
//! the raw variable values that the process environment hands in.

use vstd::prelude::*;
use vstd::string::*;

use crate::text::{all_digits, dec_val, split_csv_model, split_trim_csv, parse_u16};

verus! {

/// Application configuration, parsed from environment variables.
#[derive(Clone, Debug, PartialEq, Eq)]
pub struct AppConfig {
    /// Server host address.
    pub host: String,
    /// HTTP server port.
    pub http_port: u16,
    /// gRPC server port.
    pub grpc_port: u16,
    /// Database connection URL.
    pub database_url: String,
    /// Secret key used for JWT signing.
    pub jwt_secret: String,
    /// Allowed CORS origins; defaults to `*` when not specified.
    pub cors_origins: Vec<String>,
    /// Logging output format.
    pub log_format: String,
}

/// Whether a raw port variable parses: absent means the default applies,
/// present means it must be a decimal number that fits a `u16`.
pub open spec fn port_var_ok(v: Option<String>) -> bool {
    match v {
        None => true,
        Some(s) => s@.len() > 0 && all_digits(s@) && dec_val(s@) <= u16::MAX,
    }
}

/// The port a raw variable denotes, under its default.
pub open spec fn port_var_value(v: Option<String>, default: u16) -> int {
    match v {
        None => default as int,
        Some(s) => dec_val(s@),
    }
}

/// The view of a raw string variable under its default.
pub open spec fn var_or(v: Option<String>, default: Seq<char>) -> Seq<char> {
    match v {
        None => default,
        Some(s) => s@,
    }
}

impl AppConfig {
    /// Builds the configuration from raw environment variable values,
    /// applying the defaults and rejecting what does not parse: ports must
    /// be decimal `u16` values, the database URL and the JWT secret must be
    /// set, and the CORS origins are comma-separated, trimmed, with empty
    /// entries dropped.
    pub fn from_vars(
        host: Option<String>,
        http_port: Option<String>,
        grpc_port: Option<String>,
        database_url: Option<String>,
        jwt_secret: Option<String>,
        cors_origins: Option<String>,
        log_format: Option<String>,
    ) -> (r: Result<AppConfig, String>)
        ensures
            !port_var_ok(http_port) ==> (r matches Err(m) && m@ == "invalid HTTP PORT"@),
            port_var_ok(http_port) && !port_var_ok(grpc_port) ==> (r matches Err(m) && m@
                == "invalid GRPC PORT"@),
            port_var_ok(http_port) && port_var_ok(grpc_port) && database_url is None ==> (
            r matches Err(m) && m@ == "DATABASE_URL must be set"@),
            port_var_ok(http_port) && port_var_ok(grpc_port) && database_url is Some && jwt_secret
                is None ==> (r matches Err(m) && m@ == "JWT_SECRET must be set"@),
            (port_var_ok(http_port) && port_var_ok(grpc_port) && database_url is Some && jwt_secret
                is Some) ==> (r matches Ok(c) && c.host@ == var_or(host, "127.0.0.1"@)
                && c.http_port == port_var_value(http_port, 8080) && c.grpc_port == port_var_value(
                grpc_port,
                5000,
            ) && (database_url matches Some(d) && c.database_url == d) && (jwt_secret matches Some(
                j,
            ) && c.jwt_secret == j) && c.cors_origins.deep_view() == split_csv_model(
                var_or(cors_origins, "*"@),
            ) && c.log_format@ == var_or(log_format, "text"@)),
    {
        let http_port_val: u16 = match &http_port {
            None => 8080,
            Some(s) => match parse_u16(s.as_str()) {
                Some(v) => v,
                None => {
                    return Err(String::from_str("invalid HTTP PORT"));
                },
            },
        };
        let grpc_port_val: u16 = match &grpc_port {
            None => 5000,
            Some(s) => match parse_u16(s.as_str()) {
                Some(v) => v,
                None => {
                    return Err(String::from_str("invalid GRPC PORT"));
                },
            },
        };
        let database_url_val: String = match database_url {
            Some(d) => d,
            None => {
                return Err(String::from_str("DATABASE_URL must be set"));
            },
        };
        let jwt_secret_val: String = match jwt_secret {
            Some(j) => j,
            None => {
                return Err(String::from_str("JWT_SECRET must be set"));
            },
        };
        let host_val: String = match host {
            Some(h) => h,
            None => String::from_str("127.0.0.1"),
        };
        let cors_val: Vec<String> = match &cors_origins {
            Some(s) => split_trim_csv(s.as_str()),
            None => split_trim_csv("*"),
        };
        let log_format_val: String = match log_format {
            Some(l) => l,
            None => String::from_str("text"),
        };
        Ok(
            AppConfig {
                host: host_val,
                http_port: http_port_val,
                grpc_port: grpc_port_val,
                database_url: database_url_val,
                jwt_secret: jwt_secret_val,
                cors_origins: cors_val,
                log_format: log_format_val,
            },
        )
    }
}

} // verus!
