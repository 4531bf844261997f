//! The gateway's settings, from the values of its environment variables.
use vstd::prelude::*;
use crate::text::{parse_bool, parse_u16, spec_parse_bool, spec_parse_u16};

verus! {

/// The values of the variables the gateway reads; `None` where one is unset.
pub struct EnvVars {
    pub debug: Option<String>,
    pub gateway_host: Option<String>,
    pub gateway_port: Option<String>,
    pub user_grpc_url: Option<String>,
    pub cheatsheet_api_url: Option<String>,
}

#[derive(PartialEq, Eq, Structural, Clone, Copy, Debug)]
pub enum ConfigError {
    /// `DEBUG` is neither `true` nor `false`.
    InvalidDebug,
    /// `GATEWAY_PORT` is not a port number.
    InvalidPort,
}

pub struct Config {
    pub app: AppConfig,
    pub server: ServerConfig,
}

pub struct AppConfig {
    pub debug: bool,
}

pub struct ServerConfig {
    pub gateway_host: String,
    pub gateway_port: u16,
    pub user_grpc_url: String,
    pub cheatsheet_api_url: String,
}

/// A variable's value, or the default where it is unset.
pub open spec fn value_or(v: Option<String>, default: Seq<char>) -> Seq<char> {
    match v {
        Some(s) => s@,
        None => default,
    }
}

pub open spec fn debug_text(vars: EnvVars) -> Seq<char> {
    value_or(vars.debug, "false"@)
}

pub open spec fn port_text(vars: EnvVars) -> Seq<char> {
    value_or(vars.gateway_port, "3000"@)
}

fn or_default(v: Option<String>, default: &str) -> (r: String)
    ensures
        r@ == value_or(v, default@),
{
    match v {
        Some(s) => s,
        None => String::from_str(default),
    }
}

impl Config {
    /// The settings: each unset variable takes its default (`DEBUG` false,
    /// the gateway on 127.0.0.1:3000, the identity service on
    /// http://127.0.0.1:50051, the file service on http://127.0.0.1:3002);
    /// an error where `DEBUG` or `GATEWAY_PORT` does not parse, `DEBUG` first.
    pub fn from_env(vars: EnvVars) -> (r: Result<Config, ConfigError>)
        ensures
            spec_parse_bool(debug_text(vars)) is None ==> r == Err::<Config, ConfigError>(
                ConfigError::InvalidDebug,
            ),
            spec_parse_bool(debug_text(vars)) is Some && spec_parse_u16(port_text(vars)) is None
                ==> r == Err::<Config, ConfigError>(ConfigError::InvalidPort),
            r matches Ok(c) ==> {
                &&& spec_parse_bool(debug_text(vars)) == Some(c.app.debug)
                &&& spec_parse_u16(port_text(vars)) == Some(c.server.gateway_port)
                &&& c.server.gateway_host@ == value_or(vars.gateway_host, "127.0.0.1"@)
                &&& c.server.user_grpc_url@ == value_or(
                    vars.user_grpc_url,
                    "http://127.0.0.1:50051"@,
                )
                &&& c.server.cheatsheet_api_url@ == value_or(
                    vars.cheatsheet_api_url,
                    "http://127.0.0.1:3002"@,
                )
            },
            (spec_parse_bool(debug_text(vars)) is Some && spec_parse_u16(port_text(vars)) is Some)
                ==> r is Ok,
    {
        let EnvVars { debug, gateway_host, gateway_port, user_grpc_url, cheatsheet_api_url } =
            vars;
        let app = match AppConfig::from_env(debug) {
            Ok(a) => a,
            Err(e) => return Err(e),
        };
        let server = match ServerConfig::from_env(
            gateway_host,
            gateway_port,
            user_grpc_url,
            cheatsheet_api_url,
        ) {
            Ok(s) => s,
            Err(e) => return Err(e),
        };
        Ok(Config { app, server })
    }
}

impl AppConfig {
    fn from_env(debug: Option<String>) -> (r: Result<AppConfig, ConfigError>)
        ensures
            match spec_parse_bool(value_or(debug, "false"@)) {
                Some(b) => r matches Ok(a) && a.debug == b,
                None => r == Err::<AppConfig, ConfigError>(ConfigError::InvalidDebug),
            },
    {
        let text = or_default(debug, "false");
        match parse_bool(text.as_str()) {
            Some(b) => Ok(AppConfig { debug: b }),
            None => Err(ConfigError::InvalidDebug),
        }
    }
}

impl ServerConfig {
    fn from_env(
        gateway_host: Option<String>,
        gateway_port: Option<String>,
        user_grpc_url: Option<String>,
        cheatsheet_api_url: Option<String>,
    ) -> (r: Result<ServerConfig, ConfigError>)
        ensures
            match spec_parse_u16(value_or(gateway_port, "3000"@)) {
                Some(p) => r matches Ok(s) && s.gateway_port == p && s.gateway_host@ == value_or(
                    gateway_host,
                    "127.0.0.1"@,
                ) && s.user_grpc_url@ == value_or(user_grpc_url, "http://127.0.0.1:50051"@)
                    && s.cheatsheet_api_url@ == value_or(
                    cheatsheet_api_url,
                    "http://127.0.0.1:3002"@,
                ),
                None => r == Err::<ServerConfig, ConfigError>(ConfigError::InvalidPort),
            },
    {
        let port_text = or_default(gateway_port, "3000");
        let port = match parse_u16(port_text.as_str()) {
            Some(p) => p,
            None => return Err(ConfigError::InvalidPort),
        };
        Ok(
            ServerConfig {
                gateway_host: or_default(gateway_host, "127.0.0.1"),
                gateway_port: port,
                user_grpc_url: or_default(user_grpc_url, "http://127.0.0.1:50051"),
                cheatsheet_api_url: or_default(cheatsheet_api_url, "http://127.0.0.1:3002"),
            },
        )
    }
}

} // verus!
