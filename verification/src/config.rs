//! The service's configuration, built from the values of its environment
//! variables.

use vstd::prelude::*;

verus! {

/// The service's configuration.
pub struct Config {
    pub GRPC_PORT: String,
    pub TLS_DIR: String,
    pub JAEGER_COLLECTOR_URL: String,
    pub METRICS_SERVER_PORT: String,
}

/// The message for an environment variable that could not be read.
pub open spec fn missing_env_message(name: Seq<char>) -> Seq<char> {
    "Error getting env "@ + name
}

/// getEnv takes the value read for the environment variable `name`, and gives
/// it back, or, when there was none, the message that reports it.
pub fn getEnv(name: &str, value: Option<String>) -> (result: Result<String, String>)
    ensures
        match value {
            Some(v) => result == Ok::<String, String>(v),
            None => result matches Err(message) && message@ == missing_env_message(name@),
        },
{
    match value {
        Some(v) => Ok(v),
        None => {
            let mut message = String::from_str("Error getting env ");
            message.append(name);
            Err(message)
        },
    }
}

impl Config {
    /// init builds the configuration from the values read for GRPC_PORT,
    /// TLS_DIR, JAEGER_COLLECTOR_URL and METRICS_SERVER_PORT, in that order;
    /// the first of them that is missing is reported.
    pub fn init(
        grpc_port: Option<String>,
        tls_dir: Option<String>,
        jaeger_collector_url: Option<String>,
        metrics_server_port: Option<String>,
    ) -> (result: Result<Config, String>)
        ensures
            match (grpc_port, tls_dir, jaeger_collector_url, metrics_server_port) {
                (Some(a), Some(b), Some(c), Some(d)) => result matches Ok(config) && {
                    &&& config.GRPC_PORT == a
                    &&& config.TLS_DIR == b
                    &&& config.JAEGER_COLLECTOR_URL == c
                    &&& config.METRICS_SERVER_PORT == d
                },
                _ => result matches Err(message) && message@ == missing_env_message(
                    if grpc_port is None {
                        "GRPC_PORT"@
                    } else if tls_dir is None {
                        "TLS_DIR"@
                    } else if jaeger_collector_url is None {
                        "JAEGER_COLLECTOR_URL"@
                    } else {
                        "METRICS_SERVER_PORT"@
                    },
                ),
            },
    {
        let GRPC_PORT = match getEnv("GRPC_PORT", grpc_port) {
            Ok(v) => v,
            Err(e) => return Err(e),
        };
        let TLS_DIR = match getEnv("TLS_DIR", tls_dir) {
            Ok(v) => v,
            Err(e) => return Err(e),
        };
        let JAEGER_COLLECTOR_URL = match getEnv("JAEGER_COLLECTOR_URL", jaeger_collector_url) {
            Ok(v) => v,
            Err(e) => return Err(e),
        };
        let METRICS_SERVER_PORT = match getEnv("METRICS_SERVER_PORT", metrics_server_port) {
            Ok(v) => v,
            Err(e) => return Err(e),
        };
        Ok(Config { GRPC_PORT, TLS_DIR, JAEGER_COLLECTOR_URL, METRICS_SERVER_PORT })
    }
}

/// The address, on every interface, at which the gRPC server listens on
/// `port`.
pub fn binding_address(port: &str) -> (address: String)
    ensures
        address@ == "[::]:"@ + port@,
{
    let mut address = String::from_str("[::]:");
    address.append(port);
    address
}

} // verus!
