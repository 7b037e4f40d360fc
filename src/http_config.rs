//! Configuration of the local HTTP ingress server.
use vstd::prelude::*;
use vstd::string::StringExecFns;

verus! {

/// Port the server listens on unless configured otherwise.
pub const DEFAULT_PORT: u16 = 50080;

/// Lowest port the server may be configured to listen on.
pub const MIN_PORT: u16 = 1024;

/// The message a rejected port is reported with.
pub open spec fn port_error_text() -> Seq<char> {
    "ポート番号は1024以上を指定してください"@
}

/// Where the ingress server listens, and whether it runs at all.
#[derive(Clone, Copy, Debug, PartialEq, Eq, Structural)]
pub struct HttpServerConfig {
    pub port: u16,
    pub enabled: bool,
}

impl Default for HttpServerConfig {
    fn default() -> (r: HttpServerConfig)
        ensures
            r.port == DEFAULT_PORT,
            r.enabled,
    {
        HttpServerConfig { port: DEFAULT_PORT, enabled: true }
    }
}

impl HttpServerConfig {
    pub fn new(port: u16, enabled: bool) -> (r: HttpServerConfig)
        ensures
            r.port == port,
            r.enabled == enabled,
    {
        HttpServerConfig { port, enabled }
    }

    /// Accepts the ports from `MIN_PORT` up; a lower port is refused with a message.
    pub fn validate_port(port: u16) -> (r: Result<(), String>)
        ensures
            r is Ok <==> port >= MIN_PORT,
            r matches Err(m) ==> m@ == port_error_text(),
    {
        if port < MIN_PORT {
            Err(String::from_str("ポート番号は1024以上を指定してください"))
        } else {
            Ok(())
        }
    }

    /// Replaces port and switch after validating the port; a refused port
    /// leaves the configuration as it was.
    pub fn update(&mut self, port: u16, enabled: bool) -> (r: Result<(), String>)
        ensures
            r is Ok <==> port >= MIN_PORT,
            r matches Err(m) ==> m@ == port_error_text(),
            r is Ok ==> final(self).port == port && final(self).enabled == enabled,
            r is Err ==> *final(self) == *old(self),
    {
        let checked = HttpServerConfig::validate_port(port);
        if checked.is_ok() {
            self.port = port;
            self.enabled = enabled;
        }
        checked
    }

    /// The port to listen on, or `None` when the server is switched off.
    pub fn listen_port(&self) -> (r: Option<u16>)
        ensures
            r == (if self.enabled { Some(self.port) } else { None::<u16> }),
    {
        if self.enabled {
            Some(self.port)
        } else {
            None
        }
    }
}

} // verus!
