//! Connection settings and the process-wide enable switch.

use vstd::prelude::*;
use vstd::string::*;

verus! {

/// Seconds between keep-alive pings, so the broker can tell that the robot is alive.
pub const KEEP_ALIVE_SECS: u64 = 5;

/// Capacity of the client's request queue.
pub const REQUEST_CAPACITY: usize = 10;

/// What `str::to_lowercase` returns for a string.
pub uninterp spec fn lower_of(s: Seq<char>) -> Seq<char>;

/// Relies on `str::to_lowercase`: its result depends on the characters alone.
#[verifier::external_body]
fn lowercase(s: &str) -> (r: String)
    ensures
        r@ == lower_of(s@),
{
    s.to_lowercase()
}

/// Whether an already lower-cased setting switches telemetry off: only the
/// word `false` does.
pub fn disables(lowered: &str) -> (r: bool)
    ensures
        r == (lowered@ == "false"@),
{
    let a = String::from_str(lowered);
    let b = String::from_str("false");
    a == b
}

/// Whether telemetry is on, given the enable setting if there is one: it is on
/// when the setting is absent or is anything other than `false` in any case.
pub fn telemetry_enabled(setting: Option<&str>) -> (r: bool)
    ensures
        r == match setting {
            None => true,
            Some(s) => lower_of(s@) != "false"@,
        },
{
    match setting {
        None => true,
        Some(s) => {
            let lowered = lowercase(s);
            !disables(lowered.as_str())
        },
    }
}

/// What the broker client is built from: its identifier, the broker's
/// address and the keep-alive interval.
#[derive(Clone, Debug, PartialEq, Eq)]
pub struct ConnectSettings {
    pub client_id: String,
    pub host: String,
    pub port: u16,
    pub keep_alive_secs: u64,
}

/// The settings under which `robot_id` connects to the broker at
/// `host:port`: client `kos-<robot_id>`, keep-alive every five seconds.
pub fn connect_settings(robot_id: &str, host: &str, port: u16) -> (s: ConnectSettings)
    ensures
        s.client_id@ == "kos-"@ + robot_id@,
        s.host@ == host@,
        s.port == port,
        s.keep_alive_secs == KEEP_ALIVE_SECS,
{
    ConnectSettings {
        client_id: client_id(robot_id),
        host: String::from_str(host),
        port,
        keep_alive_secs: KEEP_ALIVE_SECS,
    }
}

/// The client identifier under which a robot connects: `kos-<robot_id>`.
pub fn client_id(robot_id: &str) -> (r: String)
    ensures
        r@ == "kos-"@ + robot_id@,
{
    let mut r = String::from_str("kos-");
    r.append(robot_id);
    r
}

} // verus!
