//! Startup configuration: the access point the device brings up and the
//! HTTP server's tuning. All of it is fixed at startup; the access-point
//! value is never mutated once the radio has started.

use vstd::prelude::*;
use vstd::string::StringExecFns;

verus! {

/// Authentication policy of the access point.
#[derive(Clone, Copy, PartialEq, Eq, Structural, Debug)]
pub enum AuthPolicy {
    Open,
    Wpa2Personal,
}

/// What the radio accepts: a nonempty network name of at most 32
/// characters, a channel between 1 and 11, and — when the network is
/// protected — a passphrase of 8 to 63 characters.
pub open spec fn acceptable_access_point(
    ssid: Seq<char>,
    passphrase: Seq<char>,
    channel: u8,
    auth: AuthPolicy,
) -> bool {
    &&& 1 <= ssid.len() <= 32
    &&& 1 <= channel <= 11
    &&& (auth is Wpa2Personal ==> 8 <= passphrase.len() <= 63)
}

/// The immutable access-point configuration, created once at startup and
/// handed whole to the radio.
pub struct AccessPointSettings {
    pub ssid: String,
    pub passphrase: String,
    pub channel: u8,
    pub auth: AuthPolicy,
}

impl AccessPointSettings {
    pub open spec fn wf(&self) -> bool {
        acceptable_access_point(self.ssid@, self.passphrase@, self.channel, self.auth)
    }

    /// Validates a candidate configuration: `Some` exactly when the
    /// radio would accept it, with every field carried over unchanged.
    pub fn try_new(ssid: String, passphrase: String, channel: u8, auth: AuthPolicy) -> (r: Option<
        AccessPointSettings,
    >)
        ensures
            match r {
                Some(c) => {
                    &&& c.wf()
                    &&& c.ssid@ == ssid@
                    &&& c.passphrase@ == passphrase@
                    &&& c.channel == channel
                    &&& c.auth == auth
                },
                None => !acceptable_access_point(ssid@, passphrase@, channel, auth),
            },
    {
        let ssid_len = ssid.as_str().unicode_len();
        let pass_len = passphrase.as_str().unicode_len();
        if ssid_len < 1 || ssid_len > 32 {
            return None;
        }
        if channel < 1 || channel > 11 {
            return None;
        }
        if matches!(auth, AuthPolicy::Wpa2Personal) && (pass_len < 8 || pass_len > 63) {
            return None;
        }
        Some(AccessPointSettings { ssid, passphrase, channel, auth })
    }
}

/// The fixed network this deployment starts: a protected access point on
/// channel 11.
pub fn access_point_settings() -> (c: AccessPointSettings)
    ensures
        c.wf(),
        c.ssid@ == "Iphone"@,
        c.passphrase@ == "WIFI_PASS"@,
        c.channel == 11,
        c.auth is Wpa2Personal,
{
    proof {
        reveal_strlit("Iphone");
        reveal_strlit("WIFI_PASS");
    }
    AccessPointSettings {
        ssid: String::from_str("Iphone"),
        passphrase: String::from_str("WIFI_PASS"),
        channel: 11,
        auth: AuthPolicy::Wpa2Personal,
    }
}

/// The HTTP server's tuning: handlers get a deep stack, since the
/// structured decoding in the form route is stack-heavy, and inactive
/// non-streaming connections are closed after the idle timeout.
pub struct HttpServerSettings {
    pub stack_size: usize,
    pub session_timeout_secs: u64,
}

/// The fixed tuning this deployment runs with.
pub fn http_server_settings() -> (s: HttpServerSettings)
    ensures
        s.stack_size == 10240,
        s.session_timeout_secs == 240,
{
    HttpServerSettings { stack_size: 10240, session_timeout_secs: 240 }
}

} // verus!
