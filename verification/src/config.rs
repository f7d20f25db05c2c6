//! The client's settings, their defaults, and the edits that the settings
//! page makes to them.

use vstd::prelude::*;
use vstd::string::*;
use crate::text::{trim_start_spec, trim_end_spec, lemma_trim_idempotent, trim, trim_spec, eq_ignore_ascii_case, ascii_lower_spec, owned};

verus! {

pub const DEFAULT_PORTAL: &'static str = "http://10.102.250.36";
pub const DEFAULT_PROFILE: &'static str = "iFudan.stu";
pub const DEFAULT_CHANNEL: &'static str = "中国电信";

/// Check on network changes.
pub const MODE_EVENT: &'static str = "event";
/// Check on a timer.
pub const MODE_POLL: &'static str = "poll";

/// How long the start-up check waits for the campus network, in seconds.
pub const STARTUP_SSID_WAIT_SECS: u64 = 60;
/// How often the start-up check looks again, in milliseconds.
pub const STARTUP_SSID_POLL_MS: u64 = 2500;
/// How often `wait_for_campus` looks again, in milliseconds.
pub const STARTUP_POLL_MS: u64 = 2500;
/// Addresses of the campus network (`10.115.0.0/17`, the iFudan.stu
/// segment) begin with this text.
pub const CAMPUS_IP_PREFIX: &'static str = "10.115.";

/// Bounds of the check interval, in seconds.
pub const MIN_INTERVAL: u64 = 5;
pub const MAX_INTERVAL: u64 = 3600;
pub const DEFAULT_INTERVAL: u64 = 30;

#[derive(Clone, Debug)]
pub struct Config {
    pub username: String,
    pub password: String,
    /// The carrier to log in through: a name (中国电信) or an id (1).
    pub channel: String,
    pub portal: String,
    pub profile: String,
    pub watch_interval: u64,
    /// "event": check when the network changes; "poll": check on a timer.
    pub check_mode: String,
    /// Whether automatic reconnection is on; kept across restarts.
    pub auto_watch: bool,
    /// "relogin": log a stale session out before logging in;
    /// "login_only": only log in.
    pub on_stale_session: String,
    pub autostart: bool,
}

/// A `Config` with its texts as character sequences.
pub struct ConfigModel {
    pub username: Seq<char>,
    pub password: Seq<char>,
    pub channel: Seq<char>,
    pub portal: Seq<char>,
    pub profile: Seq<char>,
    pub watch_interval: u64,
    pub check_mode: Seq<char>,
    pub auto_watch: bool,
    pub on_stale_session: Seq<char>,
    pub autostart: bool,
}

impl View for Config {
    type V = ConfigModel;

    open spec fn view(&self) -> ConfigModel {
        ConfigModel {
            username: self.username@,
            password: self.password@,
            channel: self.channel@,
            portal: self.portal@,
            profile: self.profile@,
            watch_interval: self.watch_interval,
            check_mode: self.check_mode@,
            auto_watch: self.auto_watch,
            on_stale_session: self.on_stale_session@,
            autostart: self.autostart,
        }
    }
}

/// The settings of a first start.
pub open spec fn default_config() -> ConfigModel {
    ConfigModel {
        username: Seq::empty(),
        password: Seq::empty(),
        channel: DEFAULT_CHANNEL@,
        portal: DEFAULT_PORTAL@,
        profile: DEFAULT_PROFILE@,
        watch_interval: DEFAULT_INTERVAL,
        check_mode: MODE_EVENT@,
        auto_watch: false,
        on_stale_session: "relogin"@,
        autostart: false,
    }
}

impl Default for Config {
    fn default() -> (c: Self)
        ensures
            c@ == default_config(),
    {
        Config {
            username: String::new(),
            password: String::new(),
            channel: owned(DEFAULT_CHANNEL),
            portal: owned(DEFAULT_PORTAL),
            profile: owned(DEFAULT_PROFILE),
            watch_interval: DEFAULT_INTERVAL,
            check_mode: owned(MODE_EVENT),
            auto_watch: false,
            on_stale_session: owned("relogin"),
            autostart: false,
        }
    }
}

/// An account is set up: a user name that is not blank and a password.
pub open spec fn ready_spec(c: ConfigModel) -> bool {
    trim_spec(c.username).len() > 0 && c.password.len() > 0
}

/// The carrier asked for: `wanted` trimmed, or the default carrier when
/// that is empty.
pub open spec fn channel_target_spec(wanted: Seq<char>) -> Seq<char> {
    if trim_spec(wanted).len() == 0 {
        DEFAULT_CHANNEL@
    } else {
        trim_spec(wanted)
    }
}

/// The check mode: "poll" in any ASCII case gives "poll", anything else
/// "event".
pub open spec fn mode_spec(check_mode: Seq<char>) -> Seq<char> {
    if ascii_lower_spec(check_mode) == ascii_lower_spec(MODE_POLL@) {
        MODE_POLL@
    } else {
        MODE_EVENT@
    }
}

/// `wanted` trimmed, or the default carrier when that is empty.
pub fn channel_target(wanted: &str) -> (r: &str)
    ensures
        r@ == channel_target_spec(wanted@),
{
    let t = trim(wanted);
    if t.unicode_len() == 0 {
        DEFAULT_CHANNEL
    } else {
        t
    }
}

impl Config {
    pub fn is_ready(&self) -> (b: bool)
        ensures
            b == ready_spec(self@),
    {
        trim(self.username.as_str()).unicode_len() != 0 && self.password.as_str().unicode_len()
            != 0
    }

    pub fn channel_or_default(&self) -> (r: &str)
        ensures
            r@ == channel_target_spec(self.channel@),
    {
        channel_target(self.channel.as_str())
    }

    /// The check mode, normalised: anything but "poll" counts as "event".
    pub fn mode(&self) -> (r: &'static str)
        ensures
            r@ == mode_spec(self.check_mode@),
    {
        if eq_ignore_ascii_case(self.check_mode.as_str(), MODE_POLL) {
            MODE_POLL
        } else {
            MODE_EVENT
        }
    }
}


/// `v.clamp(MIN_INTERVAL, MAX_INTERVAL)`.
pub open spec fn clamp_interval_spec(v: u64) -> u64 {
    if v < MIN_INTERVAL {
        MIN_INTERVAL
    } else if v > MAX_INTERVAL {
        MAX_INTERVAL
    } else {
        v
    }
}

pub fn clamp_interval(v: u64) -> (r: u64)
    ensures
        r == clamp_interval_spec(v),
{
    if v < MIN_INTERVAL {
        MIN_INTERVAL
    } else if v > MAX_INTERVAL {
        MAX_INTERVAL
    } else {
        v
    }
}

/// Asking for the carrier that was asked for gives the same carrier: the
/// default carrier has no surrounding whitespace and trimming is
/// idempotent, so `channel_or_default` can be passed back in.
pub proof fn lemma_channel_target_idempotent(wanted: Seq<char>)
    ensures
        channel_target_spec(channel_target_spec(wanted)) == channel_target_spec(wanted),
{
    lemma_trim_idempotent(wanted);
    reveal_strlit("中国电信");
    let d = DEFAULT_CHANNEL@;
    assert(trim_start_spec(d) == d);
    assert(trim_end_spec(d) == d);
}

} // verus!
