//! The background guard's bookkeeping: what it shows on the status page, and
//! what it logs.
//!
//! The guard runs in one of two modes (see `Config::mode`): "poll" checks
//! every `watch_interval` seconds; "event" checks when the machine's
//! addresses change. Each check that finds the network down runs the repair
//! flow of `crate::fixer`, unless another login is under way.

use vstd::prelude::*;
use vstd::string::*;
use crate::text::{owned, cat, cat3, decimal, decimal_spec};
use crate::config::{MODE_EVENT, MODE_POLL, DEFAULT_INTERVAL, clamp_interval, clamp_interval_spec};

verus! {

#[derive(Clone, Debug)]
pub struct WatcherState {
    pub running: bool,
    pub interval: u64,
    pub mode: String,
    pub checks: u64,
    pub fixes: u64,
    pub last_check_ms: Option<u64>,
    pub last_result: Option<String>,
}

pub struct WatcherModel {
    pub running: bool,
    pub interval: u64,
    pub mode: Seq<char>,
    pub checks: u64,
    pub fixes: u64,
    pub last_check_ms: Option<u64>,
    pub last_result: Option<Seq<char>>,
}

impl View for WatcherState {
    type V = WatcherModel;

    open spec fn view(&self) -> WatcherModel {
        WatcherModel {
            running: self.running,
            interval: self.interval,
            mode: self.mode@,
            checks: self.checks,
            fixes: self.fixes,
            last_check_ms: self.last_check_ms,
            last_result: match self.last_result {
                Some(r) => Some(r@),
                None => None,
            },
        }
    }
}

pub open spec fn default_watcher() -> WatcherModel {
    WatcherModel {
        running: false,
        interval: DEFAULT_INTERVAL,
        mode: MODE_EVENT@,
        checks: 0,
        fixes: 0,
        last_check_ms: None,
        last_result: None,
    }
}

impl Default for WatcherState {
    fn default() -> (w: Self)
        ensures
            w@ == default_watcher(),
    {
        WatcherState {
            running: false,
            interval: DEFAULT_INTERVAL,
            mode: owned(MODE_EVENT),
            checks: 0,
            fixes: 0,
            last_check_ms: None,
            last_result: None,
        }
    }
}

/// The result of one check as the status page shows it.
pub open spec fn check_label(ok: bool) -> Seq<char> {
    if ok {
        "ok"@
    } else {
        "down"@
    }
}

impl WatcherState {
    /// The guard starts: running, in `mode`, every `interval` seconds
    /// (clamped to the allowed range).
    pub fn begin(&mut self, mode: &str, interval: u64)
        ensures
            final(self)@ == (WatcherModel {
                running: true,
                interval: clamp_interval_spec(interval),
                mode: mode@,
                ..old(self)@
            }),
    {
        self.running = true;
        self.interval = clamp_interval(interval);
        self.mode = owned(mode);
    }

    /// The guard has stopped.
    pub fn end(&mut self)
        ensures
            final(self)@ == (WatcherModel { running: false, ..old(self)@ }),
    {
        self.running = false;
    }

    /// One more check, at `now_ms`, with result `ok`.
    pub fn record_check(&mut self, ok: bool, now_ms: u64)
        requires
            old(self).checks < u64::MAX,
        ensures
            final(self)@ == (WatcherModel {
                checks: (old(self).checks + 1) as u64,
                last_check_ms: Some(now_ms),
                last_result: Some(check_label(ok)),
                ..old(self)@
            }),
    {
        self.checks = self.checks + 1;
        self.last_check_ms = Some(now_ms);
        self.last_result = Some(if ok {
            owned("ok")
        } else {
            owned("down")
        });
    }

    /// A repair has ended; a successful one is counted.
    pub fn record_fix(&mut self, good: bool)
        requires
            good ==> old(self).fixes < u64::MAX,
        ensures
            final(self)@ == (WatcherModel {
                fixes: if good {
                    (old(self).fixes + 1) as u64
                } else {
                    old(self).fixes
                },
                ..old(self)@
            }),
    {
        if good {
            self.fixes = self.fixes + 1;
        }
    }
}

/// What the guard logs when it starts.
pub open spec fn start_message_spec(mode: Seq<char>, interval: u64) -> Seq<char> {
    if mode == MODE_POLL@ {
        "[..] 自动重连已启动（定时轮询，每 "@ + decimal_spec(interval as nat) + " 秒）"@
    } else {
        "[..] 自动重连已启动（网络变化时检查）"@
    }
}

pub fn start_message(mode: &str, interval: u64) -> (m: String)
    ensures
        m@ == start_message_spec(mode@, interval),
{
    if crate::text::str_eq(mode, MODE_POLL) {
        let n = decimal(interval);
        cat3("[..] 自动重连已启动（定时轮询，每 ", n.as_str(), " 秒）")
    } else {
        owned("[..] 自动重连已启动（网络变化时检查）")
    }
}

/// What the guard logs when a check finds the network down.
pub open spec fn drop_message_spec(why: Seq<char>) -> Seq<char> {
    "[..] 检测到掉线（"@ + why + "），开始重连…"@
}

pub fn drop_message(why: &str) -> (m: String)
    ensures
        m@ == drop_message_spec(why@),
{
    cat3("[..] 检测到掉线（", why, "），开始重连…")
}

/// Logged when another login holds the lock.
pub const BUSY_SKIP_MESSAGE: &'static str = "[..] 已有认证操作在执行，本次跳过";

/// What the guard logs after a repair.
pub open spec fn repair_message_spec(good: bool) -> Seq<char> {
    if good {
        "[ok] 自动重连成功"@
    } else {
        "[!!] 自动重连失败，稍后重试"@
    }
}

pub fn repair_message(good: bool) -> (m: String)
    ensures
        m@ == repair_message_spec(good),
{
    if good {
        owned("[ok] 自动重连成功")
    } else {
        owned("[!!] 自动重连失败，稍后重试")
    }
}

/// Logged when a network change is seen in "event" mode.
pub const CHANGE_MESSAGE: &'static str = "[..] 检测到网络变化，开始检查…";

// ------------------------------------------------------------------ //
// One round of the guard
// ------------------------------------------------------------------ //

/// What the driver reports back during a round.
pub enum RoundEvent {
    /// The outside network was checked at `now_ms`.
    Checked { ok: bool, why: String, now_ms: u64 },
    /// The login lock was taken, or another login holds it.
    Locked(bool),
    /// The repair ended; the network works or not.
    Fixed(bool),
}

/// What the round asks for next.
pub enum RoundAction {
    TryLock,
    RunFix,
    /// The round is over; release the login lock first where it was taken.
    Done { release: bool },
}

pub enum RoundActionModel {
    TryLock,
    RunFix,
    Done { release: bool },
}

impl View for RoundAction {
    type V = RoundActionModel;

    open spec fn view(&self) -> RoundActionModel {
        match self {
            RoundAction::TryLock => RoundActionModel::TryLock,
            RoundAction::RunFix => RoundActionModel::RunFix,
            RoundAction::Done { release } => RoundActionModel::Done { release: *release },
        }
    }
}

/// One step of a round: each check is counted; a working network ends the
/// round; a network that is down is repaired when the login lock is free;
/// a successful repair is counted.
pub open spec fn round_step_spec(w: WatcherModel, e: RoundEvent) -> (WatcherModel, Seq<Seq<char>>, RoundActionModel) {
    match e {
        RoundEvent::Checked { ok, why, now_ms } => {
            let w2 = WatcherModel {
                checks: (w.checks + 1) as u64,
                last_check_ms: Some(now_ms),
                last_result: Some(check_label(ok)),
                ..w
            };
            if ok {
                (w2, seq![], RoundActionModel::Done { release: false })
            } else {
                (w2, seq![drop_message_spec(why@)], RoundActionModel::TryLock)
            }
        },
        RoundEvent::Locked(got) => if got {
            (w, seq![], RoundActionModel::RunFix)
        } else {
            (w, seq![BUSY_SKIP_MESSAGE@], RoundActionModel::Done { release: false })
        },
        RoundEvent::Fixed(good) => (
            WatcherModel {
                fixes: if good {
                    (w.fixes + 1) as u64
                } else {
                    w.fixes
                },
                ..w
            },
            seq![repair_message_spec(good)],
            RoundActionModel::Done { release: true },
        ),
    }
}

fn lines1(m: String) -> (v: Vec<String>)
    ensures
        v@.map_values(|s: String| s@) == seq![m@],
{
    let mut v = Vec::new();
    v.push(m);
    assert(v@.map_values(|s: String| s@) =~= seq![m@]);
    v
}

fn lines0() -> (v: Vec<String>)
    ensures
        v@.map_values(|s: String| s@) == Seq::<Seq<char>>::empty(),
{
    let v: Vec<String> = Vec::new();
    assert(v@.map_values(|s: String| s@) =~= Seq::<Seq<char>>::empty());
    v
}

/// One step of a round of the guard, updating `state`.
pub fn run_once(state: &mut WatcherState, e: RoundEvent) -> (r: (Vec<String>, RoundAction))
    requires
        e is Checked ==> old(state).checks < u64::MAX,
        e == RoundEvent::Fixed(true) ==> old(state).fixes < u64::MAX,
    ensures
        (final(state)@, r.0@.map_values(|s: String| s@), r.1@) == round_step_spec(old(state)@, e),
{
    match e {
        RoundEvent::Checked { ok, why, now_ms } => {
            state.record_check(ok, now_ms);
            if ok {
                (lines0(), RoundAction::Done { release: false })
            } else {
                (lines1(drop_message(why.as_str())), RoundAction::TryLock)
            }
        },
        RoundEvent::Locked(got) => if got {
            (lines0(), RoundAction::RunFix)
        } else {
            (lines1(owned(BUSY_SKIP_MESSAGE)), RoundAction::Done { release: false })
        },
        RoundEvent::Fixed(good) => {
            state.record_fix(good);
            (lines1(repair_message(good)), RoundAction::Done { release: true })
        },
    }
}

/// A round repairs only under the login lock, and counts a repair only
/// when it succeeded. It releases the lock exactly when it took it: a round
/// that ends after a repair, whether the repair worked or not, releases the
/// lock, and a round that ends without one releases nothing.
pub proof fn lemma_round_lock(w: WatcherModel, e: RoundEvent)
    ensures
        round_step_spec(w, e).2 is RunFix ==> e == RoundEvent::Locked(true),
        round_step_spec(w, e).0.fixes != w.fixes ==> e == RoundEvent::Fixed(true),
        round_step_spec(w, e).2 matches RoundActionModel::Done { release } ==> (release <==> e is Fixed),
        e is Fixed ==> round_step_spec(w, e).2 is Done,
{
}

} // verus!
