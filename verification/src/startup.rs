//! The check run once when the program starts with Windows.
//!
//! It waits for the campus network (at most `STARTUP_SSID_WAIT_SECS`), then
//! runs the repair flow, which does nothing when the network already works.
//! At start-up the network is often not there yet; without the wait the
//! first login would fail. It is independent of the background guard.

use vstd::prelude::*;
use vstd::string::*;
use crate::text::{owned, cat3, trim, trim_spec, decimal, decimal_spec};
use crate::config::{Config, STARTUP_SSID_WAIT_SECS};

verus! {

/// What the driver reports back.
pub enum StartupEvent {
    Begin,
    /// The wait for the campus network ended; ready or not.
    Waited(bool),
    /// The login lock was taken, or another login holds it.
    Locked(bool),
    /// The repair ended; the network works or not.
    Fixed(bool),
}

/// What the check asks for next.
pub enum StartupAction {
    WaitCampus,
    TryLock,
    RunFix,
    /// Stop; release the login lock first where it was taken.
    Done { release: bool },
}

pub enum StartupActionModel {
    WaitCampus,
    TryLock,
    RunFix,
    Done { release: bool },
}

impl View for StartupAction {
    type V = StartupActionModel;

    open spec fn view(&self) -> StartupActionModel {
        match self {
            StartupAction::WaitCampus => StartupActionModel::WaitCampus,
            StartupAction::TryLock => StartupActionModel::TryLock,
            StartupAction::RunFix => StartupActionModel::RunFix,
            StartupAction::Done { release } => StartupActionModel::Done { release: *release },
        }
    }
}

/// One step of the start-up check for the network `profile` (trimmed):
/// the lines to log and the next action.
pub open spec fn startup_step_spec(profile: Seq<char>, e: StartupEvent) -> (Seq<Seq<char>>, StartupActionModel) {
    let p = trim_spec(profile);
    let secs = decimal_spec(STARTUP_SSID_WAIT_SECS as nat);
    match e {
        StartupEvent::Begin => (
            seq!["[..] 启动检查：等待 "@ + p + "（最多 "@ + secs + " 秒）…"@],
            StartupActionModel::WaitCampus,
        ),
        StartupEvent::Waited(ready) => if ready {
            (seq!["[ok] 已连上 "@ + p + "，交给重连流程判断"@], StartupActionModel::TryLock)
        } else {
            (
                seq!["[..] "@ + secs + " 秒内没等到 "@ + p + "，本次启动检查放弃"@],
                StartupActionModel::Done { release: false },
            )
        },
        StartupEvent::Locked(got) => if got {
            (seq![], StartupActionModel::RunFix)
        } else {
            (seq!["[..] 已有认证操作在执行，启动检查让位"@], StartupActionModel::Done { release: false })
        },
        StartupEvent::Fixed(good) => (
            seq![
                if good {
                    "[ok] 启动检查完成"@
                } else {
                    "[!!] 启动检查未能连上，交给后台守护或下次网络变化"@
                },
            ],
            StartupActionModel::Done { release: true },
        ),
    }
}

fn one(m: String) -> (v: Vec<String>)
    ensures
        v@.map_values(|s: String| s@) == seq![m@],
{
    let mut v = Vec::new();
    v.push(m);
    assert(v@.map_values(|s: String| s@) =~= seq![m@]);
    v
}

/// One step of the start-up check for the settings `cfg`.
pub fn check(cfg: &Config, e: StartupEvent) -> (r: (Vec<String>, StartupAction))
    ensures
        (r.0@.map_values(|s: String| s@), r.1@) == startup_step_spec(cfg.profile@, e),
{
    let p = trim(cfg.profile.as_str());
    let secs = decimal(STARTUP_SSID_WAIT_SECS);
    match e {
        StartupEvent::Begin => {
            let mut m = cat3("[..] 启动检查：等待 ", p, "（最多 ");
            m.append(secs.as_str());
            m.append(" 秒）…");
            (one(m), StartupAction::WaitCampus)
        },
        StartupEvent::Waited(ready) => if ready {
            (one(cat3("[ok] 已连上 ", p, "，交给重连流程判断")), StartupAction::TryLock)
        } else {
            let mut m = cat3("[..] ", secs.as_str(), " 秒内没等到 ");
            m.append(p);
            m.append("，本次启动检查放弃");
            (one(m), StartupAction::Done { release: false })
        },
        StartupEvent::Locked(got) => if got {
            let v: Vec<String> = Vec::new();
            assert(v@.map_values(|s: String| s@) =~= Seq::<Seq<char>>::empty());
            (v, StartupAction::RunFix)
        } else {
            (one(owned("[..] 已有认证操作在执行，启动检查让位")), StartupAction::Done { release: false })
        },
        StartupEvent::Fixed(good) => {
            let m = if good {
                owned("[ok] 启动检查完成")
            } else {
                owned("[!!] 启动检查未能连上，交给后台守护或下次网络变化")
            };
            (one(m), StartupAction::Done { release: true })
        },
    }
}

/// The check never runs a repair without the login lock, and releases the
/// lock exactly when it had taken it: `RunFix` follows only a taken lock,
/// and only the end of a repair releases it.
pub proof fn lemma_startup_lock(profile: Seq<char>, e: StartupEvent)
    ensures
        startup_step_spec(profile, e).1 is RunFix ==> e == StartupEvent::Locked(true),
        startup_step_spec(profile, e).1 matches StartupActionModel::Done { release } ==> (release
            <==> e is Fixed),
{
}

} // verus!
