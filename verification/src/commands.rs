//! What the window's commands decide: the results they report, the lines
//! they log, and how the settings page's edits apply.

use vstd::prelude::*;
use vstd::string::*;
use crate::text::{str_eq, trim, trim_spec, strip_end, strip_end_spec, owned, cat, cat3, cat4, join, join_spec, decimal, decimal_spec};
use crate::config::{Config, ConfigModel, ready_spec, channel_target_spec, clamp_interval, clamp_interval_spec, DEFAULT_INTERVAL};
use crate::portal::{Channel, ChannelModel, channels_view, LoginOutcome, LoginOutcomeModel, PreLogin, PreLoginModel, result_view};
use crate::fixer::{options_text, option_text};

verus! {

/// What a command reports to the window.
pub struct ActionResult {
    pub ok: bool,
    pub msg: String,
    /// The carriers to choose from, where the configured one was not found.
    pub channels: Option<Vec<Channel>>,
}

pub struct ResultModel {
    pub ok: bool,
    pub msg: Seq<char>,
    pub channels: Option<Seq<ChannelModel>>,
}

impl View for ActionResult {
    type V = ResultModel;

    open spec fn view(&self) -> ResultModel {
        ResultModel {
            ok: self.ok,
            msg: self.msg@,
            channels: match self.channels {
                Some(v) => Some(channels_view(v@)),
                None => None,
            },
        }
    }
}

pub open spec fn plain_result(ok: bool, msg: Seq<char>) -> ResultModel {
    ResultModel { ok, msg, channels: None }
}

impl ActionResult {
    pub fn new(ok: bool, msg: String) -> (r: ActionResult)
        ensures
            r@ == plain_result(ok, msg@),
    {
        ActionResult { ok, msg, channels: None }
    }
}

/// Reported when another login holds the lock.
pub const BUSY_MESSAGE: &'static str = "已有操作在执行中";

/// What "connect" reports when its repair has ended.
pub open spec fn fix_result_spec(ok: bool) -> ResultModel {
    plain_result(
        ok,
        if ok {
            "连接成功"@
        } else {
            "连接失败，看日志"@
        },
    )
}

pub fn fix_result(ok: bool) -> (r: ActionResult)
    ensures
        r@ == fix_result_spec(ok),
{
    ActionResult::new(
        ok,
        if ok {
            owned("连接成功")
        } else {
            owned("连接失败，看日志")
        },
    )
}

/// What "log in" reports and logs for the login's outcome; `wanted` is the
/// configured carrier.
pub open spec fn login_result_spec(wanted: Seq<char>, o: Result<LoginOutcomeModel, Seq<char>>) -> (ResultModel, Seq<char>) {
    match o {
        Err(e) => (plain_result(false, e), "[!!] 认证异常: "@ + e),
        Ok(LoginOutcomeModel::Done(s)) => (
            plain_result(true, "认证成功 · "@ + s.outport),
            "[ok] 认证成功: outport="@ + s.outport + " balance="@ + s.balance,
        ),
        Ok(LoginOutcomeModel::NeedChannel(chs)) => (
            ResultModel {
                ok: false,
                msg: "运营商「"@ + wanted + "」不在列表里"@,
                channels: Some(chs),
            },
            "[!!] 未匹配到运营商「"@ + wanted + "」，可选: "@ + options_text(chs),
        ),
        Ok(LoginOutcomeModel::Failed(m)) => (plain_result(false, m), "[!!] 认证被拒绝: "@ + m),
    }
}

pub fn login_result(wanted: &str, o: Result<LoginOutcome, String>) -> (r: (ActionResult, String))
    ensures
        (r.0@, r.1@) == login_result_spec(wanted@, result_view(o)),
{
    match o {
        Err(e) => {
            let line = cat("[!!] 认证异常: ", e.as_str());
            (ActionResult::new(false, e), line)
        },
        Ok(LoginOutcome::Done(s)) => {
            let line = cat4("[ok] 认证成功: outport=", s.outport.as_str(), " balance=", s.balance.as_str());
            (ActionResult::new(true, cat("认证成功 · ", s.outport.as_str())), line)
        },
        Ok(LoginOutcome::NeedChannel(chs)) => {
            let opts = crate::fixer::options_line(&chs);
            let mut line = cat3("[!!] 未匹配到运营商「", wanted, "」，可选: ");
            line.append(opts.as_str());
            let msg = cat3("运营商「", wanted, "」不在列表里");
            (ActionResult { ok: false, msg, channels: Some(chs) }, line)
        },
        Ok(LoginOutcome::Failed(m)) => {
            let line = cat("[!!] 认证被拒绝: ", m.as_str());
            (ActionResult::new(false, m), line)
        },
    }
}

/// The account to log out: the one that the portal reports online, else
/// the configured one.
pub open spec fn logout_user_spec(configured: Seq<char>, pre: Result<PreLoginModel, Seq<char>>) -> Seq<char> {
    match pre {
        Ok(p) => if p.username.len() > 0 {
            p.username
        } else {
            configured
        },
        Err(_) => configured,
    }
}

pub fn logout_user(configured: &str, pre: Result<PreLogin, String>) -> (u: String)
    ensures
        u@ == logout_user_spec(configured@, result_view(pre)),
{
    match pre {
        Ok(p) => if p.username.as_str().unicode_len() != 0 {
            p.username
        } else {
            owned(configured)
        },
        Err(_) => owned(configured),
    }
}

/// What "log out" reports and logs.
pub open spec fn logout_result_spec(r: Result<(), Seq<char>>) -> (ResultModel, Seq<char>) {
    match r {
        Ok(()) => (plain_result(true, "已注销"@), "[ok] 已注销当前会话"@),
        Err(e) => (plain_result(false, e), "[!!] 注销失败: "@ + e),
    }
}

pub fn logout_result(r: Result<(), String>) -> (out: (ActionResult, String))
    ensures
        (out.0@, out.1@) == logout_result_spec(
            match r {
                Ok(()) => Ok(()),
                Err(e) => Err(e@),
            },
        ),
{
    match r {
        Ok(()) => (ActionResult::new(true, owned("已注销")), owned("[ok] 已注销当前会话")),
        Err(e) => {
            let line = cat("[!!] 注销失败: ", e.as_str());
            (ActionResult::new(false, e), line)
        },
    }
}

/// The address of the portal's login page, as a browser opens it.
pub open spec fn portal_page_spec(portal: Seq<char>) -> Seq<char> {
    strip_end_spec(trim_spec(portal), '/') + "/#/login?wlanuserfirsturl=http://www.msftconnecttest.com/redirect"@
}

pub fn portal_page_url(portal: &str) -> (u: String)
    ensures
        u@ == portal_page_spec(portal@),
{
    let base = strip_end(trim(portal), '/');
    cat(base.as_str(), "/#/login?wlanuserfirsturl=http://www.msftconnecttest.com/redirect")
}

// ------------------------------------------------------------------ //
// Information for the window
// ------------------------------------------------------------------ //

pub struct AppInfo {
    pub version: String,
    pub config_path: String,
    pub portal: String,
    pub profile: String,
    pub autostart: bool,
}

/// The "about" data: the version, where the settings are kept, the portal
/// and network of the settings, and whether the client starts with Windows.
pub fn app_info(cfg: &Config, version: &str, config_path: &str, autostart: bool) -> (a: AppInfo)
    ensures
        a.version@ == version@,
        a.config_path@ == config_path@,
        a.portal@ == cfg.portal@,
        a.profile@ == cfg.profile@,
        a.autostart == autostart,
{
    AppInfo {
        version: owned(version),
        config_path: owned(config_path),
        portal: cfg.portal.clone(),
        profile: cfg.profile.clone(),
        autostart,
    }
}

/// The settings as the settings page shows them; the password itself is
/// not shown, only whether there is one.
pub struct ConfigView {
    pub username: String,
    pub channel: String,
    pub interval: u64,
    pub portal: String,
    pub profile: String,
    pub has_password: bool,
    pub autostart: bool,
}

pub fn config_view(cfg: &Config, autostart: bool) -> (v: ConfigView)
    ensures
        v.username@ == cfg.username@,
        v.channel@ == channel_target_spec(cfg.channel@),
        v.interval == cfg.watch_interval,
        v.portal@ == cfg.portal@,
        v.profile@ == cfg.profile@,
        v.has_password == (cfg.password@.len() > 0),
        v.autostart == autostart,
{
    ConfigView {
        username: cfg.username.clone(),
        channel: owned(cfg.channel_or_default()),
        interval: cfg.watch_interval,
        portal: cfg.portal.clone(),
        profile: cfg.profile.clone(),
        has_password: cfg.password.as_str().unicode_len() != 0,
        autostart,
    }
}

// ------------------------------------------------------------------ //
// Edits from the settings page
// ------------------------------------------------------------------ //

/// The fields the settings page sends; `None` leaves a field alone.
pub struct ConfigPatch {
    pub username: Option<String>,
    pub password: Option<String>,
    pub channel: Option<String>,
    pub interval: Option<u64>,
    pub autostart: Option<bool>,
}

pub open spec fn opt_view(o: Option<String>) -> Option<Seq<char>> {
    match o {
        Some(s) => Some(s@),
        None => None,
    }
}

/// A patch with its texts as character sequences.
pub struct PatchModel {
    pub username: Option<Seq<char>>,
    pub password: Option<Seq<char>>,
    pub channel: Option<Seq<char>>,
    pub interval: Option<u64>,
    pub autostart: Option<bool>,
}

impl View for ConfigPatch {
    type V = PatchModel;

    open spec fn view(&self) -> PatchModel {
        PatchModel {
            username: opt_view(self.username),
            password: opt_view(self.password),
            channel: opt_view(self.channel),
            interval: self.interval,
            autostart: self.autostart,
        }
    }
}

/// The settings after a patch. A user name or carrier is trimmed; an empty
/// password leaves the password as it was; an interval is clamped to
/// `[MIN_INTERVAL, MAX_INTERVAL]`.
pub open spec fn patched(c: ConfigModel, p: PatchModel) -> ConfigModel {
    ConfigModel {
        username: match p.username {
            Some(u) => trim_spec(u),
            None => c.username,
        },
        password: match p.password {
            Some(w) => if w.len() > 0 {
                w
            } else {
                c.password
            },
            None => c.password,
        },
        channel: match p.channel {
            Some(ch) => trim_spec(ch),
            None => c.channel,
        },
        watch_interval: match p.interval {
            Some(v) => clamp_interval_spec(v),
            None => c.watch_interval,
        },
        autostart: match p.autostart {
            Some(a) => a,
            None => c.autostart,
        },
        ..c
    }
}

/// The labels of what a patch changed, in the order of the settings page.
/// A non-empty password counts as a change even when it equals the old one.
pub open spec fn changed_labels(c: ConfigModel, p: PatchModel) -> Seq<Seq<char>> {
    let n = patched(c, p);
    let s1: Seq<Seq<char>> = if p.username is Some && n.username != c.username {
        seq!["用户名"@]
    } else {
        seq![]
    };
    let s2 = if p.password matches Some(w) && w.len() > 0 {
        s1.push("密码"@)
    } else {
        s1
    };
    let s3 = if p.channel is Some && n.channel != c.channel {
        s2.push("运营商"@)
    } else {
        s2
    };
    let s4 = if p.interval is Some && n.watch_interval != c.watch_interval {
        s3.push("检查间隔"@)
    } else {
        s3
    };
    if p.autostart is Some && n.autostart != c.autostart {
        s4.push("开机自启"@)
    } else {
        s4
    }
}

/// Applies `patch` to `cfg` and returns the labels of what changed.
pub fn apply_patch(cfg: &mut Config, patch: &ConfigPatch) -> (changed: Vec<String>)
    ensures
        final(cfg)@ == patched(old(cfg)@, patch@),
        changed@.map_values(|s: String| s@) == changed_labels(old(cfg)@, patch@),
{
    let ghost c0 = cfg@;
    let mut changed: Vec<String> = Vec::new();
    if let Some(v) = &patch.username {
        let t = trim(v.as_str());
        if !str_eq(t, cfg.username.as_str()) {
            cfg.username = owned(t);
            changed.push(owned("用户名"));
        }
    }
    if let Some(v) = &patch.password {
        if v.as_str().unicode_len() != 0 {
            cfg.password = v.clone();
            changed.push(owned("密码"));
        }
    }
    if let Some(v) = &patch.channel {
        let t = trim(v.as_str());
        if !str_eq(t, cfg.channel.as_str()) {
            cfg.channel = owned(t);
            changed.push(owned("运营商"));
        }
    }
    if let Some(v) = patch.interval {
        let v = clamp_interval(v);
        if v != cfg.watch_interval {
            cfg.watch_interval = v;
            changed.push(owned("检查间隔"));
        }
    }
    if let Some(v) = patch.autostart {
        if v != cfg.autostart {
            cfg.autostart = v;
            changed.push(owned("开机自启"));
        }
    }
    assert(changed@.map_values(|s: String| s@) =~= changed_labels(c0, patch@));
    changed
}

/// "没有变化" when nothing changed, else "已保存: " and the labels joined
/// by "、".
pub open spec fn save_message_spec(labels: Seq<Seq<char>>) -> Seq<char> {
    if labels.len() == 0 {
        "没有变化"@
    } else {
        "已保存: "@ + join_spec(labels, "、"@)
    }
}

pub fn save_message(changed: &Vec<String>) -> (m: String)
    ensures
        m@ == save_message_spec(changed@.map_values(|s: String| s@)),
{
    if changed.len() == 0 {
        owned("没有变化")
    } else {
        let j = join(changed, "、");
        cat("已保存: ", j.as_str())
    }
}

/// What saving the settings comes to: refused, because the account is not
/// set up; or the settings to save, the message to report, and whether
/// start-up with Windows is to be set (and to what).
pub enum SavePlan {
    Reject(ActionResult),
    Save { cfg: Config, msg: String, autostart: Option<bool> },
}

/// Applies `patch` to `cfg`: refused when the result has no account,
/// else saved with a message that lists what changed.
pub fn plan_save(cfg: &Config, patch: &ConfigPatch) -> (p: SavePlan)
    ensures
        match p {
            SavePlan::Reject(r) => !ready_spec(patched(cfg@, patch@)) && r@ == plain_result(
                false,
                "用户名和密码都不能为空"@,
            ),
            SavePlan::Save { cfg: c, msg, autostart } => {
                &&& ready_spec(patched(cfg@, patch@))
                &&& c@ == patched(cfg@, patch@)
                &&& msg@ == save_message_spec(changed_labels(cfg@, patch@))
                &&& autostart == match patch.autostart {
                    Some(_) => Some(c.autostart),
                    None => None,
                }
            },
        },
{
    let mut c = Config {
        username: cfg.username.clone(),
        password: cfg.password.clone(),
        channel: cfg.channel.clone(),
        portal: cfg.portal.clone(),
        profile: cfg.profile.clone(),
        watch_interval: cfg.watch_interval,
        check_mode: cfg.check_mode.clone(),
        auto_watch: cfg.auto_watch,
        on_stale_session: cfg.on_stale_session.clone(),
        autostart: cfg.autostart,
    };
    let changed = apply_patch(&mut c, patch);
    if !c.is_ready() {
        return SavePlan::Reject(ActionResult::new(false, owned("用户名和密码都不能为空")));
    }
    let msg = save_message(&changed);
    let autostart = match patch.autostart {
        Some(_) => Some(c.autostart),
        None => None,
    };
    SavePlan::Save { cfg: c, msg, autostart }
}

// ------------------------------------------------------------------ //
// The guard's switch
// ------------------------------------------------------------------ //

/// What the guard's switch comes to: the result to report, whether to stop
/// the running guard, a line to log after stopping it, and whether to start
/// it (after stopping, where both).
pub struct WatchPlan {
    pub result: ActionResult,
    pub stop: bool,
    pub log: Option<String>,
    pub start: bool,
    /// The switch's new position, to be kept in `Config::auto_watch`:
    /// on for "start", off for "stop", unchanged otherwise.
    pub auto_watch: Option<bool>,
}

pub struct WatchModel {
    pub result: ResultModel,
    pub stop: bool,
    pub log: Option<Seq<char>>,
    pub start: bool,
    pub auto_watch: Option<bool>,
}

impl View for WatchPlan {
    type V = WatchModel;

    open spec fn view(&self) -> WatchModel {
        WatchModel {
            result: self.result@,
            stop: self.stop,
            log: match self.log {
                Some(l) => Some(l@),
                None => None,
            },
            start: self.start,
            auto_watch: self.auto_watch,
        }
    }
}

/// The switch: "start" starts the guard, or restarts it when it runs with
/// another interval; "stop" stops it; "set" restarts a running guard so
/// that a new interval takes effect; anything else is refused. The
/// interval, where given, is clamped (and saved by the caller whatever the
/// action). "start" and "stop" also turn the kept switch (`auto_watch`) on
/// and off, so that it holds across restarts.
pub open spec fn watch_plan_spec(action: Seq<char>, running: bool, current: u64, interval: Option<u64>) -> WatchModel {
    let new_iv = match interval {
        Some(v) => Some(clamp_interval_spec(v)),
        None => None,
    };
    if action == "start"@ {
        if running && (new_iv is None || new_iv == Some(current)) {
            WatchModel { result: plain_result(true, "自动连接已在运行"@), stop: false, log: None, start: false, auto_watch: Some(true) }
        } else if running {
            WatchModel {
                result: plain_result(true, "自动连接已启动"@),
                stop: true,
                log: Some("[..] 检查间隔变了，自动连接重启中…"@),
                start: true,
                auto_watch: Some(true),
            }
        } else {
            WatchModel { result: plain_result(true, "自动连接已启动"@), stop: false, log: None, start: true, auto_watch: Some(true) }
        }
    } else if action == "stop"@ {
        if !running {
            WatchModel { result: plain_result(true, "自动连接本来就没开"@), stop: false, log: None, start: false, auto_watch: Some(false) }
        } else {
            WatchModel {
                result: plain_result(true, "自动连接已停止"@),
                stop: true,
                log: Some("[..] 自动连接已停止"@),
                start: false,
                auto_watch: Some(false),
            }
        }
    } else if action == "set"@ {
        if running {
            let shown = match new_iv {
                Some(v) => v,
                None => DEFAULT_INTERVAL,
            };
            WatchModel {
                result: plain_result(true, "检查间隔已改为 "@ + decimal_spec(shown as nat) + " 秒"@),
                stop: true,
                log: None,
                start: true,
                auto_watch: None,
            }
        } else {
            WatchModel { result: plain_result(true, "已保存"@), stop: false, log: None, start: false, auto_watch: None }
        }
    } else {
        WatchModel {
            result: plain_result(false, "action 必须是 start / stop / set"@),
            stop: false,
            log: None,
            start: false,
            auto_watch: None,
        }
    }
}

pub fn plan_watch(action: &str, running: bool, current: u64, interval: Option<u64>) -> (p: WatchPlan)
    ensures
        p@ == watch_plan_spec(action@, running, current, interval),
{
    let new_iv = match interval {
        Some(v) => Some(clamp_interval(v)),
        None => None,
    };
    if str_eq(action, "start") {
        let same = match new_iv {
            None => true,
            Some(v) => v == current,
        };
        if running && same {
            WatchPlan { result: ActionResult::new(true, owned("自动连接已在运行")), stop: false, log: None, start: false, auto_watch: Some(true) }
        } else if running {
            WatchPlan {
                result: ActionResult::new(true, owned("自动连接已启动")),
                stop: true,
                log: Some(owned("[..] 检查间隔变了，自动连接重启中…")),
                start: true,
                auto_watch: Some(true),
            }
        } else {
            WatchPlan { result: ActionResult::new(true, owned("自动连接已启动")), stop: false, log: None, start: true, auto_watch: Some(true) }
        }
    } else if str_eq(action, "stop") {
        if !running {
            WatchPlan { result: ActionResult::new(true, owned("自动连接本来就没开")), stop: false, log: None, start: false, auto_watch: Some(false) }
        } else {
            WatchPlan {
                result: ActionResult::new(true, owned("自动连接已停止")),
                stop: true,
                log: Some(owned("[..] 自动连接已停止")),
                start: false,
                auto_watch: Some(false),
            }
        }
    } else if str_eq(action, "set") {
        if running {
            let shown = match new_iv {
                Some(v) => v,
                None => DEFAULT_INTERVAL,
            };
            let n = decimal(shown);
            WatchPlan {
                result: ActionResult::new(true, cat3("检查间隔已改为 ", n.as_str(), " 秒")),
                stop: true,
                log: None,
                start: true,
                auto_watch: None,
            }
        } else {
            WatchPlan { result: ActionResult::new(true, owned("已保存")), stop: false, log: None, start: false, auto_watch: None }
        }
    } else {
        WatchPlan {
            result: ActionResult::new(false, owned("action 必须是 start / stop / set")),
            stop: false,
            log: None,
            start: false,
            auto_watch: None,
        }
    }
}

// ------------------------------------------------------------------ //
// Laws of the settings edits
// ------------------------------------------------------------------ //

/// The patch that changes nothing.
pub open spec fn empty_patch() -> PatchModel {
    PatchModel { username: None, password: None, channel: None, interval: None, autostart: None }
}

/// An empty patch leaves the settings as they are and reports no change.
pub proof fn lemma_empty_patch(c: ConfigModel)
    ensures
        patched(c, empty_patch()) == c,
        changed_labels(c, empty_patch()) == Seq::<Seq<char>>::empty(),
{
}

/// Applying a patch a second time changes nothing more; at most the
/// password is reported again, since a given password always counts as a
/// change.
pub proof fn lemma_patch_idempotent(c: ConfigModel, p: PatchModel)
    ensures
        patched(patched(c, p), p) == patched(c, p),
        changed_labels(patched(c, p), p) == (if p.password matches Some(w) && w.len() > 0 {
            seq!["密码"@]
        } else {
            Seq::<Seq<char>>::empty()
        }),
{
    if let Some(u) = p.username {
        crate::text::lemma_trim_idempotent(u);
    }
    if let Some(ch) = p.channel {
        crate::text::lemma_trim_idempotent(ch);
    }
    let n = patched(c, p);
    assert(patched(n, p) =~= n);
}

/// After a patch the check interval is within `[5, 3600]` seconds, where
/// the patch sets it or it was so before; and a patch never clears the
/// password.
pub proof fn lemma_patch_bounds(c: ConfigModel, p: PatchModel)
    ensures
        (p.interval is Some || crate::config::MIN_INTERVAL <= c.watch_interval
            <= crate::config::MAX_INTERVAL) ==> crate::config::MIN_INTERVAL <= patched(
            c,
            p,
        ).watch_interval <= crate::config::MAX_INTERVAL,
        c.password.len() > 0 ==> patched(c, p).password.len() > 0,
{
}

/// A patch sets each field that it carries and leaves the others alone:
/// the account and the carrier trimmed, a non-empty password as given (an
/// empty one keeps the old), the interval clamped to `[5, 3600]`, and the
/// start-with-Windows switch to the given value, on or off. A field is
/// reported changed exactly when the patch carries it and its value moved
/// (the password: whenever a non-empty one is given).
pub proof fn lemma_patch_sets_fields(c: ConfigModel, p: PatchModel)
    ensures
        patched(c, p).username == (match p.username {
            Some(u) => trim_spec(u),
            None => c.username,
        }),
        patched(c, p).password == (if p.password matches Some(w) && w.len() > 0 {
            p.password->0
        } else {
            c.password
        }),
        patched(c, p).channel == (match p.channel {
            Some(ch) => trim_spec(ch),
            None => c.channel,
        }),
        p.interval matches Some(v) ==> patched(c, p).watch_interval == (if v < 5 {
            5
        } else if v > 3600 {
            3600
        } else {
            v
        }),
        p.interval is None ==> patched(c, p).watch_interval == c.watch_interval,
        p.autostart matches Some(a) ==> patched(c, p).autostart == a,
        p.autostart is None ==> patched(c, p).autostart == c.autostart,
        patched(c, p).portal == c.portal,
        patched(c, p).profile == c.profile,
        patched(c, p).check_mode == c.check_mode,
        patched(c, p).auto_watch == c.auto_watch,
        patched(c, p).on_stale_session == c.on_stale_session,
        changed_labels(c, p).contains("用户名"@) <==> (p.username matches Some(u) && trim_spec(u)
            != c.username),
        changed_labels(c, p).contains("密码"@) <==> (p.password matches Some(w) && w.len() > 0),
        changed_labels(c, p).contains("运营商"@) <==> (p.channel matches Some(ch) && trim_spec(ch)
            != c.channel),
        changed_labels(c, p).contains("检查间隔"@) <==> (p.interval is Some && patched(c, p).watch_interval
            != c.watch_interval),
        changed_labels(c, p).contains("开机自启"@) <==> (p.autostart matches Some(a) && a
            != c.autostart),
{
    reveal_strlit("用户名");
    reveal_strlit("密码");
    reveal_strlit("运营商");
    reveal_strlit("检查间隔");
    reveal_strlit("开机自启");
    let n = patched(c, p);
    let s0: Seq<Seq<char>> = seq![];
    let s1: Seq<Seq<char>> = if p.username is Some && n.username != c.username {
        s0.push("用户名"@)
    } else {
        s0
    };
    let s2 = if p.password matches Some(w) && w.len() > 0 {
        s1.push("密码"@)
    } else {
        s1
    };
    let s3 = if p.channel is Some && n.channel != c.channel {
        s2.push("运营商"@)
    } else {
        s2
    };
    let s4 = if p.interval is Some && n.watch_interval != c.watch_interval {
        s3.push("检查间隔"@)
    } else {
        s3
    };
    assert(s1 =~= (if p.username is Some && n.username != c.username {
        seq!["用户名"@]
    } else {
        seq![]
    }));
    assert(changed_labels(c, p) == (if p.autostart is Some && n.autostart != c.autostart {
        s4.push("开机自启"@)
    } else {
        s4
    }));
    lemma_push_contains(s0, "用户名"@);
    lemma_push_contains(s1, "密码"@);
    lemma_push_contains(s2, "运营商"@);
    lemma_push_contains(s3, "检查间隔"@);
    lemma_push_contains(s4, "开机自启"@);
    assert(!s0.contains("用户名"@) && !s0.contains("密码"@) && !s0.contains("运营商"@)
        && !s0.contains("检查间隔"@) && !s0.contains("开机自启"@));
    assert("用户名"@ != "密码"@ && "用户名"@ != "运营商"@ && "用户名"@ != "检查间隔"@ && "用户名"@ != "开机自启"@) by {
        assert("用户名"@[0] != "密码"@[0] && "用户名"@[0] != "运营商"@[0] && "用户名"@[0] != "检查间隔"@[0]
            && "用户名"@[0] != "开机自启"@[0]);
    }
    assert("密码"@ != "运营商"@ && "密码"@ != "检查间隔"@ && "密码"@ != "开机自启"@) by {
        assert("密码"@[0] != "运营商"@[0] && "密码"@[0] != "检查间隔"@[0] && "密码"@[0] != "开机自启"@[0]);
    }
    assert("运营商"@ != "检查间隔"@ && "运营商"@ != "开机自启"@) by {
        assert("运营商"@[0] != "检查间隔"@[0] && "运营商"@[0] != "开机自启"@[0]);
    }
    assert("检查间隔"@ != "开机自启"@) by {
        assert("检查间隔"@[0] != "开机自启"@[0]);
    }
}

proof fn lemma_push_contains(s: Seq<Seq<char>>, a: Seq<char>)
    ensures
        forall|x: Seq<char>| #[trigger] s.push(a).contains(x) <==> (s.contains(x) || a == x),
{
    assert forall|x: Seq<char>| #[trigger] s.push(a).contains(x) implies (s.contains(x) || a == x) by {
        let k = choose|k: int| 0 <= k < s.push(a).len() && s.push(a)[k] == x;
        if k < s.len() {
            assert(s[k] == x);
        }
    }
    assert forall|x: Seq<char>| (s.contains(x) || a == x) implies #[trigger] s.push(a).contains(x) by {
        if s.contains(x) {
            let k = choose|k: int| 0 <= k < s.len() && s[k] == x;
            assert(s.push(a)[k] == x);
        } else {
            assert(s.push(a)[s.len() as int] == x);
        }
    }
}

/// What the guard's switch does to the guard: "start" leaves it running,
/// restarting it only where it runs with another interval; "stop" leaves it
/// stopped; "set" keeps it as it was, and restarts a running guard so that
/// the new interval takes effect; any other action is refused and touches
/// nothing. "start" and "stop" keep the switch's position; the others
/// leave it.
pub proof fn lemma_watch_switch_effects(action: Seq<char>, running: bool, current: u64, interval: Option<u64>)
    ensures
        ({
            let p = watch_plan_spec(action, running, current, interval);
            let runs_after = (running && !p.stop) || p.start;
            let same_interval = match interval {
                Some(v) => clamp_interval_spec(v) == current,
                None => true,
            };
            &&& action == "start"@ ==> p.result.ok && runs_after && p.auto_watch == Some(true)
                && (p.stop <==> (running && !same_interval))
            &&& action == "stop"@ ==> p.result.ok && !runs_after && !p.start && p.auto_watch == Some(false)
            &&& action == "set"@ ==> p.result.ok && runs_after == running && (running ==> p.stop && p.start)
                && p.auto_watch is None
            &&& (action != "start"@ && action != "stop"@ && action != "set"@) ==> !p.result.ok && !p.stop
                && !p.start && p.auto_watch is None
        }),
{
    reveal_strlit("start");
    reveal_strlit("stop");
    reveal_strlit("set");
    assert("start"@ != "stop"@ && "start"@ != "set"@ && "stop"@ != "set"@) by {
        assert("start"@.len() != "stop"@.len() && "start"@.len() != "set"@.len());
        assert("stop"@.len() != "set"@.len());
    }
}

} // verus!
