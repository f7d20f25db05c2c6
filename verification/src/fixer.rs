//! Repairing the connection, as a state machine, and gathering the status
//! page's data.
//!
//! ```text
//! outside network reachable ? ── yes ──> nothing to do
//!       │
//!       no
//!       ├─ portal says "on"  ──> stale session: log out (thirddauth), then log in
//!       └─ portal says "off" ──> log in
//!
//! login: firstauth ──> carriers listed ? ──> secondauth(chosen carrier) ──> done
//! then check the outside network again, every 1.5 s, at most 6 times
//! ```
//!
//! The flow asks its driver for one action at a time (check the network,
//! send a request, pause, finish) and is told what came of it.

use vstd::prelude::*;
use vstd::string::*;
use crate::text::{owned, cat, cat3, join, join_spec, decimal, decimal_spec};
use crate::json::member_or_null;
use crate::config::{Config, ConfigModel, channel_target_spec, ready_spec};
use crate::portal::{first_match, channel_matches, parse_channels_spec, Portal, Channel, ChannelModel, Reply, HttpRequest, RequestModel, LoginOutcome, LoginOutcomeModel, AuthSuccessModel, PreLogin, PreLoginModel, FirstAuthStep, FirstAuthModel, base_spec, ip_request_spec, pre_login_request_spec, first_auth_request_spec, second_auth_request_spec, logout_request_spec, ip_outcome_spec, post_outcome_spec, pre_login_outcome_spec, first_auth_spec, second_auth_spec, PRE_LOGIN_PATH, LOGIN_PATH, result_view, json_result_view, channels_view, ip_outcome, post_outcome, pre_login_outcome, first_auth_step, second_auth_outcome};
use crate::watcher::{WatcherState, WatcherModel};

verus! {

/// How many times the network is checked again after a login.
pub const RECHECKS: u64 = 6;
/// Pause before each of those checks, in milliseconds.
pub const RECHECK_PAUSE_MS: u64 = 1500;
/// Pause after logging a stale session out, in milliseconds.
pub const LOGOUT_PAUSE_MS: u64 = 1000;

#[derive(PartialEq, Eq, Structural, Clone, Copy)]
pub enum FixStage {
    /// Waiting for the first check of the outside network.
    Probe,
    AwaitIp,
    AwaitPreLogin,
    AwaitLogout,
    AwaitLogoutPause,
    AwaitFirstAuth,
    AwaitSecondAuth,
    AwaitRecheckPause,
    AwaitRecheck,
    Finished,
}

pub struct FixFlow {
    pub stage: FixStage,
    pub portal: Portal,
    pub username: String,
    pub password: String,
    /// The carrier to log in through, as `Config::channel_or_default` gives it.
    pub wanted: String,
    /// Whether a stale session is logged out first.
    pub relogin: bool,
    pub ip: String,
    /// The account that the portal reports online (else the configured one).
    pub user: String,
    pub chosen: Channel,
    /// The number of the current re-check, from 1.
    pub attempt: u64,
    pub result: bool,
}

pub struct FixModel {
    pub stage: FixStage,
    pub base: Seq<char>,
    pub username: Seq<char>,
    pub password: Seq<char>,
    pub wanted: Seq<char>,
    pub relogin: bool,
    pub ip: Seq<char>,
    pub user: Seq<char>,
    pub chosen: ChannelModel,
    pub attempt: u64,
    pub result: bool,
}

impl View for FixFlow {
    type V = FixModel;

    open spec fn view(&self) -> FixModel {
        FixModel {
            stage: self.stage,
            base: self.portal.base@,
            username: self.username@,
            password: self.password@,
            wanted: self.wanted@,
            relogin: self.relogin,
            ip: self.ip@,
            user: self.user@,
            chosen: self.chosen@,
            attempt: self.attempt,
            result: self.result,
        }
    }
}

/// What the driver reports back.
pub enum FixEvent {
    /// The outside network was checked.
    Internet { ok: bool, why: String },
    /// The reply to the IP request.
    Ip(Reply),
    /// The reply to the POST that the flow asked for.
    Posted(Reply),
    /// The pause is over.
    Slept,
}

/// What the flow asks its driver to do next.
pub enum FixAction {
    CheckInternet,
    Send(HttpRequest),
    Sleep(u64),
    /// Stop: the network works (`true`) or could not be repaired.
    Finish(bool),
}

pub enum ActionModel {
    CheckInternet,
    Send(RequestModel),
    Sleep(u64),
    Finish(bool),
}

impl View for FixAction {
    type V = ActionModel;

    open spec fn view(&self) -> ActionModel {
        match self {
            FixAction::CheckInternet => ActionModel::CheckInternet,
            FixAction::Send(r) => ActionModel::Send(r@),
            FixAction::Sleep(ms) => ActionModel::Sleep(*ms),
            FixAction::Finish(ok) => ActionModel::Finish(*ok),
        }
    }
}

/// The lines to log, then the next action.
pub struct FixStep {
    pub logs: Vec<String>,
    pub action: FixAction,
}

pub struct StepModel {
    pub logs: Seq<Seq<char>>,
    pub action: ActionModel,
}

impl View for FixStep {
    type V = StepModel;

    open spec fn view(&self) -> StepModel {
        StepModel { logs: self.logs@.map_values(|s: String| s@), action: self.action@ }
    }
}

// ------------------------------------------------------------------ //
// Log lines
// ------------------------------------------------------------------ //

pub open spec fn bool_text(b: bool) -> Seq<char> {
    if b {
        "true"@
    } else {
        "false"@
    }
}

pub open spec fn shown_state(state: Seq<char>) -> Seq<char> {
    if state.len() == 0 {
        "?"@
    } else {
        state
    }
}

pub open spec fn portal_state_line(state: Seq<char>, user: Seq<char>, ip: Seq<char>) -> Seq<char> {
    "[..] 门户状态: "@ + shown_state(state) + "  账号: "@ + user + "  IP: "@ + ip
}

pub open spec fn option_text(c: ChannelModel) -> Seq<char> {
    c.id + "="@ + c.name
}

pub open spec fn options_text(chs: Seq<ChannelModel>) -> Seq<char> {
    join_spec(chs.map_values(|c: ChannelModel| option_text(c)), "  "@)
}

pub open spec fn need_channel_lines(wanted: Seq<char>, chs: Seq<ChannelModel>) -> Seq<Seq<char>> {
    seq![
        "[!!] 账号有多个运营商出口，但没匹配到「"@ + wanted + "」"@,
        "     可选: "@ + options_text(chs),
        "     请在「设置」里修改出口运营商。"@,
    ]
}

pub open spec fn done_lines(s: AuthSuccessModel) -> Seq<Seq<char>> {
    let first = "[..] 认证响应: outport="@ + s.outport + " balance="@ + s.balance + " duration="@
        + s.duration + " reauth="@ + bool_text(s.reauth);
    if s.outport.len() > 0 {
        seq![first, "[..] 运营商: "@ + s.outport]
    } else {
        seq![first]
    }
}

pub open spec fn submit_line() -> Seq<char> {
    "[..] 提交认证（firstauth → secondauth）…"@
}

// ------------------------------------------------------------------ //
// The transition function
// ------------------------------------------------------------------ //

pub open spec fn finish_spec(s: FixModel, ok: bool, logs: Seq<Seq<char>>) -> (FixModel, StepModel) {
    (
        FixModel { stage: FixStage::Finished, result: ok, ..s },
        StepModel { logs, action: ActionModel::Finish(ok) },
    )
}

pub open spec fn login_spec(s: FixModel, logs: Seq<Seq<char>>) -> (FixModel, StepModel) {
    (
        FixModel { stage: FixStage::AwaitFirstAuth, ..s },
        StepModel {
            logs: logs.push(submit_line()),
            action: ActionModel::Send(first_auth_request_spec(s.base, s.ip, s.username, s.password)),
        },
    )
}

/// What a finished login leads to: a failure ends the repair; a success
/// starts the re-checks.
pub open spec fn outcome_spec(s: FixModel, o: Result<LoginOutcomeModel, Seq<char>>) -> (FixModel, StepModel) {
    match o {
        Err(e) => finish_spec(s, false, seq!["[!!] 认证请求失败: "@ + e]),
        Ok(LoginOutcomeModel::NeedChannel(chs)) => finish_spec(
            s,
            false,
            need_channel_lines(s.wanted, chs),
        ),
        Ok(LoginOutcomeModel::Failed(m)) => finish_spec(s, false, seq!["[!!] 认证被拒绝: "@ + m]),
        Ok(LoginOutcomeModel::Done(a)) => (
            FixModel { stage: FixStage::AwaitRecheckPause, attempt: 1, ..s },
            StepModel { logs: done_lines(a), action: ActionModel::Sleep(RECHECK_PAUSE_MS) },
        ),
    }
}

/// After the pre-login reply: the portal's state and account, then a
/// logout of a stale session ("on" while the network is down) where the
/// settings ask for it, else the login.
pub open spec fn after_pre_login_spec(s: FixModel, p: Result<PreLoginModel, Seq<char>>) -> (FixModel, StepModel) {
    let state = match p {
        Ok(pm) => pm.state,
        Err(_) => Seq::empty(),
    };
    let user = match p {
        Ok(pm) => if pm.username.len() > 0 {
            pm.username
        } else {
            s.username
        },
        Err(_) => s.username,
    };
    let line = match p {
        Ok(pm) => portal_state_line(pm.state, user, s.ip),
        Err(e) => "[!!] pre_login 失败: "@ + e + "（继续尝试登录）"@,
    };
    let s2 = FixModel { user, ..s };
    if state == "on"@ && s.relogin {
        (
            FixModel { stage: FixStage::AwaitLogout, ..s2 },
            StepModel {
                logs: seq![line, "[..] 门户认为在线但实际无网 -> 注销僵尸会话…"@],
                action: ActionModel::Send(logout_request_spec(s.base, s.ip, user)),
            },
        )
    } else {
        login_spec(s2, seq![line])
    }
}

/// The repair flow's transition: from a state and what came of the last
/// action, the next state, the lines to log and the next action. An event
/// that the state does not wait for ends the flow as failed; a finished
/// flow stays finished.
pub open spec fn fix_next(s: FixModel, e: FixEvent) -> (FixModel, StepModel) {
    match s.stage {
        FixStage::Finished => (s, StepModel { logs: seq![], action: ActionModel::Finish(s.result) }),
        FixStage::Probe => match e {
            FixEvent::Internet { ok, why } => if ok {
                finish_spec(s, true, seq!["[ok] 网络正常（"@ + why@ + "）"@])
            } else {
                (
                    FixModel { stage: FixStage::AwaitIp, ..s },
                    StepModel {
                        logs: seq!["[..] 公网不通: "@ + why@],
                        action: ActionModel::Send(ip_request_spec(s.base)),
                    },
                )
            },
            _ => finish_spec(s, false, seq![]),
        },
        FixStage::AwaitIp => match e {
            FixEvent::Ip(r) => match ip_outcome_spec(r) {
                Err(msg) => finish_spec(
                    s,
                    false,
                    seq![
                        "[!!] 连门户都访问不到: "@ + msg,
                        "     请检查是否已连上 WiFi，或门户地址是否变更。"@,
                    ],
                ),
                Ok(ip) => (
                    FixModel { stage: FixStage::AwaitPreLogin, ip, ..s },
                    StepModel {
                        logs: seq![],
                        action: ActionModel::Send(pre_login_request_spec(s.base, ip)),
                    },
                ),
            },
            _ => finish_spec(s, false, seq![]),
        },
        FixStage::AwaitPreLogin => match e {
            FixEvent::Posted(r) => after_pre_login_spec(
                s,
                pre_login_outcome_spec(post_outcome_spec(PRE_LOGIN_PATH@, r)),
            ),
            _ => finish_spec(s, false, seq![]),
        },
        FixStage::AwaitLogout => match e {
            FixEvent::Posted(r) => (
                FixModel { stage: FixStage::AwaitLogoutPause, ..s },
                StepModel {
                    logs: match post_outcome_spec(LOGIN_PATH@, r) {
                        Err(msg) => seq!["[??] 注销请求异常（忽略）: "@ + msg],
                        Ok(_) => seq![],
                    },
                    action: ActionModel::Sleep(LOGOUT_PAUSE_MS),
                },
            ),
            _ => finish_spec(s, false, seq![]),
        },
        FixStage::AwaitLogoutPause => match e {
            FixEvent::Slept => login_spec(s, seq![]),
            _ => finish_spec(s, false, seq![]),
        },
        FixStage::AwaitFirstAuth => match e {
            FixEvent::Posted(r) => match first_auth_spec(post_outcome_spec(LOGIN_PATH@, r), s.wanted) {
                FirstAuthModel::Finished(o) => outcome_spec(s, o),
                FirstAuthModel::Second(c) => (
                    FixModel { stage: FixStage::AwaitSecondAuth, chosen: c, ..s },
                    StepModel {
                        logs: seq![],
                        action: ActionModel::Send(
                            second_auth_request_spec(s.base, s.ip, s.username, s.password, c.id),
                        ),
                    },
                ),
            },
            _ => finish_spec(s, false, seq![]),
        },
        FixStage::AwaitSecondAuth => match e {
            FixEvent::Posted(r) => outcome_spec(
                s,
                second_auth_spec(post_outcome_spec(LOGIN_PATH@, r), s.chosen),
            ),
            _ => finish_spec(s, false, seq![]),
        },
        FixStage::AwaitRecheckPause => match e {
            FixEvent::Slept => (
                FixModel { stage: FixStage::AwaitRecheck, ..s },
                StepModel { logs: seq![], action: ActionModel::CheckInternet },
            ),
            _ => finish_spec(s, false, seq![]),
        },
        FixStage::AwaitRecheck => match e {
            FixEvent::Internet { ok, why } => if ok {
                finish_spec(s, true, seq!["[ok] 认证成功，网络已恢复（"@ + why@ + "）"@])
            } else {
                let line = "[..] 第 "@ + decimal_spec(s.attempt as nat) + " 次复检仍未通（"@ + why@
                    + "）"@;
                if s.attempt < RECHECKS {
                    (
                        FixModel { stage: FixStage::AwaitRecheckPause, attempt: (s.attempt + 1) as u64, ..s },
                        StepModel { logs: seq![line], action: ActionModel::Sleep(RECHECK_PAUSE_MS) },
                    )
                } else {
                    finish_spec(
                        s,
                        false,
                        seq![
                            line,
                            "[!!] 认证返回成功，但外网仍不通。可能账号欠费/被限制/需要二次验证。"@,
                        ],
                    )
                }
            },
            _ => finish_spec(s, false, seq![]),
        },
    }
}

/// The state a repair starts in: waiting for the first network check.
pub open spec fn fix_start(c: ConfigModel) -> FixModel {
    FixModel {
        stage: FixStage::Probe,
        base: base_spec(c.portal),
        username: c.username,
        password: c.password,
        wanted: channel_target_spec(c.channel),
        relogin: c.on_stale_session == "relogin"@,
        ip: Seq::empty(),
        user: c.username,
        chosen: ChannelModel { id: Seq::empty(), name: Seq::empty() },
        attempt: 0,
        result: false,
    }
}

pub open spec fn logs_view(v: Seq<String>) -> Seq<Seq<char>> {
    v.map_values(|s: String| s@)
}

fn one_line(m: String) -> (v: Vec<String>)
    ensures
        logs_view(v@) == seq![m@],
{
    let mut v = Vec::new();
    v.push(m);
    assert(logs_view(v@) =~= seq![m@]);
    v
}

fn two_lines(a: String, b: String) -> (v: Vec<String>)
    ensures
        logs_view(v@) == seq![a@, b@],
{
    let mut v = Vec::new();
    v.push(a);
    v.push(b);
    assert(logs_view(v@) =~= seq![a@, b@]);
    v
}

fn no_lines() -> (v: Vec<String>)
    ensures
        logs_view(v@) == Seq::<Seq<char>>::empty(),
{
    let v: Vec<String> = Vec::new();
    assert(logs_view(v@) =~= Seq::<Seq<char>>::empty());
    v
}

fn bool_word(b: bool) -> (r: String)
    ensures
        r@ == bool_text(b),
{
    if b {
        owned("true")
    } else {
        owned("false")
    }
}

pub fn options_line(chs: &Vec<Channel>) -> (r: String)
    ensures
        r@ == options_text(channels_view(chs@)),
{
    let mut opts: Vec<String> = Vec::new();
    let mut i: usize = 0;
    while i < chs.len()
        invariant
            i <= chs.len(),
            opts.len() == i,
            forall|j: int| 0 <= j < i ==> (#[trigger] opts@[j])@ == option_text(chs@[j]@),
        decreases chs.len() - i,
    {
        opts.push(cat3(chs[i].id.as_str(), "=", chs[i].name.as_str()));
        i = i + 1;
    }
    assert(opts@.map_values(|p: String| p@) =~= channels_view(chs@).map_values(
        |c: ChannelModel| option_text(c),
    ));
    join(&opts, "  ")
}

impl FixFlow {
    /// A repair for the settings `cfg`; its first action is a network check.
    pub fn start(cfg: &Config) -> (r: (FixFlow, FixStep))
        ensures
            r.0@ == fix_start(cfg@),
            r.1@ == (StepModel { logs: seq![], action: ActionModel::CheckInternet }),
    {
        let flow = FixFlow {
            stage: FixStage::Probe,
            portal: Portal::new(cfg.portal.as_str()),
            username: cfg.username.clone(),
            password: cfg.password.clone(),
            wanted: owned(cfg.channel_or_default()),
            relogin: crate::text::str_eq(cfg.on_stale_session.as_str(), "relogin"),
            ip: String::new(),
            user: cfg.username.clone(),
            chosen: Channel { id: String::new(), name: String::new() },
            attempt: 0,
            result: false,
        };
        (flow, FixStep { logs: no_lines(), action: FixAction::CheckInternet })
    }

    fn finish(&mut self, ok: bool, logs: Vec<String>) -> (step: FixStep)
        ensures
            (final(self)@, step@) == finish_spec(old(self)@, ok, logs_view(logs@)),
    {
        self.stage = FixStage::Finished;
        self.result = ok;
        FixStep { logs, action: FixAction::Finish(ok) }
    }

    fn login(&mut self, logs: Vec<String>) -> (step: FixStep)
        ensures
            (final(self)@, step@) == login_spec(old(self)@, logs_view(logs@)),
    {
        let mut logs = logs;
        let ghost l0 = logs_view(logs@);
        logs.push(owned("[..] 提交认证（firstauth → secondauth）…"));
        assert(logs_view(logs@) =~= l0.push(submit_line()));
        self.stage = FixStage::AwaitFirstAuth;
        let req = self.portal.first_auth_request(
            self.ip.as_str(),
            self.username.as_str(),
            self.password.as_str(),
        );
        FixStep { logs, action: FixAction::Send(req) }
    }

    fn outcome(&mut self, o: Result<LoginOutcome, String>) -> (step: FixStep)
        ensures
            (final(self)@, step@) == outcome_spec(old(self)@, result_view(o)),
    {
        match o {
            Err(e) => {
                let line = cat("[!!] 认证请求失败: ", e.as_str());
                assert(result_view(o) == Err::<LoginOutcomeModel, Seq<char>>(e@));
                let step = self.finish(false, one_line(line));
                assert((self@, step@) == outcome_spec(old(self)@, result_view(o)));
                step
            },
            Ok(LoginOutcome::NeedChannel(chs)) => {
                let a = cat3("[!!] 账号有多个运营商出口，但没匹配到「", self.wanted.as_str(), "」");
                let opts_line = options_line(&chs);
                let b = cat("     可选: ", opts_line.as_str());
                let c = owned("     请在「设置」里修改出口运营商。");
                let mut logs = two_lines(a, b);
                let ghost l0 = logs_view(logs@);
                logs.push(c);
                assert(logs_view(logs@) =~= l0.push(c@));
                assert(logs_view(logs@) == need_channel_lines(old(self)@.wanted, channels_view(chs@)));
                let step = self.finish(false, logs);
                assert((self@, step@) == outcome_spec(old(self)@, result_view(o)));
                step
            },
            Ok(LoginOutcome::Failed(m)) => self.finish(false, one_line(cat("[!!] 认证被拒绝: ", m.as_str()))),
            Ok(LoginOutcome::Done(a)) => {
                let reauth = bool_word(a.reauth);
                let mut first = cat("[..] 认证响应: outport=", a.outport.as_str());
                first.append(" balance=");
                first.append(a.balance.as_str());
                first.append(" duration=");
                first.append(a.duration.as_str());
                first.append(" reauth=");
                first.append(reauth.as_str());
                let logs = if a.outport.as_str().unicode_len() != 0 {
                    two_lines(first, cat("[..] 运营商: ", a.outport.as_str()))
                } else {
                    one_line(first)
                };
                assert(logs_view(logs@) == done_lines(a@));
                self.stage = FixStage::AwaitRecheckPause;
                self.attempt = 1;
                FixStep { logs, action: FixAction::Sleep(RECHECK_PAUSE_MS) }
            },
        }
    }

    fn after_pre_login(&mut self, p: Result<PreLogin, String>) -> (step: FixStep)
        ensures
            (final(self)@, step@) == after_pre_login_spec(old(self)@, result_view(p)),
    {
        let (state, line) = match &p {
            Ok(pm) => {
                if pm.username.as_str().unicode_len() != 0 {
                    self.user = pm.username.clone();
                } else {
                    self.user = self.username.clone();
                }
                let shown = if pm.state.as_str().unicode_len() == 0 {
                    owned("?")
                } else {
                    pm.state.clone()
                };
                let mut line = cat("[..] 门户状态: ", shown.as_str());
                line.append("  账号: ");
                line.append(self.user.as_str());
                line.append("  IP: ");
                line.append(self.ip.as_str());
                (pm.state.clone(), line)
            },
            Err(e) => {
                self.user = self.username.clone();
                (String::new(), cat3("[!!] pre_login 失败: ", e.as_str(), "（继续尝试登录）"))
            },
        };
        if crate::text::str_eq(state.as_str(), "on") && self.relogin {
            self.stage = FixStage::AwaitLogout;
            let req = self.portal.logout_request(self.ip.as_str(), self.user.as_str());
            let logs = two_lines(line, owned("[..] 门户认为在线但实际无网 -> 注销僵尸会话…"));
            FixStep { logs, action: FixAction::Send(req) }
        } else {
            self.login(one_line(line))
        }
    }

    /// Takes what came of the last action and gives the next one.
    pub fn on_event(&mut self, e: FixEvent) -> (step: FixStep)
        ensures
            (final(self)@, step@) == fix_next(old(self)@, e),
    {
        match self.stage {
            FixStage::Finished => FixStep { logs: no_lines(), action: FixAction::Finish(self.result) },
            FixStage::Probe => match e {
                FixEvent::Internet { ok, why } => if ok {
                    self.finish(true, one_line(cat3("[ok] 网络正常（", why.as_str(), "）")))
                } else {
                    self.stage = FixStage::AwaitIp;
                    FixStep {
                        logs: one_line(cat("[..] 公网不通: ", why.as_str())),
                        action: FixAction::Send(self.portal.ip_request()),
                    }
                },
                _ => self.finish(false, no_lines()),
            },
            FixStage::AwaitIp => match e {
                FixEvent::Ip(r) => match ip_outcome(r) {
                    Err(msg) => self.finish(
                        false,
                        two_lines(
                            cat("[!!] 连门户都访问不到: ", msg.as_str()),
                            owned("     请检查是否已连上 WiFi，或门户地址是否变更。"),
                        ),
                    ),
                    Ok(ip) => {
                        let req = self.portal.pre_login_request(ip.as_str());
                        self.ip = ip;
                        self.stage = FixStage::AwaitPreLogin;
                        FixStep { logs: no_lines(), action: FixAction::Send(req) }
                    },
                },
                _ => self.finish(false, no_lines()),
            },
            FixStage::AwaitPreLogin => match e {
                FixEvent::Posted(r) => {
                    let p = pre_login_outcome(post_outcome(PRE_LOGIN_PATH, r));
                    self.after_pre_login(p)
                },
                _ => self.finish(false, no_lines()),
            },
            FixStage::AwaitLogout => match e {
                FixEvent::Posted(r) => {
                    let logs = match post_outcome(LOGIN_PATH, r) {
                        Err(msg) => one_line(cat("[??] 注销请求异常（忽略）: ", msg.as_str())),
                        Ok(_) => no_lines(),
                    };
                    self.stage = FixStage::AwaitLogoutPause;
                    FixStep { logs, action: FixAction::Sleep(LOGOUT_PAUSE_MS) }
                },
                _ => self.finish(false, no_lines()),
            },
            FixStage::AwaitLogoutPause => match e {
                FixEvent::Slept => self.login(no_lines()),
                _ => self.finish(false, no_lines()),
            },
            FixStage::AwaitFirstAuth => match e {
                FixEvent::Posted(r) => {
                    match first_auth_step(post_outcome(LOGIN_PATH, r), self.wanted.as_str()) {
                        FirstAuthStep::Finished(o) => self.outcome(o),
                        FirstAuthStep::Second(c) => {
                            let req = self.portal.second_auth_request(
                                self.ip.as_str(),
                                self.username.as_str(),
                                self.password.as_str(),
                                c.id.as_str(),
                            );
                            self.chosen = c;
                            self.stage = FixStage::AwaitSecondAuth;
                            FixStep { logs: no_lines(), action: FixAction::Send(req) }
                        },
                    }
                },
                _ => self.finish(false, no_lines()),
            },
            FixStage::AwaitSecondAuth => match e {
                FixEvent::Posted(r) => {
                    let o = second_auth_outcome(post_outcome(LOGIN_PATH, r), &self.chosen);
                    self.outcome(o)
                },
                _ => self.finish(false, no_lines()),
            },
            FixStage::AwaitRecheckPause => match e {
                FixEvent::Slept => {
                    self.stage = FixStage::AwaitRecheck;
                    FixStep { logs: no_lines(), action: FixAction::CheckInternet }
                },
                _ => self.finish(false, no_lines()),
            },
            FixStage::AwaitRecheck => match e {
                FixEvent::Internet { ok, why } => if ok {
                    self.finish(true, one_line(cat3("[ok] 认证成功，网络已恢复（", why.as_str(), "）")))
                } else {
                    let n = decimal(self.attempt);
                    let mut line = cat3("[..] 第 ", n.as_str(), " 次复检仍未通（");
                    line.append(why.as_str());
                    line.append("）");
                    if self.attempt < RECHECKS {
                        self.stage = FixStage::AwaitRecheckPause;
                        self.attempt = self.attempt + 1;
                        FixStep { logs: one_line(line), action: FixAction::Sleep(RECHECK_PAUSE_MS) }
                    } else {
                        self.finish(
                            false,
                            two_lines(
                                line,
                                owned("[!!] 认证返回成功，但外网仍不通。可能账号欠费/被限制/需要二次验证。"),
                            ),
                        )
                    }
                },
                _ => self.finish(false, no_lines()),
            },
        }
    }
}

// ------------------------------------------------------------------ //
// Laws of the repair flow
// ------------------------------------------------------------------ //

/// A well-formed state: during the re-checks, the count is between 1 and
/// `RECHECKS`.
pub open spec fn fix_wf(s: FixModel) -> bool {
    (s.stage == FixStage::AwaitRecheckPause || s.stage == FixStage::AwaitRecheck) ==> 1 <= s.attempt
        <= RECHECKS
}

/// How many events at most the flow still takes before it finishes.
pub open spec fn fix_rank(s: FixModel) -> nat {
    match s.stage {
        FixStage::Finished => 0,
        FixStage::AwaitRecheck => (2 * (RECHECKS - s.attempt) + 1) as nat,
        FixStage::AwaitRecheckPause => (2 * (RECHECKS - s.attempt) + 2) as nat,
        FixStage::AwaitSecondAuth => 14,
        FixStage::AwaitFirstAuth => 15,
        FixStage::AwaitLogoutPause => 16,
        FixStage::AwaitLogout => 17,
        FixStage::AwaitPreLogin => 18,
        FixStage::AwaitIp => 19,
        FixStage::Probe => 20,
    }
}

/// A repair starts well-formed and ends after at most 20 events.
pub proof fn lemma_fix_start(c: ConfigModel)
    ensures
        fix_wf(fix_start(c)),
        fix_rank(fix_start(c)) == 20,
{
}

/// Every event moves an unfinished repair closer to its end: a
/// well-formed state stays well-formed and its rank drops, so no run of the
/// flow takes more events than the rank of its start.
pub proof fn lemma_fix_progress(s: FixModel, e: FixEvent)
    requires
        fix_wf(s),
        s.stage != FixStage::Finished,
    ensures
        fix_wf(fix_next(s, e).0),
        fix_rank(fix_next(s, e).0) < fix_rank(s),
{
    match s.stage {
        FixStage::AwaitFirstAuth => match e {
            FixEvent::Posted(r) => match first_auth_spec(post_outcome_spec(LOGIN_PATH@, r), s.wanted) {
                FirstAuthModel::Finished(o) => {},
                FirstAuthModel::Second(c) => {},
            },
            _ => {},
        },
        _ => {},
    }
}

/// A finished repair stays finished and keeps its result.
pub proof fn lemma_fix_finished_stays(s: FixModel, e: FixEvent)
    requires
        s.stage == FixStage::Finished,
    ensures
        fix_next(s, e).0 == s,
        fix_next(s, e).1.action == ActionModel::Finish(s.result),
{
}

/// A repair reports a working network only on a check that found the
/// outside network reachable (or when it had finished so before).
pub proof fn lemma_success_needs_working_network(s: FixModel, e: FixEvent)
    requires
        fix_next(s, e).1.action == ActionModel::Finish(true),
    ensures
        (s.stage == FixStage::Finished && s.result) || (e is Internet && e->ok),
{
    match s.stage {
        FixStage::AwaitFirstAuth => match e {
            FixEvent::Posted(r) => match first_auth_spec(post_outcome_spec(LOGIN_PATH@, r), s.wanted) {
                FirstAuthModel::Finished(o) => {},
                FirstAuthModel::Second(c) => {},
            },
            _ => {},
        },
        _ => {},
    }
}

/// When the outside network works at the start, the repair does nothing
/// but say so: no request, no pause.
pub proof fn lemma_working_network_needs_nothing(c: ConfigModel, why: String)
    ensures
        fix_next(fix_start(c), FixEvent::Internet { ok: true, why }).1 == (StepModel {
            logs: seq!["[ok] 网络正常（"@ + why@ + "）"@],
            action: ActionModel::Finish(true),
        }),
{
}

/// A session is logged out only when the portal reports the address
/// online ("on") while the network is down, and the settings ask for it
/// (`on_stale_session` is "relogin").
pub proof fn lemma_logout_only_for_stale_session(s: FixModel, e: FixEvent)
    requires
        fix_next(s, e).0.stage == FixStage::AwaitLogout,
    ensures
        s.stage == FixStage::AwaitPreLogin,
        s.relogin,
        e is Posted,
        pre_login_outcome_spec(post_outcome_spec(PRE_LOGIN_PATH@, e->Posted_0)) is Ok,
        pre_login_outcome_spec(post_outcome_spec(PRE_LOGIN_PATH@, e->Posted_0))->Ok_0.state
            == "on"@,
{
    match s.stage {
        FixStage::AwaitFirstAuth => match e {
            FixEvent::Posted(r) => match first_auth_spec(post_outcome_spec(LOGIN_PATH@, r), s.wanted) {
                FirstAuthModel::Finished(o) => {},
                FirstAuthModel::Second(c) => {},
            },
            _ => {},
        },
        FixStage::AwaitPreLogin => match e {
            FixEvent::Posted(r) => {
                let p = pre_login_outcome_spec(post_outcome_spec(PRE_LOGIN_PATH@, r));
                if p is Err {
                    assert(Seq::<char>::empty() != "on"@) by {
                        reveal_strlit("on");
                    }
                }
            },
            _ => {},
        },
        _ => {},
    }
}

/// A stale session is logged out: when the portal reports the address
/// online ("on") while the network is down and the settings ask for it,
/// the next action is the logout of the account that the portal reports
/// (the configured one where it reports none), whatever that account is,
/// and the login waits until after it.
pub proof fn lemma_stale_session_logged_out(s: FixModel, e: FixEvent)
    requires
        s.stage == FixStage::AwaitPreLogin,
        s.relogin,
        e is Posted,
        pre_login_outcome_spec(post_outcome_spec(PRE_LOGIN_PATH@, e->Posted_0)) is Ok,
        pre_login_outcome_spec(post_outcome_spec(PRE_LOGIN_PATH@, e->Posted_0))->Ok_0.state
            == "on"@,
    ensures
        ({
            let p = pre_login_outcome_spec(post_outcome_spec(PRE_LOGIN_PATH@, e->Posted_0))->Ok_0;
            let account = if p.username.len() > 0 {
                p.username
            } else {
                s.username
            };
            &&& fix_next(s, e).0.stage == FixStage::AwaitLogout
            &&& fix_next(s, e).0.user == account
            &&& fix_next(s, e).1.action == ActionModel::Send(logout_request_spec(s.base, s.ip, account))
            &&& fix_next(s, e).1.logs.contains("[..] 门户认为在线但实际无网 -> 注销僵尸会话…"@)
        }),
{
    let p = pre_login_outcome_spec(post_outcome_spec(PRE_LOGIN_PATH@, e->Posted_0))->Ok_0;
    let account = if p.username.len() > 0 {
        p.username
    } else {
        s.username
    };
    assert(fix_next(s, e).1.logs[1] == "[..] 门户认为在线但实际无网 -> 注销僵尸会话…"@);
}

proof fn lemma_first_match_found(chs: Seq<ChannelModel>, t: Seq<char>)
    requires
        first_match(chs, t) is Some,
    ensures
        chs.contains(first_match(chs, t)->0),
        channel_matches(first_match(chs, t)->0, t),
    decreases chs.len(),
{
    if !channel_matches(chs[0], t) {
        lemma_first_match_found(chs.drop_first(), t);
        let c = first_match(chs, t)->0;
        let k = choose|k: int| 0 <= k < chs.drop_first().len() && chs.drop_first()[k] == c;
        assert(chs[k + 1] == c);
    } else {
        assert(chs[0] == first_match(chs, t)->0);
    }
}

/// The second login step goes through a carrier that the first step's
/// reply listed and that is the configured carrier, by id or by name; the
/// request carries that carrier's id.
pub proof fn lemma_second_step_uses_listed_carrier(s: FixModel, e: FixEvent)
    requires
        s.stage != FixStage::AwaitSecondAuth,
        fix_next(s, e).0.stage == FixStage::AwaitSecondAuth,
    ensures
        s.stage == FixStage::AwaitFirstAuth,
        e is Posted,
        post_outcome_spec(LOGIN_PATH@, e->Posted_0) is Ok,
        parse_channels_spec(member_or_null(post_outcome_spec(LOGIN_PATH@, e->Posted_0)->Ok_0, "data"@)).contains(
            fix_next(s, e).0.chosen,
        ),
        channel_matches(fix_next(s, e).0.chosen, channel_target_spec(s.wanted)),
        fix_next(s, e).1.action == ActionModel::Send(
            second_auth_request_spec(s.base, s.ip, s.username, s.password, fix_next(s, e).0.chosen.id),
        ),
{
    match s.stage {
        FixStage::AwaitFirstAuth => match e {
            FixEvent::Posted(r) => {
                let res = post_outcome_spec(LOGIN_PATH@, r);
                match first_auth_spec(res, s.wanted) {
                    FirstAuthModel::Finished(o) => {},
                    FirstAuthModel::Second(c) => {
                        let v = res->Ok_0;
                        let chs = parse_channels_spec(member_or_null(v, "data"@));
                        lemma_first_match_found(chs, channel_target_spec(s.wanted));
                    },
                }
            },
            _ => {},
        },
        _ => {},
    }
}

/// After the sixth failed re-check the repair gives up.
pub proof fn lemma_recheck_limit(s: FixModel, why: String)
    requires
        s.stage == FixStage::AwaitRecheck,
        s.attempt == RECHECKS,
    ensures
        fix_next(s, FixEvent::Internet { ok: false, why }).1.action == ActionModel::Finish(false),
{
}

// ------------------------------------------------------------------ //
// The status page
// ------------------------------------------------------------------ //

pub struct StatusPayload {
    pub ssid: Option<String>,
    pub internet: bool,
    pub probe: String,
    pub ip: Option<String>,
    pub portal_state: Option<String>,
    pub portal_user: Option<String>,
    pub outport: Option<String>,
    pub duration: Option<String>,
    pub balance: Option<String>,
    pub portal_error: Option<String>,
    pub channel: String,
    pub username: String,
    pub ready: bool,
    pub config_path: String,
    pub version: String,
    pub watcher: WatcherState,
}

pub open spec fn ov(o: Option<String>) -> Option<Seq<char>> {
    match o {
        Some(s) => Some(s@),
        None => None,
    }
}

/// The status page's data. The portal's fields come from the pre-login
/// reply, asked for only when the portal gave an address; the first error
/// on that way is shown as the portal error.
pub fn collect_status(
    cfg: &Config,
    watcher: WatcherState,
    ip: Result<String, String>,
    pre: Option<Result<PreLogin, String>>,
    internet: bool,
    probe: String,
    ssid: Option<String>,
    config_path: String,
    version: String,
) -> (s: StatusPayload)
    ensures
        ov(s.ssid) == ov(ssid),
        s.internet == internet,
        s.probe@ == probe@,
        s.watcher@ == watcher@,
        s.channel@ == channel_target_spec(cfg.channel@),
        s.username@ == cfg.username@,
        s.ready == ready_spec(cfg@),
        s.config_path@ == config_path@,
        s.version@ == version@,
        match ip {
            Err(e) => {
                &&& s.ip is None
                &&& s.portal_error matches Some(pe) && pe@ == e@
                &&& s.portal_state is None && s.portal_user is None && s.outport is None
                &&& s.duration is None && s.balance is None
            },
            Ok(a) => {
                &&& s.ip matches Some(x) && x@ == a@
                &&& match pre {
                    Some(Ok(p)) => {
                        &&& ov(s.portal_state) == Some(p.state@)
                        &&& ov(s.portal_user) == Some(p.username@)
                        &&& ov(s.outport) == Some(p.outport@)
                        &&& ov(s.duration) == Some(p.duration@)
                        &&& ov(s.balance) == Some(p.balance@)
                        &&& s.portal_error is None
                    },
                    Some(Err(e)) => {
                        &&& s.portal_error matches Some(pe) && pe@ == e@
                        &&& s.portal_state is None && s.portal_user is None && s.outport is None
                        &&& s.duration is None && s.balance is None
                    },
                    None => {
                        &&& s.portal_error is None
                        &&& s.portal_state is None && s.portal_user is None && s.outport is None
                        &&& s.duration is None && s.balance is None
                    },
                }
            },
        },
{
    let mut out = StatusPayload {
        ssid,
        internet,
        probe,
        ip: None,
        portal_state: None,
        portal_user: None,
        outport: None,
        duration: None,
        balance: None,
        portal_error: None,
        channel: owned(cfg.channel_or_default()),
        username: cfg.username.clone(),
        ready: cfg.is_ready(),
        config_path,
        version,
        watcher,
    };
    match ip {
        Err(e) => {
            out.portal_error = Some(e);
        },
        Ok(a) => {
            out.ip = Some(a);
            match pre {
                Some(Ok(p)) => {
                    out.portal_state = Some(p.state);
                    out.portal_user = Some(p.username);
                    out.outport = Some(p.outport);
                    out.duration = Some(p.duration);
                    out.balance = Some(p.balance);
                },
                Some(Err(e)) => {
                    out.portal_error = Some(e);
                },
                None => {},
            }
        },
    }
    out
}

} // verus!
