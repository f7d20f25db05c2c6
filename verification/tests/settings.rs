use campusflow::commands::{
    apply_patch, config_view, fix_result, login_result, logout_result, logout_user, plan_save,
    plan_watch, portal_page_url, app_info, ActionResult, ConfigPatch, SavePlan,
};
use campusflow::config::{channel_target, Config, DEFAULT_CHANNEL, MODE_EVENT, MODE_POLL};
use campusflow::portal::{AuthSuccess, Channel, LoginOutcome, PreLogin};

fn empty_patch() -> ConfigPatch {
    ConfigPatch { username: None, password: None, channel: None, interval: None, autostart: None }
}

fn ready_cfg() -> Config {
    let mut c = Config::default();
    c.username = "ad57361477".to_string();
    c.password = "pw".to_string();
    c
}

#[test]
fn defaults_match_the_readme() {
    let c = Config::default();
    assert_eq!(c.channel, "中国电信");
    assert_eq!(c.portal, "http://10.102.250.36");
    assert_eq!(c.profile, "iFudan.stu");
    assert_eq!(c.watch_interval, 30);
    assert_eq!(c.check_mode, "event");
    assert_eq!(c.on_stale_session, "relogin");
    assert!(!c.auto_watch && !c.autostart);
    assert!(!c.is_ready());
}

#[test]
fn readiness_needs_user_and_password() {
    let mut c = ready_cfg();
    assert!(c.is_ready());
    c.username = "   ".to_string();
    assert!(!c.is_ready());
    c.username = "u".to_string();
    c.password = String::new();
    assert!(!c.is_ready());
    c.password = " ".to_string();
    assert!(c.is_ready());
}

#[test]
fn channel_defaults_and_trims() {
    let mut c = Config::default();
    c.channel = "  1 ".to_string();
    assert_eq!(c.channel_or_default(), "1");
    c.channel = "  ".to_string();
    assert_eq!(c.channel_or_default(), DEFAULT_CHANNEL);
    assert_eq!(channel_target(channel_target(" 中国移动 ")), channel_target(" 中国移动 "));
    assert_eq!(channel_target(channel_target("")), "中国电信");
}

#[test]
fn mode_normalises() {
    let mut c = Config::default();
    c.check_mode = "POLL".to_string();
    assert_eq!(c.mode(), MODE_POLL);
    c.check_mode = "timer".to_string();
    assert_eq!(c.mode(), MODE_EVENT);
}

#[test]
fn patch_trims_clamps_and_reports() {
    let mut c = ready_cfg();
    let p = ConfigPatch {
        username: Some("  newuser ".to_string()),
        password: Some("secret".to_string()),
        channel: Some(" 1 ".to_string()),
        interval: Some(1),
        autostart: Some(true),
    };
    let changed = apply_patch(&mut c, &p);
    assert_eq!(changed, vec!["用户名", "密码", "运营商", "检查间隔", "开机自启"]);
    assert_eq!(c.username, "newuser");
    assert_eq!(c.password, "secret");
    assert_eq!(c.channel, "1");
    assert_eq!(c.watch_interval, 5);
    assert!(c.autostart);
    let mut big = ready_cfg();
    apply_patch(&mut big, &ConfigPatch { interval: Some(100000), ..empty_patch() });
    assert_eq!(big.watch_interval, 3600);
}

#[test]
fn empty_password_keeps_the_old_one() {
    let mut c = ready_cfg();
    let changed = apply_patch(&mut c, &ConfigPatch { password: Some(String::new()), ..empty_patch() });
    assert!(changed.is_empty());
    assert_eq!(c.password, "pw");
}

#[test]
fn empty_patch_changes_nothing() {
    let mut c = ready_cfg();
    let changed = apply_patch(&mut c, &empty_patch());
    assert!(changed.is_empty());
    assert_eq!(c.username, "ad57361477");
}

#[test]
fn patch_twice_reports_only_the_password() {
    let p = ConfigPatch {
        username: Some(" x ".to_string()),
        password: Some("p2".to_string()),
        channel: Some("2".to_string()),
        interval: Some(60),
        autostart: Some(true),
    };
    let mut c = ready_cfg();
    apply_patch(&mut c, &p);
    let again = apply_patch(&mut c, &p);
    assert_eq!(again, vec!["密码"]);
    assert_eq!(c.username, "x");
    assert_eq!(c.watch_interval, 60);
}

#[test]
fn save_plan_rejects_missing_account() {
    match plan_save(&Config::default(), &empty_patch()) {
        SavePlan::Reject(r) => {
            assert!(!r.ok);
            assert_eq!(r.msg, "用户名和密码都不能为空");
        }
        _ => panic!("expected a refusal"),
    }
    match plan_save(&ready_cfg(), &empty_patch()) {
        SavePlan::Save { msg, autostart, .. } => {
            assert_eq!(msg, "没有变化");
            assert_eq!(autostart, None);
        }
        _ => panic!("expected a save"),
    }
    match plan_save(&ready_cfg(), &ConfigPatch { channel: Some("2".to_string()), interval: Some(45), autostart: Some(false), ..empty_patch() }) {
        SavePlan::Save { cfg, msg, autostart } => {
            assert_eq!(msg, "已保存: 运营商、检查间隔");
            assert_eq!(autostart, Some(false));
            assert_eq!(cfg.watch_interval, 45);
        }
        _ => panic!("expected a save"),
    }
}

#[test]
fn watch_switch_decisions() {
    let p = plan_watch("start", false, 30, None);
    assert!(p.result.ok && p.start && !p.stop);
    assert_eq!(p.result.msg, "自动连接已启动");
    let p = plan_watch("start", true, 30, Some(30));
    assert!(!p.start && !p.stop);
    assert_eq!(p.result.msg, "自动连接已在运行");
    let p = plan_watch("start", true, 30, Some(60));
    assert!(p.start && p.stop);
    assert_eq!(p.log.as_deref(), Some("[..] 检查间隔变了，自动连接重启中…"));
    let p = plan_watch("start", true, 5, Some(1));
    assert!(!p.start, "an interval clamped to the current one changes nothing");
    let p = plan_watch("stop", false, 30, None);
    assert_eq!(p.result.msg, "自动连接本来就没开");
    let p = plan_watch("stop", true, 30, None);
    assert!(p.stop && !p.start);
    assert_eq!(p.log.as_deref(), Some("[..] 自动连接已停止"));
    let p = plan_watch("set", true, 30, Some(9999));
    assert_eq!(p.result.msg, "检查间隔已改为 3600 秒");
    let p = plan_watch("set", true, 30, None);
    assert_eq!(p.result.msg, "检查间隔已改为 30 秒");
    let p = plan_watch("set", false, 30, Some(10));
    assert_eq!(p.result.msg, "已保存");
    let p = plan_watch("pause", true, 30, None);
    assert!(!p.result.ok);
    assert_eq!(p.result.msg, "action 必须是 start / stop / set");
}

#[test]
fn watch_switch_is_kept() {
    assert_eq!(plan_watch("start", false, 30, None).auto_watch, Some(true));
    assert_eq!(plan_watch("start", true, 30, None).auto_watch, Some(true));
    assert_eq!(plan_watch("stop", true, 30, None).auto_watch, Some(false));
    assert_eq!(plan_watch("stop", false, 30, None).auto_watch, Some(false));
    assert_eq!(plan_watch("set", true, 30, Some(10)).auto_watch, None);
    assert_eq!(plan_watch("pause", true, 30, None).auto_watch, None);
}

#[test]
fn login_results_and_lines() {
    let done = LoginOutcome::Done(AuthSuccess {
        username: "u".to_string(),
        outport: "中国电信".to_string(),
        balance: "0".to_string(),
        duration: "1".to_string(),
        reauth: false,
    });
    let (r, line) = login_result("中国电信", Ok(done));
    assert!(r.ok);
    assert_eq!(r.msg, "认证成功 · 中国电信");
    assert_eq!(line, "[ok] 认证成功: outport=中国电信 balance=0");
    let need = LoginOutcome::NeedChannel(vec![Channel { id: "3".to_string(), name: "校园网".to_string() }]);
    let (r, line) = login_result("中国联通", Ok(need));
    assert!(!r.ok);
    assert_eq!(r.msg, "运营商「中国联通」不在列表里");
    assert_eq!(r.channels.as_ref().unwrap().len(), 1);
    assert_eq!(line, "[!!] 未匹配到运营商「中国联通」，可选: 3=校园网");
    let (r, line) = login_result("x", Ok(LoginOutcome::Failed("no".to_string())));
    assert_eq!((r.ok, r.msg.as_str(), line.as_str()), (false, "no", "[!!] 认证被拒绝: no"));
    let (r, line) = login_result("x", Err("net".to_string()));
    assert_eq!((r.ok, r.msg.as_str(), line.as_str()), (false, "net", "[!!] 认证异常: net"));
}

#[test]
fn logout_prefers_the_online_account() {
    let pre = PreLogin {
        state: "on".to_string(),
        username: "online".to_string(),
        balance: String::new(),
        duration: String::new(),
        outport: String::new(),
        ip: String::new(),
    };
    assert_eq!(logout_user("cfg", Ok(pre)), "online");
    assert_eq!(logout_user("cfg", Err("x".to_string())), "cfg");
    let (r, line) = logout_result(Ok(()));
    assert_eq!((r.ok, r.msg.as_str(), line.as_str()), (true, "已注销", "[ok] 已注销当前会话"));
    let (r, line) = logout_result(Err("e".to_string()));
    assert_eq!((r.ok, line.as_str()), (false, "[!!] 注销失败: e"));
}

#[test]
fn fix_results_and_views() {
    assert_eq!(fix_result(true).msg, "连接成功");
    assert_eq!(fix_result(false).msg, "连接失败，看日志");
    let r = ActionResult::new(true, "m".to_string());
    assert!(r.ok && r.channels.is_none());
    let v = config_view(&ready_cfg(), true);
    assert!(v.has_password && v.autostart);
    assert_eq!(v.channel, "中国电信");
    assert_eq!(v.interval, 30);
    let a = app_info(&ready_cfg(), "0.1.0", "/x/config.json", false);
    assert_eq!(a.portal, "http://10.102.250.36");
    assert_eq!(a.config_path, "/x/config.json");
    assert_eq!(
        portal_page_url(" http://10.102.250.36/ "),
        "http://10.102.250.36/#/login?wlanuserfirsturl=http://www.msftconnecttest.com/redirect"
    );
}
