use campusflow::config::Config;
use campusflow::fixer::{collect_status, FixAction, FixEvent, FixFlow, FixStage, FixStep};
use campusflow::json::{to_text, Json, JsonNumber, Member};
use campusflow::portal::{PreLogin, Reply};
use campusflow::watcher::WatcherState;

fn s(x: &str) -> Json {
    Json::Str(x.to_string())
}

fn num(n: i64) -> Json {
    Json::Number(JsonNumber { text: n.to_string(), int: Some(n) })
}

fn obj(members: Vec<(&str, Json)>) -> Json {
    Json::Object(
        members
            .into_iter()
            .map(|(k, v)| Member { key: k.to_string(), value: v })
            .collect(),
    )
}

fn reply(v: Json) -> Reply {
    Reply::Received { text: to_text(&v) }
}

fn cfg() -> Config {
    let mut c = Config::default();
    c.username = "ad57361477".to_string();
    c.password = "pw".to_string();
    c
}

fn internet(ok: bool, why: &str) -> FixEvent {
    FixEvent::Internet { ok, why: why.to_string() }
}

fn ip_reply() -> FixEvent {
    FixEvent::Ip(reply(obj(vec![("code", num(200)), ("data", s("10.115.17.191"))])))
}

fn pre_login(state: &str) -> FixEvent {
    FixEvent::Posted(reply(obj(vec![
        ("code", num(200)),
        ("data", obj(vec![("useronlinestate", s(state)), ("username", s("online_user"))])),
    ])))
}

fn channels_reply() -> FixEvent {
    let ch = |id: &str, name: &str| obj(vec![("id", s(id)), ("name", s(name))]);
    FixEvent::Posted(reply(obj(vec![
        ("code", num(200)),
        ("data", obj(vec![("channels", Json::Array(vec![ch("3", "校园网"), ch("1", "中国电信")]))])),
    ])))
}

fn done_reply() -> FixEvent {
    FixEvent::Posted(reply(obj(vec![
        ("code", num(200)),
        ("data", obj(vec![("balance", s("0.00")), ("reauth", Json::Bool(false))])),
    ])))
}

fn sent_body(step: &FixStep) -> String {
    match &step.action {
        FixAction::Send(r) => r.body.clone(),
        _ => panic!("expected a request"),
    }
}

#[test]
fn working_network_needs_nothing() {
    let (mut flow, first) = FixFlow::start(&cfg());
    assert!(matches!(first.action, FixAction::CheckInternet));
    let step = flow.on_event(internet(true, "www.baidu.com"));
    assert!(matches!(step.action, FixAction::Finish(true)));
    assert_eq!(step.logs, vec!["[ok] 网络正常（www.baidu.com）".to_string()]);
    assert!(flow.stage == FixStage::Finished);
    let again = flow.on_event(FixEvent::Slept);
    assert!(matches!(again.action, FixAction::Finish(true)));
}

#[test]
fn stale_session_is_logged_out_then_logged_in() {
    let (mut flow, _) = FixFlow::start(&cfg());
    let step = flow.on_event(internet(false, "down"));
    assert_eq!(step.logs, vec!["[..] 公网不通: down".to_string()]);
    match &step.action {
        FixAction::Send(r) => assert_eq!(r.url, "http://10.102.250.36/api/v1/ip"),
        _ => panic!("expected the IP request"),
    }
    let step = flow.on_event(ip_reply());
    assert!(sent_body(&step).contains("\"user_ipadress\":\"10.115.17.191\""));
    let step = flow.on_event(pre_login("on"));
    assert_eq!(
        step.logs,
        vec![
            "[..] 门户状态: on  账号: online_user  IP: 10.115.17.191".to_string(),
            "[..] 门户认为在线但实际无网 -> 注销僵尸会话…".to_string(),
        ]
    );
    let body = sent_body(&step);
    assert!(body.contains("\"pagesign\":\"thirddauth\""));
    assert!(body.contains("\"username\":\"online_user\""));
    let step = flow.on_event(FixEvent::Posted(Reply::Unreachable("reset".to_string())));
    assert_eq!(step.logs, vec!["[??] 注销请求异常（忽略）: 请求 /api/v1/login 失败: reset".to_string()]);
    assert!(matches!(step.action, FixAction::Sleep(1000)));
    let step = flow.on_event(FixEvent::Slept);
    assert_eq!(step.logs, vec!["[..] 提交认证（firstauth → secondauth）…".to_string()]);
    let body = sent_body(&step);
    assert!(body.contains("\"pagesign\":\"firstauth\""));
    assert!(body.contains("\"username\":\"ad57361477\""));
    let step = flow.on_event(channels_reply());
    let body = sent_body(&step);
    assert!(body.contains("\"channel\":\"1\""));
    assert!(body.contains("\"pagesign\":\"secondauth\""));
    let step = flow.on_event(done_reply());
    assert_eq!(
        step.logs,
        vec![
            "[..] 认证响应: outport=中国电信 balance=0.00 duration= reauth=false".to_string(),
            "[..] 运营商: 中国电信".to_string(),
        ]
    );
    assert!(matches!(step.action, FixAction::Sleep(1500)));
    let step = flow.on_event(FixEvent::Slept);
    assert!(matches!(step.action, FixAction::CheckInternet));
    let step = flow.on_event(internet(true, "www.baidu.com"));
    assert_eq!(step.logs, vec!["[ok] 认证成功，网络已恢复（www.baidu.com）".to_string()]);
    assert!(matches!(step.action, FixAction::Finish(true)));
}

#[test]
fn login_only_skips_logout() {
    let mut c = cfg();
    c.on_stale_session = "login_only".to_string();
    let (mut flow, _) = FixFlow::start(&c);
    flow.on_event(internet(false, "down"));
    flow.on_event(ip_reply());
    let step = flow.on_event(pre_login("on"));
    assert!(sent_body(&step).contains("\"pagesign\":\"firstauth\""));
    assert_eq!(step.logs.len(), 2);
    assert_eq!(step.logs[1], "[..] 提交认证（firstauth → secondauth）…");
}

#[test]
fn offline_portal_state_goes_straight_to_login() {
    let (mut flow, _) = FixFlow::start(&cfg());
    flow.on_event(internet(false, "down"));
    flow.on_event(ip_reply());
    let step = flow.on_event(FixEvent::Posted(reply(obj(vec![("code", num(200))]))));
    assert_eq!(step.logs[0], "[..] 门户状态: ?  账号: ad57361477  IP: 10.115.17.191");
    assert!(sent_body(&step).contains("firstauth"));
}

#[test]
fn pre_login_failure_still_logs_in() {
    let (mut flow, _) = FixFlow::start(&cfg());
    flow.on_event(internet(false, "down"));
    flow.on_event(ip_reply());
    let step = flow.on_event(FixEvent::Posted(reply(obj(vec![("code", num(500))]))));
    assert_eq!(step.logs[0], "[!!] pre_login 失败: pre_login 失败: {\"code\":500}（继续尝试登录）");
    assert!(sent_body(&step).contains("firstauth"));
}

#[test]
fn six_failed_rechecks_give_up() {
    let (mut flow, _) = FixFlow::start(&cfg());
    flow.on_event(internet(false, "down"));
    flow.on_event(ip_reply());
    flow.on_event(pre_login("off"));
    let first = flow.on_event(FixEvent::Posted(reply(obj(vec![("code", num(200)), ("data", obj(vec![]))]))));
    assert!(matches!(first.action, FixAction::Sleep(1500)));
    let mut sleeps = 1;
    for i in 1..=6u64 {
        let step = flow.on_event(FixEvent::Slept);
        assert!(matches!(step.action, FixAction::CheckInternet));
        let step = flow.on_event(internet(false, "x"));
        assert_eq!(step.logs[0], format!("[..] 第 {i} 次复检仍未通（x）"));
        if i < 6 {
            assert!(matches!(step.action, FixAction::Sleep(1500)));
            sleeps += 1;
        } else {
            assert!(matches!(step.action, FixAction::Finish(false)));
            assert_eq!(step.logs[1], "[!!] 认证返回成功，但外网仍不通。可能账号欠费/被限制/需要二次验证。");
        }
    }
    assert_eq!(sleeps, 6);
}

#[test]
fn unmatched_carrier_lists_options() {
    let mut c = cfg();
    c.channel = "中国联通".to_string();
    let (mut flow, _) = FixFlow::start(&c);
    flow.on_event(internet(false, "down"));
    flow.on_event(ip_reply());
    flow.on_event(pre_login("off"));
    let step = flow.on_event(channels_reply());
    assert!(matches!(step.action, FixAction::Finish(false)));
    assert_eq!(
        step.logs,
        vec![
            "[!!] 账号有多个运营商出口，但没匹配到「中国联通」".to_string(),
            "     可选: 3=校园网  1=中国电信".to_string(),
            "     请在「设置」里修改出口运营商。".to_string(),
        ]
    );
}

#[test]
fn unreachable_portal_fails() {
    let (mut flow, _) = FixFlow::start(&cfg());
    flow.on_event(internet(false, "down"));
    let step = flow.on_event(FixEvent::Ip(Reply::Unreachable("timed out".to_string())));
    assert!(matches!(step.action, FixAction::Finish(false)));
    assert_eq!(
        step.logs,
        vec![
            "[!!] 连门户都访问不到: 获取 IP 失败: timed out".to_string(),
            "     请检查是否已连上 WiFi，或门户地址是否变更。".to_string(),
        ]
    );
}

#[test]
fn refused_login_fails() {
    let (mut flow, _) = FixFlow::start(&cfg());
    flow.on_event(internet(false, "down"));
    flow.on_event(ip_reply());
    flow.on_event(pre_login("off"));
    let step = flow.on_event(FixEvent::Posted(reply(obj(vec![
        ("code", num(401)),
        ("data", obj(vec![("text", s("密码错误"))])),
    ]))));
    assert_eq!(step.logs, vec!["[!!] 认证被拒绝: 密码错误".to_string()]);
    assert!(matches!(step.action, FixAction::Finish(false)));
    let (mut flow, _) = FixFlow::start(&cfg());
    flow.on_event(internet(false, "down"));
    flow.on_event(ip_reply());
    flow.on_event(pre_login("off"));
    let step = flow.on_event(FixEvent::Posted(Reply::Unreadable("eof".to_string())));
    assert_eq!(step.logs, vec!["[!!] 认证请求失败: 读取响应失败: eof".to_string()]);
}

#[test]
fn unexpected_event_ends_the_flow() {
    let (mut flow, _) = FixFlow::start(&cfg());
    let step = flow.on_event(FixEvent::Slept);
    assert!(matches!(step.action, FixAction::Finish(false)));
    assert!(step.logs.is_empty());
}

#[test]
fn status_payload_assembles_portal_fields() {
    let c = cfg();
    let pre = PreLogin {
        state: "on".to_string(),
        username: "u".to_string(),
        balance: "1".to_string(),
        duration: "2".to_string(),
        outport: "中国电信".to_string(),
        ip: "10.115.17.191".to_string(),
    };
    let st = collect_status(
        &c,
        WatcherState::default(),
        Ok("10.115.17.191".to_string()),
        Some(Ok(pre)),
        false,
        "probe".to_string(),
        Some("iFudan.stu".to_string()),
        "/cfg".to_string(),
        "0.1.0".to_string(),
    );
    assert_eq!(st.ip.as_deref(), Some("10.115.17.191"));
    assert_eq!(st.portal_state.as_deref(), Some("on"));
    assert_eq!(st.outport.as_deref(), Some("中国电信"));
    assert!(st.portal_error.is_none());
    assert_eq!(st.channel, "中国电信");
    assert!(st.ready);
    let st = collect_status(
        &Config::default(),
        WatcherState::default(),
        Err("获取 IP 失败: x".to_string()),
        None,
        true,
        "ok".to_string(),
        None,
        "/cfg".to_string(),
        "0.1.0".to_string(),
    );
    assert_eq!(st.portal_error.as_deref(), Some("获取 IP 失败: x"));
    assert!(st.ip.is_none());
    assert!(!st.ready);
}
