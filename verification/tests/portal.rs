use campusflow::json::{to_text, Json, JsonNumber, Member};
use campusflow::portal::{
    compact, describe, find_channel, first_auth_step, ip_outcome, parse_channels, parse_success,
    payload, post_outcome, pre_login_body, pre_login_outcome, second_auth_outcome, Channel,
    FirstAuthStep, LoginOutcome, Method, Portal, Reply, LOGIN_PATH,
};

fn s(x: &str) -> Json {
    Json::Str(x.to_string())
}

fn num(n: i64) -> Json {
    Json::Number(JsonNumber { text: n.to_string(), int: Some(n) })
}

fn obj(members: Vec<(&str, Json)>) -> Json {
    Json::Object(
        members
            .into_iter()
            .map(|(k, v)| Member { key: k.to_string(), value: v })
            .collect(),
    )
}

fn channel(id: &str, name: &str) -> Json {
    obj(vec![("id", s(id)), ("name", s(name))])
}

fn four_channels() -> Json {
    obj(vec![
        ("code", num(200)),
        (
            "data",
            obj(vec![(
                "channels",
                Json::Array(vec![
                    channel("3", "校园网"),
                    channel("2", "中国移动"),
                    channel("1", "中国电信"),
                    channel("4", "中国联通"),
                ]),
            )]),
        ),
    ])
}

#[test]
fn portal_base_is_trimmed_without_trailing_slash() {
    assert_eq!(Portal::new(" http://10.102.250.36/ ").base, "http://10.102.250.36");
    assert_eq!(Portal::new("http://10.102.250.36//").base, "http://10.102.250.36");
    assert_eq!(Portal::new("http://10.102.250.36").base, "http://10.102.250.36");
    assert_eq!(Portal::new("a /").base, "a ");
}

#[test]
fn pre_login_body_is_compact_json() {
    assert_eq!(
        pre_login_body("10.115.17.191"),
        "{\"getuseronlinestate\":\"on_or_off\",\"user_ipadress\":\"10.115.17.191\"}"
    );
    let body = pre_login_body("10.115.17.191");
    assert!(body.contains("\"getuseronlinestate\":\"on_or_off\""));
    assert!(!body.contains(": "));
}

#[test]
fn pre_login_body_escapes_quotes() {
    assert_eq!(
        pre_login_body("a\"b"),
        "{\"getuseronlinestate\":\"on_or_off\",\"user_ipadress\":\"a\\\"b\"}"
    );
}

#[test]
fn login_bodies_match_the_protocol() {
    let p = Portal::new("http://10.102.250.36");
    let first = p.first_auth_request("10.115.17.191", "ad57361477", "pw");
    assert!(matches!(first.method, Method::Post));
    assert_eq!(first.url, "http://10.102.250.36/api/v1/login");
    assert_eq!(first.path, "/api/v1/login");
    assert_eq!(
        first.body,
        "{\"channel\":\"_GET\",\"ifautologin\":\"0\",\"pagesign\":\"firstauth\",\"password\":\"pw\",\"username\":\"ad57361477\",\"usripadd\":\"10.115.17.191\"}"
    );
    let second = p.second_auth_request("10.115.17.191", "u", "pw", "1");
    assert_eq!(
        second.body,
        "{\"channel\":\"1\",\"ifautologin\":\"0\",\"pagesign\":\"secondauth\",\"password\":\"pw\",\"username\":\"u\",\"usripadd\":\"10.115.17.191\"}"
    );
    let off = p.second_auth_request("ip", "u", "pw", "0");
    assert!(off.body.contains("\"pagesign\":\"thirdauth\""));
    let out = p.logout_request("10.115.17.191", "u");
    assert_eq!(
        out.body,
        "{\"channel\":\"0\",\"ifautologin\":\"1\",\"pagesign\":\"thirddauth\",\"password\":\"123\",\"username\":\"u\",\"usripadd\":\"10.115.17.191\"}"
    );
    let ip = p.ip_request();
    assert!(matches!(ip.method, Method::Get));
    assert_eq!(ip.url, "http://10.102.250.36/api/v1/ip");
    assert_eq!(ip.body, "");
    let pre = p.pre_login_request("1.2.3.4");
    assert_eq!(pre.url, "http://10.102.250.36/api/v1/pre_login");
    assert_eq!(
        payload("i", "u", "p", "c", "s", "a"),
        "{\"channel\":\"c\",\"ifautologin\":\"a\",\"pagesign\":\"s\",\"password\":\"p\",\"username\":\"u\",\"usripadd\":\"i\"}"
    );
}

#[test]
fn post_outcome_reports_each_failure() {
    let e = post_outcome("/api/v1/login", Reply::Unreachable("x".repeat(70)));
    assert_eq!(e.err().unwrap(), format!("请求 /api/v1/login 失败: {}…", "x".repeat(60)));
    let e = post_outcome("/p", Reply::Unreadable("eof".to_string()));
    assert_eq!(e.err().unwrap(), "读取响应失败: eof");
    let e = post_outcome(
        "/p",
        Reply::Received { text: "<html>".to_string() },
    );
    assert_eq!(
        e.err().unwrap(),
        "/p 返回的不是 JSON: expected value at line 1 column 1；原文前 200 字: <html>"
    );
    let ok = post_outcome("/p", Reply::Received { text: "{}".to_string() });
    assert!(matches!(ok, Ok(Json::Object(ref ms)) if ms.is_empty()));
    let ok = post_outcome("/p", Reply::Received { text: "{ \"b\": [1, \"x\"], \"a\": null }".to_string() });
    assert_eq!(to_text(&ok.unwrap()), "{\"a\":null,\"b\":[1,\"x\"]}");
}

#[test]
fn ip_outcome_reads_data() {
    let r = ip_outcome(Reply::Received { text: "{\"code\":200,\"data\":\"10.115.17.191\"}".to_string() });
    assert_eq!(r.unwrap(), "10.115.17.191");
    let r = ip_outcome(Reply::Received { text: "{\"code\":500}".to_string() });
    assert_eq!(r.err().unwrap(), "获取 IP 失败，返回: {\"code\":500}");
    let r = ip_outcome(Reply::Received { text: "x".to_string() });
    assert_eq!(r.err().unwrap(), "IP 接口返回异常: expected value at line 1 column 1");
    let r = ip_outcome(Reply::Unreachable("refused".to_string()));
    assert_eq!(r.err().unwrap(), "获取 IP 失败: refused");
}

#[test]
fn pre_login_outcome_reads_fields() {
    let v = obj(vec![
        ("code", num(200)),
        (
            "data",
            obj(vec![
                ("balance", s("0")),
                ("duration", s("731")),
                ("outport", s("中国电信")),
                ("usripadd", s("10.115.17.191")),
                ("useronlinestate", s("on")),
                ("username", s("ad57361477")),
            ]),
        ),
    ]);
    let p = pre_login_outcome(Ok(v)).ok().unwrap();
    assert_eq!(p.state, "on");
    assert_eq!(p.username, "ad57361477");
    assert_eq!(p.balance, "0");
    assert_eq!(p.duration, "731");
    assert_eq!(p.outport, "中国电信");
    assert_eq!(p.ip, "10.115.17.191");
    let bad = pre_login_outcome(Ok(obj(vec![("code", num(400))])));
    assert_eq!(bad.err().unwrap(), "pre_login 失败: {\"code\":400}");
    let none = pre_login_outcome(Ok(obj(vec![("code", num(200))]))).ok().unwrap();
    assert_eq!(none.state, "");
    let passed = pre_login_outcome(Err("boom".to_string()));
    assert_eq!(passed.err().unwrap(), "boom");
}

#[test]
fn describe_prefers_portal_text() {
    let v = obj(vec![("code", num(400)), ("data", obj(vec![("text", s("密码错误"))]))]);
    assert_eq!(describe(&v), "密码错误");
    let v = obj(vec![("code", num(500)), ("message", s("busy"))]);
    assert_eq!(describe(&v), "code=500 busy");
    let v = obj(vec![("code", s("E1"))]);
    assert_eq!(describe(&v), "code=\"E1\" {\"code\":\"E1\"}");
    let v = obj(vec![]);
    assert_eq!(describe(&v), "code= {}");
}

#[test]
fn compact_truncates_to_200() {
    let long = "y".repeat(300);
    let v = obj(vec![("m", s(&long))]);
    let c = compact(&v);
    assert_eq!(c.chars().count(), 201);
    assert!(c.ends_with('…'));
}

#[test]
fn channels_skip_those_without_id() {
    let data = obj(vec![(
        "channels",
        Json::Array(vec![
            channel("3", "校园网"),
            obj(vec![("name", s("no id"))]),
            obj(vec![("id", num(1)), ("name", s("中国电信"))]),
        ]),
    )]);
    let chs = parse_channels(&data);
    assert_eq!(chs.len(), 2);
    assert_eq!(chs[0].id, "3");
    assert_eq!(chs[1].id, "1");
    assert_eq!(chs[1].name, "中国电信");
    assert_eq!(parse_channels(&obj(vec![("channels", s("x"))])).len(), 0);
}

#[test]
fn success_reads_reauth() {
    let d = obj(vec![("outport", s("中国电信")), ("reauth", Json::Bool(true))]);
    let a = parse_success(&d);
    assert_eq!(a.outport, "中国电信");
    assert!(a.reauth);
    assert!(!parse_success(&obj(vec![])).reauth);
}

#[test]
fn find_channel_by_id_or_name() {
    let chs = vec![
        Channel { id: "3".to_string(), name: "校园网".to_string() },
        Channel { id: "1".to_string(), name: "中国电信".to_string() },
    ];
    assert_eq!(find_channel(&chs, "1").unwrap().name, "中国电信");
    assert_eq!(find_channel(&chs, "校园网").unwrap().id, "3");
    assert!(find_channel(&chs, "中国联通").is_none());
}

#[test]
fn first_step_picks_configured_carrier() {
    match first_auth_step(Ok(four_channels()), "  中国电信 ") {
        FirstAuthStep::Second(c) => {
            assert_eq!(c.id, "1");
            assert_eq!(c.name, "中国电信");
        }
        _ => panic!("expected a second step"),
    }
    match first_auth_step(Ok(four_channels()), "") {
        FirstAuthStep::Second(c) => assert_eq!(c.id, "1"),
        _ => panic!("the default carrier is 中国电信"),
    }
    match first_auth_step(Ok(four_channels()), "2") {
        FirstAuthStep::Second(c) => assert_eq!(c.name, "中国移动"),
        _ => panic!("expected a second step"),
    }
}

#[test]
fn first_step_without_match_lists_carriers() {
    match first_auth_step(Ok(four_channels()), "unknown") {
        FirstAuthStep::Finished(Ok(LoginOutcome::NeedChannel(chs))) => assert_eq!(chs.len(), 4),
        _ => panic!("expected NeedChannel"),
    }
}

#[test]
fn first_step_without_channels_is_done() {
    let v = obj(vec![("code", num(200)), ("data", obj(vec![("outport", s("校园网"))]))]);
    match first_auth_step(Ok(v), "1") {
        FirstAuthStep::Finished(Ok(LoginOutcome::Done(a))) => assert_eq!(a.outport, "校园网"),
        _ => panic!("expected Done"),
    }
}

#[test]
fn first_step_refusal_and_error() {
    let v = obj(vec![("code", num(401)), ("data", obj(vec![("text", s("账号不存在"))]))]);
    match first_auth_step(Ok(v), "1") {
        FirstAuthStep::Finished(Ok(LoginOutcome::Failed(m))) => assert_eq!(m, "账号不存在"),
        _ => panic!("expected Failed"),
    }
    match first_auth_step(Err("down".to_string()), "1") {
        FirstAuthStep::Finished(Err(e)) => assert_eq!(e, "down"),
        _ => panic!("expected an error"),
    }
}

#[test]
fn second_step_falls_back_to_carrier_name() {
    let chosen = Channel { id: "1".to_string(), name: "中国电信".to_string() };
    let v = obj(vec![("code", num(200)), ("data", obj(vec![("reauth", Json::Bool(false))]))]);
    match second_auth_outcome(Ok(v), &chosen) {
        Ok(LoginOutcome::Done(a)) => assert_eq!(a.outport, "中国电信"),
        _ => panic!("expected Done"),
    }
    let v = obj(vec![("code", num(200)), ("data", obj(vec![("outport", s("电信"))]))]);
    match second_auth_outcome(Ok(v), &chosen) {
        Ok(LoginOutcome::Done(a)) => assert_eq!(a.outport, "电信"),
        _ => panic!("expected Done"),
    }
    let v = obj(vec![("code", num(500)), ("message", s("fail"))]);
    match second_auth_outcome(Ok(v), &chosen) {
        Ok(LoginOutcome::Failed(m)) => assert_eq!(m, "code=500 fail"),
        _ => panic!("expected Failed"),
    }
    assert!(second_auth_outcome(Err("e".to_string()), &chosen).is_err());
    assert_eq!(LOGIN_PATH, "/api/v1/login");
}
