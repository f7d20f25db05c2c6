use campusflow::autostart::{is_enabled, run_value, set_enabled};
use campusflow::codec::{decode, decode_console};
use campusflow::dpapi::{is_encrypted, open_stored, seal, to_seal, unsealed_text, Stored};
use campusflow::logbus::{level_of, make_event, LogBus, MAX_HISTORY};
use campusflow::net::{
    host_of, host_port, is_benign_redirect, probes, ssid_from_netsh, verdict, wifi_ssid,
    CampusWait, InternetCheck, Probe, ProbeOutcome, WaitVerdict,
};
use campusflow::startup::{check, StartupAction, StartupEvent};
use campusflow::watcher::{run_once, start_message, RoundAction, RoundEvent, WatcherState};
use campusflow::config::Config;

fn baidu() -> Probe {
    probes().remove(0)
}

fn response(status: u16, location: Option<&str>, body: &str) -> ProbeOutcome {
    ProbeOutcome::Response {
        status,
        location: location.map(|l| l.to_string()),
        body: body.to_string(),
    }
}

#[test]
fn hosts_of_urls() {
    assert_eq!(host_of("http://www.baidu.com"), "www.baidu.com");
    assert_eq!(host_of("https://www.baidu.com/s?wd=1"), "www.baidu.com");
    assert_eq!(host_of("www.baidu.com/x"), "www.baidu.com");
    assert_eq!(host_of("http://a://b/c"), "a");
    assert_eq!(host_of("http://10.102.250.36:8080/path"), "10.102.250.36:8080");
}

#[test]
fn redirects_within_the_site_are_benign() {
    let p = baidu();
    assert!(is_benign_redirect(&p, Some("https://www.baidu.com/"), "www.baidu.com"));
    assert!(is_benign_redirect(&p, Some("https://baidu.com"), "www.baidu.com"));
    assert!(is_benign_redirect(&p, Some("/relative"), "www.baidu.com"));
    assert!(!is_benign_redirect(&p, Some("http://10.102.250.36/#/login"), "www.baidu.com"));
    assert!(!is_benign_redirect(&p, Some("http://evilbaidu.com/"), "www.baidu.com"));
    assert!(!is_benign_redirect(&p, None, "www.baidu.com"));
}

#[test]
fn probe_verdicts() {
    let p = baidu();
    let h = "www.baidu.com";
    assert!(verdict(&p, h, response(200, None, "<title>百度一下 Baidu</title>")).is_ok());
    assert_eq!(
        verdict(&p, h, response(200, None, "<html>portal</html>")).err().unwrap(),
        "www.baidu.com: 内容异常（疑似门户劫持）"
    );
    assert!(verdict(&p, h, response(302, Some("https://www.baidu.com/"), "")).is_ok());
    assert_eq!(
        verdict(&p, h, response(302, Some("http://10.102.250.36/"), "")).err().unwrap(),
        "www.baidu.com: HTTP 302 → http://10.102.250.36/（疑似门户劫持）"
    );
    assert_eq!(
        verdict(&p, h, response(301, None, "")).err().unwrap(),
        "www.baidu.com: HTTP 301 → (无 Location)（疑似门户劫持）"
    );
    assert_eq!(
        verdict(&p, h, response(204, None, "")).err().unwrap(),
        "www.baidu.com: HTTP 204（疑似门户劫持）"
    );
    assert_eq!(
        verdict(&p, h, ProbeOutcome::Failed("dns error".to_string())).err().unwrap(),
        "www.baidu.com: dns error"
    );
}

#[test]
fn internet_check_reports_all_failures() {
    let mut c = InternetCheck::new();
    assert!(c.pending());
    assert_eq!(c.current_url(), "http://www.baidu.com");
    let r = c.on_outcome(ProbeOutcome::Failed("timeout".to_string()));
    assert_eq!(r, Some((false, "1/1 探测点失败（www.baidu.com: timeout）".to_string())));
    assert!(!c.pending());
    let mut c = InternetCheck::new();
    let r = c.on_outcome(response(200, None, "baidu"));
    assert_eq!(r, Some((true, "www.baidu.com".to_string())));
}

#[test]
fn ssid_from_netsh_output() {
    let out = "\r\n    Name                   : WLAN\r\n    SSID                   : iFudan.stu\r\n    BSSID                  : aa:bb:cc\r\n";
    assert_eq!(ssid_from_netsh(out).as_deref(), Some("iFudan.stu"));
    let none = "    BSSID : aa:bb\n    SSID :   \n";
    assert_eq!(ssid_from_netsh(none), None);
    assert_eq!(ssid_from_netsh(""), None);
    assert_eq!(ssid_from_netsh("SSID: a:b").as_deref(), Some("a:b"));
    assert_eq!(wifi_ssid(), None);
}

#[test]
fn host_and_port_of_portal() {
    assert_eq!(host_port("http://10.102.250.36"), Some(("10.102.250.36".to_string(), 80)));
    assert_eq!(host_port("http://10.102.250.36:8080/x"), Some(("10.102.250.36".to_string(), 8080)));
    assert_eq!(host_port("10.1.1.1:+81"), Some(("10.1.1.1".to_string(), 81)));
    assert_eq!(host_port("http://h:70000"), None);
    assert_eq!(host_port("http://h:"), None);
    assert_eq!(host_port("http://h:8a"), None);
}

#[test]
fn campus_wait_rounds() {
    let mut w = CampusWait::new(5000);
    match w.round(false, false, Some("192.168.1.2".to_string())) {
        WaitVerdict::Sleep(ms) => assert_eq!(ms, 2500),
        _ => panic!("expected to wait"),
    }
    match w.round(false, false, Some("10.115.17.191".to_string())) {
        WaitVerdict::Ready(m) => assert_eq!(m, "已拿到校园网地址 10.115.17.191"),
        _ => panic!("expected ready"),
    }
    match w.round(false, true, None) {
        WaitVerdict::Ready(m) => assert_eq!(m, "认证门户可达"),
        _ => panic!("expected ready"),
    }
    match w.round(true, true, None) {
        WaitVerdict::GiveUp(m) => assert_eq!(m, "已取消"),
        _ => panic!("expected cancel"),
    }
    let mut rounds = 0;
    loop {
        rounds += 1;
        match w.round(false, false, None) {
            WaitVerdict::Sleep(_) => {}
            WaitVerdict::GiveUp(m) => {
                assert_eq!(m, "5 秒内未就绪");
                break;
            }
            WaitVerdict::Ready(_) => panic!("never ready"),
        }
    }
    assert_eq!(rounds, 2);
}

#[test]
fn campus_wait_gives_up_after_overshooting_step() {
    let mut w = CampusWait::new(1000);
    assert!(matches!(w.round(false, false, None), WaitVerdict::Sleep(2500)));
    match w.round(false, false, None) {
        WaitVerdict::GiveUp(m) => assert_eq!(m, "1 秒内未就绪"),
        _ => panic!("expected to give up"),
    }
}

#[test]
fn decoding_gbk_and_utf8() {
    let gbk = [0xD6u8, 0xD0, 0xB9, 0xFA, 0xB5, 0xE7, 0xD0, 0xC5];
    assert_eq!(decode(&gbk, Some("application/json;charset=GBK")), "中国电信");
    assert_eq!(decode(&gbk, None), "中国电信");
    assert_eq!(decode("中国".as_bytes(), Some("application/json")), "中国");
    assert_ne!(decode("中国".as_bytes(), Some("text/plain; charset=gb2312")), "中国");
    assert_eq!(decode_console(b"SSID : x"), "SSID : x");
    assert_eq!(decode_console(&gbk), "中国电信");
}

#[test]
fn sealing_pads_short_groups() {
    assert_eq!(seal(&[255]), "dpapi:/w==");
    assert_eq!(seal(&[251, 255]), "dpapi:+/8=");
    assert_eq!(seal(&[77, 97, 110, 77]), "dpapi:TWFuTQ==");
    assert_eq!(seal(&[]), "dpapi:");
    for bytes in [vec![0u8], vec![0, 1], vec![9, 8, 7, 6, 5]] {
        match open_stored(&seal(&bytes)) {
            Stored::Sealed(b) => assert_eq!(b, bytes),
            _ => panic!("expected sealed bytes"),
        }
    }
}

#[test]
fn sealing_round_trip() {
    let s = seal(&[1, 2, 3]);
    assert_eq!(s, "dpapi:AQID");
    assert!(is_encrypted(&s));
    assert!(!is_encrypted("plain"));
    match open_stored(&s) {
        Stored::Sealed(b) => assert_eq!(b, vec![1, 2, 3]),
        _ => panic!("expected sealed bytes"),
    }
    assert!(matches!(open_stored(""), Stored::Empty));
    match open_stored("old-plain") {
        Stored::Plain(p) => assert_eq!(p, "old-plain"),
        _ => panic!("expected plain text"),
    }
    assert!(matches!(open_stored("dpapi:!!!"), Stored::Unreadable));
    assert_eq!(to_seal(""), None);
    assert_eq!(to_seal("密"), Some("密".as_bytes().to_vec()));
    assert_eq!(unsealed_text(Some("pw".as_bytes().to_vec())), "pw");
    assert_eq!(unsealed_text(Some(vec![0xff])), "");
    assert_eq!(unsealed_text(None), "");
}

#[test]
fn log_levels_and_history_bound() {
    assert_eq!(level_of("[ok] x"), "ok");
    assert_eq!(level_of("[!!] x"), "error");
    assert_eq!(level_of("[??] x"), "warn");
    assert_eq!(level_of("[..] x"), "info");
    assert_eq!(level_of("plain"), "info");
    let e = make_event("[??] 托盘图标创建失败", 42);
    assert_eq!((e.ts, e.level.as_str()), (42, "warn"));
    let mut bus = LogBus::new();
    for i in 0..(MAX_HISTORY + 20) {
        bus.push(&format!("line {i}"), i as u64);
    }
    let h = bus.history();
    assert_eq!(h.len(), MAX_HISTORY);
    assert_eq!(bus.len(), MAX_HISTORY);
    assert_eq!(h[0].msg, "line 20");
    assert_eq!(h[MAX_HISTORY - 1].msg, format!("line {}", MAX_HISTORY + 19));
    bus.clear();
    assert!(bus.history().is_empty());
}

#[test]
fn guard_rounds() {
    let mut st = WatcherState::default();
    let (logs, a) = run_once(&mut st, RoundEvent::Checked { ok: true, why: "x".to_string(), now_ms: 7 });
    assert!(logs.is_empty());
    assert!(matches!(a, RoundAction::Done { release: false }));
    assert_eq!((st.checks, st.last_check_ms, st.last_result.as_deref()), (1, Some(7), Some("ok")));
    let (logs, a) = run_once(&mut st, RoundEvent::Checked { ok: false, why: "down".to_string(), now_ms: 9 });
    assert_eq!(logs, vec!["[..] 检测到掉线（down），开始重连…".to_string()]);
    assert!(matches!(a, RoundAction::TryLock));
    let (logs, a) = run_once(&mut st, RoundEvent::Locked(false));
    assert_eq!(logs, vec!["[..] 已有认证操作在执行，本次跳过".to_string()]);
    assert!(matches!(a, RoundAction::Done { release: false }));
    let (_, a) = run_once(&mut st, RoundEvent::Locked(true));
    assert!(matches!(a, RoundAction::RunFix));
    let (logs, a) = run_once(&mut st, RoundEvent::Fixed(true));
    assert_eq!(logs, vec!["[ok] 自动重连成功".to_string()]);
    assert!(matches!(a, RoundAction::Done { release: true }));
    assert_eq!(st.fixes, 1);
    run_once(&mut st, RoundEvent::Fixed(false));
    assert_eq!(st.fixes, 1);
    assert_eq!(st.last_result.as_deref(), Some("down"));
    assert_eq!(start_message("poll", 30), "[..] 自动重连已启动（定时轮询，每 30 秒）");
    assert_eq!(start_message("event", 30), "[..] 自动重连已启动（网络变化时检查）");
    st.begin("poll", 2);
    assert!(st.running);
    assert_eq!(st.interval, 5);
}

#[test]
fn startup_check_steps() {
    let mut c = Config::default();
    c.profile = " iFudan.stu ".to_string();
    let (logs, a) = check(&c, StartupEvent::Begin);
    assert_eq!(logs, vec!["[..] 启动检查：等待 iFudan.stu（最多 60 秒）…".to_string()]);
    assert!(matches!(a, StartupAction::WaitCampus));
    let (logs, a) = check(&c, StartupEvent::Waited(false));
    assert_eq!(logs, vec!["[..] 60 秒内没等到 iFudan.stu，本次启动检查放弃".to_string()]);
    assert!(matches!(a, StartupAction::Done { release: false }));
    let (logs, a) = check(&c, StartupEvent::Waited(true));
    assert_eq!(logs, vec!["[ok] 已连上 iFudan.stu，交给重连流程判断".to_string()]);
    assert!(matches!(a, StartupAction::TryLock));
    let (_, a) = check(&c, StartupEvent::Locked(true));
    assert!(matches!(a, StartupAction::RunFix));
    let (logs, _) = check(&c, StartupEvent::Locked(false));
    assert_eq!(logs, vec!["[..] 已有认证操作在执行，启动检查让位".to_string()]);
    let (logs, a) = check(&c, StartupEvent::Fixed(false));
    assert_eq!(logs, vec!["[!!] 启动检查未能连上，交给后台守护或下次网络变化".to_string()]);
    assert!(matches!(a, StartupAction::Done { release: true }));
}

#[test]
fn autostart_value_and_fallbacks() {
    assert_eq!(run_value("C:\\Program Files\\CampusFlow.exe"), "\"C:\\Program Files\\CampusFlow.exe\" --tray");
    assert!(!is_enabled());
    assert_eq!(set_enabled(true), Err("暂只支持 Windows".to_string()));
}
