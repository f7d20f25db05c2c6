//! Telling a working network from one that the portal hijacks, reading the
//! WLAN name from `netsh` output, and waiting for the campus network.
//!
//! Before login the gateway answers plain HTTP with a redirect to the
//! portal, often with status 200 after the redirect. So a probe follows no
//! redirect, looks at where a redirect points, and checks the body.

use vstd::prelude::*;
use vstd::string::*;
use crate::text::{
    chars_of, string_of, string_of_range, owned, cat, cat3, cat4, find, find_spec, find_from,
    lemma_find_found, occurs_at, rfind_char, rfind_before, trim, trim_spec, starts_with,
    starts_with_spec, contains, contains_spec, ascii_lower, ascii_lower_spec, str_eq, truncate,
    truncate_spec, decimal, decimal_spec, join, join_spec,
};

verus! {

/// Seconds before a probe gives up.
pub const PROBE_TIMEOUT_SECS: u64 = 5;
/// At most this many bytes of a probe's body are read.
pub const PROBE_BODY_BYTES: u64 = 8192;

pub struct Probe {
    pub url: &'static str,
    /// The status code that a working network gives.
    pub want: u16,
    /// Text the body must hold (in any ASCII case).
    pub needle: Option<&'static str>,
    /// A redirect to this domain or one of its subdomains is no hijack
    /// (an upgrade from HTTP to HTTPS).
    pub ok_redirect: Option<&'static str>,
}

/// The probes, tried in order.
///
/// `http://www.baidu.com` with `www`: without it Baidu redirects to https,
/// and with a browser's User-Agent it redirects to `https://www.baidu.com/`.
/// Both redirects stay within `baidu.com` and count as a working network;
/// a redirect elsewhere (the portal `10.102.250.36`) is a hijack.
pub fn probes() -> (v: Vec<Probe>)
    ensures
        v@.len() == 1,
        v@[0].url@ == "http://www.baidu.com"@,
        v@[0].want == 200,
        v@[0].needle matches Some(n) && n@ == "baidu"@,
        v@[0].ok_redirect matches Some(r) && r@ == "baidu.com"@,
{
    let mut v = Vec::new();
    v.push(
        Probe {
            url: "http://www.baidu.com",
            want: 200,
            needle: Some("baidu"),
            ok_redirect: Some("baidu.com"),
        },
    );
    v
}

// ------------------------------------------------------------------ //
// Hosts
// ------------------------------------------------------------------ //

pub open spec fn scheme_sep() -> Seq<char> {
    seq![':', '/', '/']
}

/// `url.split("://").nth(1).unwrap_or(url)`: what follows the first "://"
/// up to the next one; all of `url` where it has none.
pub open spec fn after_scheme(u: Seq<char>) -> Seq<char> {
    match find_spec(u, scheme_sep()) {
        None => u,
        Some(i) => {
            let rest = u.skip(i + 3);
            match find_spec(rest, scheme_sep()) {
                None => rest,
                Some(j) => rest.take(j),
            }
        },
    }
}

/// `.split('/').next()`: up to the first '/'.
pub open spec fn before_slash(a: Seq<char>) -> Seq<char> {
    match find_spec(a, seq!['/']) {
        None => a,
        Some(k) => a.take(k),
    }
}

/// The host (and port) of a URL.
pub open spec fn host_of_spec(u: Seq<char>) -> Seq<char> {
    before_slash(after_scheme(u))
}

fn take_prefix(v: &Vec<char>, n: usize) -> (r: Vec<char>)
    requires
        n <= v.len(),
    ensures
        r@ == v@.take(n as int),
{
    let mut r = Vec::new();
    let mut i: usize = 0;
    while i < n
        invariant
            i <= n <= v.len(),
            r@ == v@.take(i as int),
        decreases n - i,
    {
        r.push(v[i]);
        i = i + 1;
        assert(r@ =~= v@.take(i as int));
    }
    r
}

fn drop_prefix(v: &Vec<char>, n: usize) -> (r: Vec<char>)
    requires
        n <= v.len(),
    ensures
        r@ == v@.skip(n as int),
{
    let mut r = Vec::new();
    let mut i: usize = n;
    while i < v.len()
        invariant
            n <= i <= v.len(),
            r@ == v@.subrange(n as int, i as int),
        decreases v.len() - i,
    {
        r.push(v[i]);
        i = i + 1;
        assert(r@ =~= v@.subrange(n as int, i as int));
    }
    assert(v@.subrange(n as int, v@.len() as int) =~= v@.skip(n as int));
    r
}

fn sep_vec() -> (v: Vec<char>)
    ensures
        v@ == scheme_sep(),
{
    let mut v = Vec::new();
    v.push(':');
    v.push('/');
    v.push('/');
    assert(v@ =~= scheme_sep());
    v
}

fn host_chars(u: &Vec<char>) -> (r: Vec<char>)
    ensures
        r@ == host_of_spec(u@),
{
    let sep = sep_vec();
    let a = match find(u, &sep) {
        None => u.clone(),
        Some(i) => {
            proof {
                lemma_find_found(u@, scheme_sep(), 0);
                assert(occurs_at(u@, scheme_sep(), i as int));
                assert(scheme_sep().len() == 3);
                assert(i + 3 <= u@.len());
                assert(u@.len() == u.len());
            }
            let rest = drop_prefix(u, i + 3);
            match find(&rest, &sep) {
                None => rest,
                Some(j) => {
                    proof {
                        lemma_find_found(rest@, scheme_sep(), 0);
                        assert(occurs_at(rest@, scheme_sep(), j as int));
                    }
                    take_prefix(&rest, j)
                },
            }
        },
    };
    assert(a@ == after_scheme(u@));
    let mut slash = Vec::new();
    slash.push('/');
    assert(slash@ =~= seq!['/']);
    match find(&a, &slash) {
        None => a,
        Some(k) => {
            proof {
                lemma_find_found(a@, seq!['/'], 0);
                assert(occurs_at(a@, seq!['/'], k as int));
            }
            take_prefix(&a, k)
        },
    }
}

/// The host of a URL: what follows "://", up to the first '/'.
pub fn host_of(url: &str) -> (r: String)
    ensures
        r@ == host_of_spec(url@),
{
    let u = chars_of(url);
    let h = host_chars(&u);
    string_of(&h)
}

pub open spec fn ends_with_spec(s: Seq<char>, p: Seq<char>) -> bool {
    p.len() <= s.len() && s.skip(s.len() - p.len()) == p
}

fn ends_with(s: &str, p: &str) -> (b: bool)
    ensures
        b == ends_with_spec(s@, p@),
{
    let sv = chars_of(s);
    let pv = chars_of(p);
    if pv.len() > sv.len() {
        return false;
    }
    let tail = drop_prefix(&sv, sv.len() - pv.len());
    let ts = string_of(&tail);
    str_eq(ts.as_str(), p)
}

/// Whether a redirect stays with the probed site: its target host is
/// `ok_redirect` or a subdomain of it. A relative redirect stays on the
/// probed host.
pub open spec fn benign_redirect_spec(
    ok_redirect: Option<Seq<char>>,
    location: Option<Seq<char>>,
    probe_host: Seq<char>,
) -> bool {
    match ok_redirect {
        None => false,
        Some(suffix) => match location {
            None => false,
            Some(loc) => {
                let target = if contains_spec(loc, scheme_sep()) {
                    host_of_spec(loc)
                } else {
                    probe_host
                };
                target == suffix || ends_with_spec(target, seq!['.'] + suffix)
            },
        },
    }
}

pub open spec fn opt_str(o: Option<&'static str>) -> Option<Seq<char>> {
    match o {
        Some(s) => Some(s@),
        None => None,
    }
}

pub open spec fn opt_string(o: Option<String>) -> Option<Seq<char>> {
    match o {
        Some(s) => Some(s@),
        None => None,
    }
}

pub fn is_benign_redirect(probe: &Probe, location: Option<&str>, probe_host: &str) -> (b: bool)
    ensures
        b == benign_redirect_spec(
            opt_str(probe.ok_redirect),
            match location {
                Some(l) => Some(l@),
                None => None,
            },
            probe_host@,
        ),
{
    let suffix = match probe.ok_redirect {
        None => return false,
        Some(s) => s,
    };
    let loc = match location {
        None => return false,
        Some(l) => l,
    };
    proof {
        reveal_strlit("://");
        assert("://"@ =~= scheme_sep());
    }
    let target = if contains(loc, "://") {
        host_of(loc)
    } else {
        owned(probe_host)
    };
    let dotted = cat(".", suffix);
    proof {
        reveal_strlit(".");
        assert(dotted@ =~= seq!['.'] + suffix@);
        assert(target@ == (if contains_spec(loc@, scheme_sep()) {
            host_of_spec(loc@)
        } else {
            probe_host@
        }));
    }
    str_eq(target.as_str(), suffix) || ends_with(target.as_str(), dotted.as_str())
}

// ------------------------------------------------------------------ //
// Probing
// ------------------------------------------------------------------ //

/// What came of requesting a probe's URL, redirects not followed.
pub enum ProbeOutcome {
    /// No reply: the error's text.
    Failed(String),
    /// The status, the `Location` header, and (up to 8 KiB of) the body.
    Response { status: u16, location: Option<String>, body: String },
}

/// Whether a reply shows a working network, or why it does not.
pub open spec fn verdict_spec(probe: Probe, host: Seq<char>, o: ProbeOutcome) -> Result<(), Seq<char>> {
    match o {
        ProbeOutcome::Failed(e) => Err(host + ": "@ + truncate_spec(e@, 60)),
        ProbeOutcome::Response { status, location, body } => if 300 <= status < 400 {
            if benign_redirect_spec(opt_str(probe.ok_redirect), opt_string(location), host) {
                Ok(())
            } else {
                let loc = match location {
                    Some(l) => l@,
                    None => "(无 Location)"@,
                };
                Err(host + ": HTTP "@ + decimal_spec(status as nat) + " → "@ + loc + "（疑似门户劫持）"@)
            }
        } else if status != probe.want {
            Err(host + ": HTTP "@ + decimal_spec(status as nat) + "（疑似门户劫持）"@)
        } else {
            match probe.needle {
                Some(n) => if contains_spec(ascii_lower_spec(body@), ascii_lower_spec(n@)) {
                    Ok(())
                } else {
                    Err(host + ": 内容异常（疑似门户劫持）"@)
                },
                None => Ok(()),
            }
        },
    }
}

pub fn verdict(probe: &Probe, host: &str, o: ProbeOutcome) -> (r: Result<(), String>)
    ensures
        match r {
            Ok(()) => verdict_spec(*probe, host@, o) is Ok,
            Err(m) => verdict_spec(*probe, host@, o) == Err::<(), Seq<char>>(m@),
        },
{
    match o {
        ProbeOutcome::Failed(e) => {
            let t = truncate(e.as_str(), 60);
            Err(cat3(host, ": ", t.as_str()))
        },
        ProbeOutcome::Response { status, location, body } => {
            if 300 <= status && status < 400 {
                let loc_ref: Option<&str> = match &location {
                    Some(l) => Some(l.as_str()),
                    None => None,
                };
                if is_benign_redirect(probe, loc_ref, host) {
                    return Ok(());
                }
                let loc = match location {
                    Some(l) => l,
                    None => owned("(无 Location)"),
                };
                let code = decimal(status as u64);
                let mut m = cat3(host, ": HTTP ", code.as_str());
                m.append(" → ");
                m.append(loc.as_str());
                m.append("（疑似门户劫持）");
                return Err(m);
            }
            if status != probe.want {
                let code = decimal(status as u64);
                return Err(cat4(host, ": HTTP ", code.as_str(), "（疑似门户劫持）"));
            }
            match probe.needle {
                Some(n) => {
                    let lb = ascii_lower(body.as_str());
                    let ln = ascii_lower(n);
                    if contains(lb.as_str(), ln.as_str()) {
                        Ok(())
                    } else {
                        Err(cat(host, ": 内容异常（疑似门户劫持）"))
                    }
                },
                None => Ok(()),
            }
        },
    }
}

/// The report when every probe failed: how many, and why each.
pub open spec fn all_failed_spec(fails: Seq<Seq<char>>, total: nat) -> Seq<char> {
    decimal_spec(fails.len()) + "/"@ + decimal_spec(total) + " 探测点失败（"@ + join_spec(fails, "；"@)
        + "）"@
}

/// A check of the outside network: the probes in turn until one shows a
/// working network; only when all fail is the network down.
pub struct InternetCheck {
    pub probes: Vec<Probe>,
    pub next: usize,
    pub fails: Vec<String>,
}

pub struct CheckModel {
    pub probes: Seq<Probe>,
    pub next: int,
    pub fails: Seq<Seq<char>>,
}

impl View for InternetCheck {
    type V = CheckModel;

    open spec fn view(&self) -> CheckModel {
        CheckModel {
            probes: self.probes@,
            next: self.next as int,
            fails: self.fails@.map_values(|s: String| s@),
        }
    }
}

/// The result of a probe's outcome: `Some((true, host))` when it shows a
/// working network; `Some((false, report))` when it was the last probe and
/// all failed; `None` when the next probe is to be tried.
pub open spec fn check_step(c: CheckModel, o: ProbeOutcome) -> (CheckModel, Option<(bool, Seq<char>)>) {
    let probe = c.probes[c.next];
    let host = host_of_spec(probe.url@);
    match verdict_spec(probe, host, o) {
        Ok(()) => (c, Some((true, host))),
        Err(f) => {
            let c2 = CheckModel { next: c.next + 1, fails: c.fails.push(f), ..c };
            if c2.next == c.probes.len() {
                (c2, Some((false, all_failed_spec(c2.fails, c.probes.len()))))
            } else {
                (c2, None)
            }
        },
    }
}

impl InternetCheck {
    pub fn new() -> (c: InternetCheck)
        ensures
            c@.next == 0,
            c@.fails == Seq::<Seq<char>>::empty(),
            c@.probes.len() == 1,
            c.probes@[0].url@ == "http://www.baidu.com"@,
    {
        let c = InternetCheck { probes: probes(), next: 0, fails: Vec::new() };
        assert(c@.fails =~= Seq::<Seq<char>>::empty());
        c
    }

    /// Whether a probe is left to try.
    pub fn pending(&self) -> (b: bool)
        ensures
            b == (self@.next < self@.probes.len()),
    {
        self.next < self.probes.len()
    }

    /// The URL of the probe to try now.
    pub fn current_url(&self) -> (u: &'static str)
        requires
            self@.next < self@.probes.len(),
        ensures
            u == self@.probes[self@.next].url,
    {
        self.probes[self.next].url
    }

    /// Takes the outcome of the current probe.
    pub fn on_outcome(&mut self, o: ProbeOutcome) -> (r: Option<(bool, String)>)
        requires
            old(self)@.next < old(self)@.probes.len(),
        ensures
            final(self)@ == check_step(old(self)@, o).0,
            match r {
                Some((ok, m)) => check_step(old(self)@, o).1 == Some((ok, m@)),
                None => check_step(old(self)@, o).1 is None,
            },
    {
        assert(self.next < self.probes.len());
        let url = self.probes[self.next].url;
        let host = host_of(url);
        match verdict(&self.probes[self.next], host.as_str(), o) {
            Ok(()) => Some((true, host)),
            Err(f) => {
                let ghost f0 = self@.fails;
                self.fails.push(f);
                self.next = self.next + 1;
                assert(self@.fails =~= f0.push(f@));
                if self.next == self.probes.len() {
                    let n = decimal(self.fails.len() as u64);
                    let t = decimal(self.probes.len() as u64);
                    let j = join(&self.fails, "；");
                    let mut m = cat3(n.as_str(), "/", t.as_str());
                    m.append(" 探测点失败（");
                    m.append(j.as_str());
                    m.append("）");
                    Some((false, m))
                } else {
                    None
                }
            },
        }
    }
}

// ------------------------------------------------------------------ //
// The WLAN name in `netsh wlan show interfaces`
// ------------------------------------------------------------------ //

/// The SSID that one line of `netsh` output gives: a trimmed line that
/// starts with "SSID" (not "BSSID") and has a ':', whose text after the
/// first ':' is, trimmed, not empty.
pub open spec fn ssid_in_line(line: Seq<char>) -> Option<Seq<char>> {
    let l = trim_spec(line);
    if starts_with_spec(l, "SSID"@) && !starts_with_spec(l, "BSSID"@) {
        match find_spec(l, seq![':']) {
            Some(k) => {
                let v = trim_spec(l.skip(k + 1));
                if v.len() > 0 {
                    Some(v)
                } else {
                    None
                }
            },
            None => None,
        }
    } else {
        None
    }
}

/// The SSID of the first line of `text` that gives one; lines end at '\n'.
pub open spec fn ssid_in_text(text: Seq<char>) -> Option<Seq<char>>
    decreases text.len(),
{
    match find_spec(text, seq!['\n']) {
        None => ssid_in_line(text),
        Some(i) => {
            proof {
                lemma_find_found(text, seq!['\n'], 0);
            }
            match ssid_in_line(text.take(i)) {
                Some(v) => Some(v),
                None => if i + 1 <= text.len() {
                    ssid_in_text(text.skip(i + 1))
                } else {
                    None
                },
            }
        },
    }
}

fn ssid_of_line(line: &Vec<char>) -> (r: Option<String>)
    ensures
        opt_string(r) == ssid_in_line(line@),
{
    let ls = string_of(line);
    let l = trim(ls.as_str());
    if starts_with(l, "SSID") && !starts_with(l, "BSSID") {
        let lv = chars_of(l);
        let mut colon = Vec::new();
        colon.push(':');
        assert(colon@ =~= seq![':']);
        match find(&lv, &colon) {
            Some(k) => {
                proof {
                    lemma_find_found(lv@, seq![':'], 0);
                    assert(occurs_at(lv@, seq![':'], k as int));
                    assert(k + 1 <= lv@.len());
                    assert(lv@.len() == lv.len());
                }
                let rest = drop_prefix(&lv, k + 1);
                let rs = string_of(&rest);
                let v = trim(rs.as_str());
                if v.unicode_len() != 0 {
                    Some(owned(v))
                } else {
                    None
                }
            },
            None => None,
        }
    } else {
        None
    }
}

/// The name of the WLAN that `netsh wlan show interfaces` reports.
pub fn ssid_from_netsh(text: &str) -> (r: Option<String>)
    ensures
        opt_string(r) == ssid_in_text(text@),
{
    let mut rest = chars_of(text);
    let mut nl = Vec::new();
    nl.push('\n');
    assert(nl@ =~= seq!['\n']);
    loop
        invariant
            nl@ == seq!['\n'],
            ssid_in_text(text@) == ssid_in_text(rest@),
        decreases rest@.len(),
    {
        match find(&rest, &nl) {
            None => {
                return ssid_of_line(&rest);
            },
            Some(i) => {
                proof {
                    lemma_find_found(rest@, seq!['\n'], 0);
                    assert(occurs_at(rest@, seq!['\n'], i as int));
                }
                let line = take_prefix(&rest, i);
                match ssid_of_line(&line) {
                    Some(v) => {
                        return Some(v);
                    },
                    None => {
                        rest = drop_prefix(&rest, i + 1);
                    },
                }
            },
        }
    }
}

// ------------------------------------------------------------------ //
// The portal's host and port
// ------------------------------------------------------------------ //

pub open spec fn is_digit(c: char) -> bool {
    '0' <= c <= '9'
}

/// The value of a string of decimal digits.
pub open spec fn digits_value(d: Seq<char>) -> nat
    decreases d.len(),
{
    if d.len() == 0 {
        0
    } else {
        digits_value(d.drop_last()) * 10 + ((d.last() as nat) - 48) as nat
    }
}

/// `s` without one leading '+'.
pub open spec fn sign_stripped(s: Seq<char>) -> Seq<char> {
    if s.len() > 0 && s[0] == '+' {
        s.drop_first()
    } else {
        s
    }
}

pub open spec fn all_digits(d: Seq<char>) -> bool {
    forall|i: int| 0 <= i < d.len() ==> is_digit(#[trigger] d[i])
}

/// `str::parse::<u16>`: an optional '+', then one or more decimal digits,
/// of value at most 65535.
pub open spec fn parse_u16_spec(s: Seq<char>) -> Option<u16> {
    let d = sign_stripped(s);
    if d.len() == 0 || !all_digits(d) {
        None
    } else if digits_value(d) > 65535 {
        None
    } else {
        Some(digits_value(d) as u16)
    }
}

pub fn parse_u16(s: &Vec<char>) -> (r: Option<u16>)
    ensures
        r == parse_u16_spec(s@),
{
    let d = if s.len() > 0 && s[0] == '+' {
        drop_prefix(s, 1)
    } else {
        s.clone()
    };
    assert(s@.len() > 0 && s@[0] == '+' ==> d@ =~= s@.drop_first());
    assert(!(s@.len() > 0 && s@[0] == '+') ==> d@ =~= s@);
    if d.len() == 0 {
        return None;
    }
    let mut acc: u32 = 0;
    let mut i: usize = 0;
    while i < d.len()
        invariant
            d@ == sign_stripped(s@),
            d@.len() > 0,
            i <= d.len(),
            acc <= 65536,
            acc == if digits_value(d@.take(i as int)) > 65536 {
                65536
            } else {
                digits_value(d@.take(i as int))
            },
            forall|j: int| 0 <= j < i ==> is_digit(d@[j]),
        decreases d.len() - i,
    {
        let c = d[i];
        if !('0' <= c && c <= '9') {
            assert(!is_digit(d@[i as int]));
            return None;
        }
        let v = (c as u32) - 48;
        assert(d@.take(i + 1).drop_last() =~= d@.take(i as int));
        assert(d@.take(i + 1).last() == c);
        let next = acc * 10 + v;
        acc = if next > 65536 {
            65536
        } else {
            next
        };
        i = i + 1;
    }
    assert(d@.take(d.len() as int) =~= d@);
    if acc > 65535 {
        None
    } else {
        Some(acc as u16)
    }
}

/// The host and port of the portal's address: the host as a URL has it,
/// split at its last ':' (port 80 where there is none); `None` where the
/// port is no number that fits.
pub open spec fn host_port_spec(portal: Seq<char>) -> Option<(Seq<char>, u16)> {
    let rest = host_of_spec(portal);
    match rfind_before(rest, ':', rest.len() as int) {
        Some(k) => match parse_u16_spec(rest.skip(k + 1)) {
            Some(p) => Some((rest.take(k), p)),
            None => None,
        },
        None => Some((rest, 80u16)),
    }
}

proof fn lemma_rfind_bounds(s: Seq<char>, c: char, i: int)
    requires
        0 <= i <= s.len(),
        rfind_before(s, c, i) is Some,
    ensures
        0 <= rfind_before(s, c, i)->0 < i,
    decreases i,
{
    if s[i - 1] != c {
        lemma_rfind_bounds(s, c, i - 1);
    }
}

pub fn host_port(portal: &str) -> (r: Option<(String, u16)>)
    ensures
        match r {
            Some((h, p)) => host_port_spec(portal@) == Some((h@, p)),
            None => host_port_spec(portal@) is None,
        },
{
    let u = chars_of(portal);
    let rest = host_chars(&u);
    match rfind_char(&rest, ':') {
        Some(k) => {
            proof {
                lemma_rfind_bounds(rest@, ':', rest@.len() as int);
            }
            let port = drop_prefix(&rest, k + 1);
            match parse_u16(&port) {
                Some(p) => {
                    let h = string_of_range(&rest, 0, k);
                    assert(rest@.subrange(0, k as int) =~= rest@.take(k as int));
                    Some((h, p))
                },
                None => None,
            }
        },
        None => Some((string_of(&rest), 80)),
    }
}

// ------------------------------------------------------------------ //
// Waiting for the campus network
// ------------------------------------------------------------------ //

/// Waiting until the campus network is there, wired or wireless: the
/// portal answers, or the address used to reach it is a campus address.
pub struct CampusWait {
    pub waited_ms: u64,
    pub timeout_ms: u64,
    pub step_ms: u64,
}

/// What one round of waiting decides.
pub enum WaitVerdict {
    /// Ready, and why.
    Ready(String),
    /// Stop waiting, not ready, and why.
    GiveUp(String),
    /// Look again after this many milliseconds.
    Sleep(u64),
}

pub enum VerdictModel {
    Ready(Seq<char>),
    GiveUp(Seq<char>),
    Sleep(u64),
}

impl View for WaitVerdict {
    type V = VerdictModel;

    open spec fn view(&self) -> VerdictModel {
        match self {
            WaitVerdict::Ready(m) => VerdictModel::Ready(m@),
            WaitVerdict::GiveUp(m) => VerdictModel::GiveUp(m@),
            WaitVerdict::Sleep(ms) => VerdictModel::Sleep(*ms),
        }
    }
}

/// One round: cancelled; else the portal answers; else the local address
/// toward the portal is a campus address; else, with the time used up,
/// give up; else wait one step more.
pub open spec fn wait_round_spec(
    w: CampusWait,
    stopped: bool,
    portal_reachable: bool,
    local_ip: Option<Seq<char>>,
) -> (u64, VerdictModel) {
    if stopped {
        (w.waited_ms, VerdictModel::GiveUp("已取消"@))
    } else if portal_reachable {
        (w.waited_ms, VerdictModel::Ready("认证门户可达"@))
    } else if local_ip matches Some(ip) && starts_with_spec(ip, crate::config::CAMPUS_IP_PREFIX@) {
        (w.waited_ms, VerdictModel::Ready("已拿到校园网地址 "@ + local_ip->0))
    } else if w.waited_ms >= w.timeout_ms {
        (
            w.waited_ms,
            VerdictModel::GiveUp(decimal_spec((w.timeout_ms / 1000) as nat) + " 秒内未就绪"@),
        )
    } else {
        ((w.waited_ms + w.step_ms) as u64, VerdictModel::Sleep(w.step_ms))
    }
}

impl CampusWait {
    pub open spec fn wf(self) -> bool {
        self.waited_ms <= self.timeout_ms + self.step_ms && self.timeout_ms + self.step_ms <= u64::MAX
    }

    /// Waits up to `timeout_ms`, looking every `crate::config::STARTUP_POLL_MS`.
    pub fn new(timeout_ms: u64) -> (w: CampusWait)
        requires
            timeout_ms + crate::config::STARTUP_POLL_MS <= u64::MAX,
        ensures
            w.wf(),
            w.waited_ms == 0,
            w.timeout_ms == timeout_ms,
            w.step_ms == crate::config::STARTUP_POLL_MS,
    {
        CampusWait { waited_ms: 0, timeout_ms, step_ms: crate::config::STARTUP_POLL_MS }
    }

    pub fn round(&mut self, stopped: bool, portal_reachable: bool, local_ip: Option<String>) -> (v:
        WaitVerdict)
        requires
            old(self).wf(),
        ensures
            (final(self).waited_ms, v@) == wait_round_spec(
                *old(self),
                stopped,
                portal_reachable,
                opt_string(local_ip),
            ),
            final(self).timeout_ms == old(self).timeout_ms,
            final(self).step_ms == old(self).step_ms,
            final(self).wf(),
    {
        if stopped {
            return WaitVerdict::GiveUp(owned("已取消"));
        }
        if portal_reachable {
            return WaitVerdict::Ready(owned("认证门户可达"));
        }
        if let Some(ip) = &local_ip {
            if starts_with(ip.as_str(), crate::config::CAMPUS_IP_PREFIX) {
                return WaitVerdict::Ready(cat("已拿到校园网地址 ", ip.as_str()));
            }
        }
        if self.waited_ms >= self.timeout_ms {
            let n = decimal(self.timeout_ms / 1000);
            return WaitVerdict::GiveUp(cat(n.as_str(), " 秒内未就绪"));
        }
        self.waited_ms = self.waited_ms + self.step_ms;
        WaitVerdict::Sleep(self.step_ms)
    }
}

/// Waiting stops: each round that does not stop adds one step to the time
/// waited, and a round that finds the time used up gives up; so no more
/// than `timeout_ms / step_ms + 2` rounds are played.
pub proof fn lemma_wait_bounded(w: CampusWait, stopped: bool, reachable: bool, ip: Option<Seq<char>>)
    requires
        w.wf(),
        w.step_ms > 0,
    ensures
        wait_round_spec(w, stopped, reachable, ip).1 is Sleep ==> wait_round_spec(
            w,
            stopped,
            reachable,
            ip,
        ).0 == w.waited_ms + w.step_ms && w.waited_ms < w.timeout_ms,
{
}

/// The WLAN name where there is no `netsh` to ask: none.
pub fn wifi_ssid() -> (r: Option<String>)
    ensures
        r is None,
{
    None
}

} // verus!
