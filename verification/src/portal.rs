//! The authentication portal's protocol: the requests that the client sends
//! and what it makes of the replies.
//!
//! ```text
//! GET  /api/v1/ip         -> {"code":200,"data":"10.115.17.191"}
//! POST /api/v1/pre_login  {"getuseronlinestate":"on_or_off","user_ipadress":ip}
//! POST /api/v1/login      login and logout share it; pagesign tells them apart
//!     firstauth   channel="_GET"  -> checks the account; an account with
//!                                    several carriers gets `channels` back
//!     secondauth  channel="1"     -> logs in through the chosen carrier
//!     thirdauth   channel="0"     -> switches the network off
//!     thirddauth  channel="0"     -> the "log out" button
//! ```
//!
//! The portal matches request bodies by plain substring search, so a body
//! must be compact JSON: `"key":"value"` with no space after the colon.
//! Replies are GBK text; `crate::codec` decodes them.

use vstd::prelude::*;
use vstd::string::*;
use crate::text::{contains_spec, lemma_occurs_in_concat, owned, cat, cat3, cat4, truncate, truncate_spec, strip_end, strip_end_spec, trim, trim_spec, str_eq, join, join_spec};
use crate::json::{Json, Member, JsonNumber, json_quoted, json_text, quote, to_text, str_of, str_of_spec, get_spec, int_of, bool_of, member_or_null, json_parsed, parse_json};
use crate::config::{channel_target, channel_target_spec};

verus! {

pub const USER_AGENT: &'static str = "Mozilla/5.0 (Windows NT 10.0; Win64; x64) AppleWebKit/537.36 (KHTML, like Gecko) Chrome/120.0 Safari/537.36";
pub const CONTENT_TYPE: &'static str = "application/json;charset=gbk";
pub const ACCEPT: &'static str = "application/json, text/plain, */*";
/// Seconds before a portal request gives up.
pub const TIMEOUT_SECS: u64 = 8;
/// At most this many bytes of a reply are read.
pub const MAX_REPLY_BYTES: u64 = 1048576;

pub const IP_PATH: &'static str = "/api/v1/ip";
pub const PRE_LOGIN_PATH: &'static str = "/api/v1/pre_login";
pub const LOGIN_PATH: &'static str = "/api/v1/login";

// ------------------------------------------------------------------ //
// Types
// ------------------------------------------------------------------ //

/// What the portal says of the session of an address.
#[derive(Clone, Debug)]
pub struct PreLogin {
    pub state: String,
    pub username: String,
    pub balance: String,
    pub duration: String,
    pub outport: String,
    pub ip: String,
}

/// A carrier that the account can log in through.
#[derive(Clone, Debug)]
pub struct Channel {
    pub id: String,
    pub name: String,
}

#[derive(Clone, Debug)]
pub struct AuthSuccess {
    pub username: String,
    pub outport: String,
    pub balance: String,
    pub duration: String,
    pub reauth: bool,
}

pub enum LoginOutcome {
    Done(AuthSuccess),
    /// The account has several carriers and the configured one is not
    /// among them.
    NeedChannel(Vec<Channel>),
    Failed(String),
}

pub struct PreLoginModel {
    pub state: Seq<char>,
    pub username: Seq<char>,
    pub balance: Seq<char>,
    pub duration: Seq<char>,
    pub outport: Seq<char>,
    pub ip: Seq<char>,
}

pub struct ChannelModel {
    pub id: Seq<char>,
    pub name: Seq<char>,
}

pub struct AuthSuccessModel {
    pub username: Seq<char>,
    pub outport: Seq<char>,
    pub balance: Seq<char>,
    pub duration: Seq<char>,
    pub reauth: bool,
}

pub enum LoginOutcomeModel {
    Done(AuthSuccessModel),
    NeedChannel(Seq<ChannelModel>),
    Failed(Seq<char>),
}

impl View for PreLogin {
    type V = PreLoginModel;

    open spec fn view(&self) -> PreLoginModel {
        PreLoginModel {
            state: self.state@,
            username: self.username@,
            balance: self.balance@,
            duration: self.duration@,
            outport: self.outport@,
            ip: self.ip@,
        }
    }
}

impl View for Channel {
    type V = ChannelModel;

    open spec fn view(&self) -> ChannelModel {
        ChannelModel { id: self.id@, name: self.name@ }
    }
}

impl View for AuthSuccess {
    type V = AuthSuccessModel;

    open spec fn view(&self) -> AuthSuccessModel {
        AuthSuccessModel {
            username: self.username@,
            outport: self.outport@,
            balance: self.balance@,
            duration: self.duration@,
            reauth: self.reauth,
        }
    }
}

pub open spec fn channels_view(v: Seq<Channel>) -> Seq<ChannelModel> {
    v.map_values(|c: Channel| c@)
}

impl View for LoginOutcome {
    type V = LoginOutcomeModel;

    open spec fn view(&self) -> LoginOutcomeModel {
        match self {
            LoginOutcome::Done(s) => LoginOutcomeModel::Done(s@),
            LoginOutcome::NeedChannel(v) => LoginOutcomeModel::NeedChannel(channels_view(v@)),
            LoginOutcome::Failed(m) => LoginOutcomeModel::Failed(m@),
        }
    }
}

impl Channel {
    pub fn copy(&self) -> (r: Channel)
        ensures
            r@ == self@,
    {
        Channel { id: self.id.clone(), name: self.name.clone() }
    }
}

pub open spec fn result_view<T: View>(r: Result<T, String>) -> Result<T::V, Seq<char>> {
    match r {
        Ok(t) => Ok(t@),
        Err(e) => Err(e@),
    }
}

// ------------------------------------------------------------------ //
// Requests
// ------------------------------------------------------------------ //

pub enum Method {
    Get,
    Post,
}

/// A request to the portal. A `Post` carries `body` as compact JSON with the
/// header `Content-Type: application/json;charset=gbk`; a `Get` has no body.
pub struct HttpRequest {
    pub method: Method,
    pub path: String,
    pub url: String,
    pub body: String,
}

pub struct RequestModel {
    pub post: bool,
    pub path: Seq<char>,
    pub url: Seq<char>,
    pub body: Seq<char>,
}

impl View for HttpRequest {
    type V = RequestModel;

    open spec fn view(&self) -> RequestModel {
        RequestModel {
            post: self.method is Post,
            path: self.path@,
            url: self.url@,
            body: self.body@,
        }
    }
}

/// The portal's address as the client uses it: trimmed, without a
/// trailing slash.
pub open spec fn base_spec(s: Seq<char>) -> Seq<char> {
    strip_end_spec(trim_spec(s), '/')
}

/// `"key":value` for a string value.
pub open spec fn field_text(key: Seq<char>, value: Seq<char>) -> Seq<char> {
    json_quoted(key) + seq![':'] + json_quoted(value)
}

/// The body that asks for the session state of `ip`.
pub open spec fn pre_login_body_spec(ip: Seq<char>) -> Seq<char> {
    seq!['{'] + field_text("getuseronlinestate"@, "on_or_off"@) + seq![','] + field_text(
        "user_ipadress"@,
        ip,
    ) + seq!['}']
}

/// The body of a request to `/api/v1/login`, members in ascending key
/// order as `serde_json` writes a map.
pub open spec fn login_body_spec(
    ip: Seq<char>,
    user: Seq<char>,
    pass: Seq<char>,
    channel: Seq<char>,
    pagesign: Seq<char>,
    ifautologin: Seq<char>,
) -> Seq<char> {
    seq!['{'] + field_text("channel"@, channel) + seq![','] + field_text(
        "ifautologin"@,
        ifautologin,
    ) + seq![','] + field_text("pagesign"@, pagesign) + seq![','] + field_text(
        "password"@,
        pass,
    ) + seq![','] + field_text("username"@, user) + seq![','] + field_text("usripadd"@, ip)
        + seq!['}']
}

pub open spec fn post_spec(base: Seq<char>, path: Seq<char>, body: Seq<char>) -> RequestModel {
    RequestModel { post: true, path, url: base + path, body }
}

pub open spec fn ip_request_spec(base: Seq<char>) -> RequestModel {
    RequestModel { post: false, path: IP_PATH@, url: base + IP_PATH@, body: Seq::empty() }
}

pub open spec fn pre_login_request_spec(base: Seq<char>, ip: Seq<char>) -> RequestModel {
    post_spec(base, PRE_LOGIN_PATH@, pre_login_body_spec(ip))
}

pub open spec fn first_auth_request_spec(
    base: Seq<char>,
    ip: Seq<char>,
    user: Seq<char>,
    pass: Seq<char>,
) -> RequestModel {
    post_spec(base, LOGIN_PATH@, login_body_spec(ip, user, pass, "_GET"@, "firstauth"@, "0"@))
}

/// Channel "0" switches the network off, which goes by "thirdauth".
pub open spec fn second_pagesign(channel: Seq<char>) -> Seq<char> {
    if channel == "0"@ {
        "thirdauth"@
    } else {
        "secondauth"@
    }
}

pub open spec fn second_auth_request_spec(
    base: Seq<char>,
    ip: Seq<char>,
    user: Seq<char>,
    pass: Seq<char>,
    channel: Seq<char>,
) -> RequestModel {
    post_spec(
        base,
        LOGIN_PATH@,
        login_body_spec(ip, user, pass, channel, second_pagesign(channel), "0"@),
    )
}

/// Logging out sends a fixed password, which the portal does not check.
pub open spec fn logout_request_spec(base: Seq<char>, ip: Seq<char>, user: Seq<char>) -> RequestModel {
    post_spec(base, LOGIN_PATH@, login_body_spec(ip, user, "123"@, "0"@, "thirddauth"@, "1"@))
}

fn field(key: &str, value: &str) -> (r: String)
    ensures
        r@ == field_text(key@, value@),
{
    proof {
        reveal_strlit(":");
    }
    let k = quote(key);
    let v = quote(value);
    cat3(k.as_str(), ":", v.as_str())
}

/// The compact JSON body of a pre-login request.
pub fn pre_login_body(ip: &str) -> (r: String)
    ensures
        r@ == pre_login_body_spec(ip@),
{
    proof {
        reveal_strlit("{");
        reveal_strlit(",");
        reveal_strlit("}");
    }
    let a = field("getuseronlinestate", "on_or_off");
    let b = field("user_ipadress", ip);
    let mut r = owned("{");
    r.append(a.as_str());
    r.append(",");
    r.append(b.as_str());
    r.append("}");
    r
}

/// The compact JSON body of a request to `/api/v1/login`.
pub fn payload(ip: &str, user: &str, pass: &str, channel: &str, pagesign: &str, ifautologin: &str) -> (r: String)
    ensures
        r@ == login_body_spec(ip@, user@, pass@, channel@, pagesign@, ifautologin@),
{
    proof {
        reveal_strlit("{");
        reveal_strlit(",");
        reveal_strlit("}");
    }
    let mut r = owned("{");
    let f = field("channel", channel);
    r.append(f.as_str());
    r.append(",");
    let f = field("ifautologin", ifautologin);
    r.append(f.as_str());
    r.append(",");
    let f = field("pagesign", pagesign);
    r.append(f.as_str());
    r.append(",");
    let f = field("password", pass);
    r.append(f.as_str());
    r.append(",");
    let f = field("username", user);
    r.append(f.as_str());
    r.append(",");
    let f = field("usripadd", ip);
    r.append(f.as_str());
    r.append("}");
    r
}

/// The portal, known by its base address.
pub struct Portal {
    pub base: String,
}

impl Portal {
    pub fn new(base: &str) -> (p: Portal)
        ensures
            p.base@ == base_spec(base@),
    {
        Portal { base: strip_end(trim(base), '/') }
    }

    fn post(&self, path: &str, body: String) -> (r: HttpRequest)
        ensures
            r@ == post_spec(self.base@, path@, body@),
    {
        HttpRequest {
            method: Method::Post,
            path: owned(path),
            url: cat(self.base.as_str(), path),
            body,
        }
    }

    pub fn ip_request(&self) -> (r: HttpRequest)
        ensures
            r@ == ip_request_spec(self.base@),
    {
        HttpRequest {
            method: Method::Get,
            path: owned(IP_PATH),
            url: cat(self.base.as_str(), IP_PATH),
            body: String::new(),
        }
    }

    pub fn pre_login_request(&self, ip: &str) -> (r: HttpRequest)
        ensures
            r@ == pre_login_request_spec(self.base@, ip@),
    {
        self.post(PRE_LOGIN_PATH, pre_login_body(ip))
    }

    /// Step one: checks the account. An account with several carriers gets
    /// the list of them back, and is not logged in yet.
    pub fn first_auth_request(&self, ip: &str, user: &str, pass: &str) -> (r: HttpRequest)
        ensures
            r@ == first_auth_request_spec(self.base@, ip@, user@, pass@),
    {
        self.post(LOGIN_PATH, payload(ip, user, pass, "_GET", "firstauth", "0"))
    }

    /// Step two: logs in through the chosen carrier.
    pub fn second_auth_request(&self, ip: &str, user: &str, pass: &str, channel: &str) -> (r:
        HttpRequest)
        ensures
            r@ == second_auth_request_spec(self.base@, ip@, user@, pass@, channel@),
    {
        let pagesign = if str_eq(channel, "0") {
            "thirdauth"
        } else {
            "secondauth"
        };
        self.post(LOGIN_PATH, payload(ip, user, pass, channel, pagesign, "0"))
    }

    /// Ends the current session (the portal's "log out" button).
    pub fn logout_request(&self, ip: &str, user: &str) -> (r: HttpRequest)
        ensures
            r@ == logout_request_spec(self.base@, ip@, user@),
    {
        self.post(LOGIN_PATH, payload(ip, user, "123", "0", "thirddauth", "1"))
    }
}

// ------------------------------------------------------------------ //
// Replies
// ------------------------------------------------------------------ //

/// What came of sending a request.
pub enum Reply {
    /// No reply: the error's text.
    Unreachable(String),
    /// The reply's body could not be read: the error's text.
    Unreadable(String),
    /// The decoded body.
    Received { text: String },
}

/// A POST's reply: its JSON, or the error text.
pub open spec fn post_outcome_spec(path: Seq<char>, reply: Reply) -> Result<Json, Seq<char>> {
    match reply {
        Reply::Unreachable(e) => Err("请求 "@ + path + " 失败: "@ + truncate_spec(e@, 60)),
        Reply::Unreadable(e) => Err("读取响应失败: "@ + e@),
        Reply::Received { text } => match json_parsed(text@) {
            Ok(v) => Ok(v),
            Err(e) => Err(
                path + " 返回的不是 JSON: "@ + e + "；原文前 200 字: "@ + truncate_spec(text@, 200),
            ),
        },
    }
}

/// The address that the IP request reports, or the error text.
pub open spec fn ip_outcome_spec(reply: Reply) -> Result<Seq<char>, Seq<char>> {
    match reply {
        Reply::Unreachable(e) => Err("获取 IP 失败: "@ + truncate_spec(e@, 60)),
        Reply::Unreadable(e) => Err("读取响应失败: "@ + e@),
        Reply::Received { text } => match json_parsed(text@) {
            Err(e) => Err("IP 接口返回异常: "@ + e),
            Ok(v) => match get_spec(v, "data"@) {
                Some(Json::Str(s)) => Ok(s@),
                _ => Err("获取 IP 失败，返回: "@ + truncate_spec(text@, 120)),
            },
        },
    }
}

pub open spec fn json_result_view(r: Result<Json, String>) -> Result<Json, Seq<char>> {
    match r {
        Ok(v) => Ok(v),
        Err(e) => Err(e@),
    }
}

/// The reply to a POST to `path`: its JSON, or what went wrong.
pub fn post_outcome(path: &str, reply: Reply) -> (r: Result<Json, String>)
    ensures
        json_result_view(r) == post_outcome_spec(path@, reply),
{
    match reply {
        Reply::Unreachable(e) => {
            let t = truncate(e.as_str(), 60);
            Err(cat4("请求 ", path, " 失败: ", t.as_str()))
        },
        Reply::Unreadable(e) => Err(cat("读取响应失败: ", e.as_str())),
        Reply::Received { text } => match parse_json(text.as_str()) {
            Ok(v) => Ok(v),
            Err(e) => {
                let t = truncate(text.as_str(), 200);
                let mut m = cat3(path, " 返回的不是 JSON: ", e.as_str());
                m.append("；原文前 200 字: ");
                m.append(t.as_str());
                Err(m)
            },
        },
    }
}

/// The reply to the IP request: the client's address, or what went wrong.
pub fn ip_outcome(reply: Reply) -> (r: Result<String, String>)
    ensures
        result_view(r) == ip_outcome_spec(reply),
{
    match reply {
        Reply::Unreachable(e) => {
            let t = truncate(e.as_str(), 60);
            Err(cat("获取 IP 失败: ", t.as_str()))
        },
        Reply::Unreadable(e) => Err(cat("读取响应失败: ", e.as_str())),
        Reply::Received { text } => match parse_json(text.as_str()) {
            Err(e) => Err(cat("IP 接口返回异常: ", e.as_str())),
            Ok(v) => match v.get("data") {
                Some(Json::Str(s)) => Ok(s.clone()),
                _ => {
                    let t = truncate(text.as_str(), 120);
                    Err(cat("获取 IP 失败，返回: ", t.as_str()))
                },
            },
        },
    }
}

/// At most 200 characters of the compact text of `v`.
pub open spec fn compact_spec(v: Json) -> Seq<char> {
    truncate_spec(json_text(v), 200)
}

pub fn compact(v: &Json) -> (r: String)
    ensures
        r@ == compact_spec(*v),
{
    let t = to_text(v);
    truncate(t.as_str(), 200)
}

/// Whether the reply's `code` is the integer 200.
pub open spec fn code_ok(v: Json) -> bool {
    int_of(get_spec(v, "code"@)) == Some(200i64)
}

/// The text of the member `code`, empty where there is none.
pub open spec fn code_text(v: Json) -> Seq<char> {
    match get_spec(v, "code"@) {
        Some(c) => json_text(c),
        None => Seq::empty(),
    }
}

/// A readable message for a refusal: the portal's `data.text` where it
/// gives one; else `code=` and the code, then the `message` or, failing
/// that, the reply itself.
pub open spec fn describe_spec(v: Json) -> Seq<char> {
    let text = str_of_spec(member_or_null(v, "data"@), "text"@);
    if text.len() > 0 {
        text
    } else {
        let msg = str_of_spec(v, "message"@);
        if msg.len() == 0 {
            "code="@ + code_text(v) + " "@ + compact_spec(v)
        } else {
            "code="@ + code_text(v) + " "@ + msg
        }
    }
}

/// A readable message for a refusal.
pub fn describe(v: &Json) -> (r: String)
    ensures
        r@ == describe_spec(*v),
{
    let null = Json::Null;
    let d = match v.get("data") {
        Some(x) => x,
        None => &null,
    };
    assert(*d == member_or_null(*v, "data"@));
    let text = str_of(d, "text");
    if text.as_str().unicode_len() != 0 {
        return text;
    }
    let msg = str_of(v, "message");
    let code = match v.get("code") {
        Some(c) => to_text(c),
        None => String::new(),
    };
    if msg.as_str().unicode_len() == 0 {
        let c = compact(v);
        cat4("code=", code.as_str(), " ", c.as_str())
    } else {
        cat4("code=", code.as_str(), " ", msg.as_str())
    }
}

pub open spec fn pre_login_of(d: Json) -> PreLoginModel {
    PreLoginModel {
        state: str_of_spec(d, "useronlinestate"@),
        username: str_of_spec(d, "username"@),
        balance: str_of_spec(d, "balance"@),
        duration: str_of_spec(d, "duration"@),
        outport: str_of_spec(d, "outport"@),
        ip: str_of_spec(d, "usripadd"@),
    }
}

/// What the pre-login reply says, or the error text.
pub open spec fn pre_login_outcome_spec(res: Result<Json, Seq<char>>) -> Result<PreLoginModel, Seq<char>> {
    match res {
        Err(e) => Err(e),
        Ok(v) => if !code_ok(v) {
            Err("pre_login 失败: "@ + compact_spec(v))
        } else {
            Ok(pre_login_of(member_or_null(v, "data"@)))
        },
    }
}

/// The session state from a pre-login reply.
pub fn pre_login_outcome(res: Result<Json, String>) -> (r: Result<PreLogin, String>)
    ensures
        result_view(r) == pre_login_outcome_spec(json_result_view(res)),
{
    match res {
        Err(e) => Err(e),
        Ok(v) => {
            if v.int_member("code") != Some(200i64) {
                let c = compact(&v);
                return Err(cat("pre_login 失败: ", c.as_str()));
            }
            let null = Json::Null;
            let d = match v.get("data") {
                Some(x) => x,
                None => &null,
            };
            assert(*d == member_or_null(v, "data"@));
            Ok(PreLogin {
                state: str_of(d, "useronlinestate"),
                username: str_of(d, "username"),
                balance: str_of(d, "balance"),
                duration: str_of(d, "duration"),
                outport: str_of(d, "outport"),
                ip: str_of(d, "usripadd"),
            })
        },
    }
}

/// The carriers in `items` that have a non-empty id, in order.
pub open spec fn channels_of(items: Seq<Json>) -> Seq<ChannelModel>
    decreases items.len(),
{
    if items.len() == 0 {
        Seq::empty()
    } else {
        let rest = channels_of(items.drop_last());
        let c = items.last();
        if str_of_spec(c, "id"@).len() == 0 {
            rest
        } else {
            rest.push(ChannelModel { id: str_of_spec(c, "id"@), name: str_of_spec(c, "name"@) })
        }
    }
}

/// The carriers that `data.channels` lists; none where it is no array.
pub open spec fn parse_channels_spec(data: Json) -> Seq<ChannelModel> {
    match get_spec(data, "channels"@) {
        Some(Json::Array(items)) => channels_of(items@),
        _ => Seq::empty(),
    }
}

pub fn parse_channels(data: &Json) -> (r: Vec<Channel>)
    ensures
        channels_view(r@) == parse_channels_spec(*data),
{
    let mut r: Vec<Channel> = Vec::new();
    match data.get("channels") {
        Some(Json::Array(items)) => {
            let mut i: usize = 0;
            while i < items.len()
                invariant
                    i <= items.len(),
                    channels_view(r@) == channels_of(items@.take(i as int)),
                decreases items.len() - i,
            {
                let c = &items[i];
                let id = str_of(c, "id");
                let ghost before = r@;
                if id.as_str().unicode_len() != 0 {
                    let name = str_of(c, "name");
                    r.push(Channel { id, name });
                }
                proof {
                    let s = items@.take(i + 1);
                    assert(s.drop_last() =~= items@.take(i as int));
                    assert(s.last() == items@[i as int]);
                    assert(channels_view(r@) =~= channels_of(s));
                }
                i = i + 1;
            }
            assert(items@.take(items.len() as int) =~= items@);
        },
        _ => {
            assert(channels_view(r@) =~= Seq::<ChannelModel>::empty());
        },
    }
    r
}

pub open spec fn success_of(d: Json) -> AuthSuccessModel {
    AuthSuccessModel {
        username: str_of_spec(d, "username"@),
        outport: str_of_spec(d, "outport"@),
        balance: str_of_spec(d, "balance"@),
        duration: str_of_spec(d, "duration"@),
        reauth: match bool_of(get_spec(d, "reauth"@)) {
            Some(b) => b,
            None => false,
        },
    }
}

pub fn parse_success(data: &Json) -> (r: AuthSuccess)
    ensures
        r@ == success_of(*data),
{
    AuthSuccess {
        username: str_of(data, "username"),
        outport: str_of(data, "outport"),
        balance: str_of(data, "balance"),
        duration: str_of(data, "duration"),
        reauth: match data.bool_member("reauth") {
            Some(b) => b,
            None => false,
        },
    }
}

/// Whether `c` is the carrier `target`, by id or by name.
pub open spec fn channel_matches(c: ChannelModel, target: Seq<char>) -> bool {
    c.id == target || c.name == target
}

/// The first carrier of `chs` that is `target`.
pub open spec fn first_match(chs: Seq<ChannelModel>, target: Seq<char>) -> Option<ChannelModel>
    decreases chs.len(),
{
    if chs.len() == 0 {
        None
    } else if channel_matches(chs[0], target) {
        Some(chs[0])
    } else {
        first_match(chs.drop_first(), target)
    }
}

proof fn lemma_first_match_skip(chs: Seq<ChannelModel>, target: Seq<char>, i: int)
    requires
        0 <= i <= chs.len(),
        forall|j: int| 0 <= j < i ==> !channel_matches(#[trigger] chs[j], target),
    ensures
        first_match(chs, target) == first_match(chs.skip(i), target),
    decreases i,
{
    if i > 0 {
        assert(chs.drop_first().skip(i - 1) =~= chs.skip(i));
        assert(!channel_matches(chs[0], target));
        lemma_first_match_skip(chs.drop_first(), target, i - 1);
    } else {
        assert(chs.skip(0) =~= chs);
    }
}

/// The first carrier of `chs` that is `target`, by id or by name.
pub fn find_channel(chs: &Vec<Channel>, target: &str) -> (r: Option<Channel>)
    ensures
        match r {
            Some(c) => first_match(channels_view(chs@), target@) == Some(c@),
            None => first_match(channels_view(chs@), target@) is None,
        },
{
    let ghost cv = channels_view(chs@);
    let mut i: usize = 0;
    while i < chs.len()
        invariant
            i <= chs.len(),
            cv == channels_view(chs@),
            forall|j: int| 0 <= j < i ==> !channel_matches(#[trigger] cv[j], target@),
        decreases chs.len() - i,
    {
        if str_eq(chs[i].id.as_str(), target) || str_eq(chs[i].name.as_str(), target) {
            proof {
                lemma_first_match_skip(cv, target@, i as int);
                assert(cv.skip(i as int)[0] == cv[i as int]);
            }
            return Some(chs[i].copy());
        }
        i = i + 1;
    }
    proof {
        lemma_first_match_skip(cv, target@, i as int);
    }
    None
}

// ------------------------------------------------------------------ //
// The two-step login
// ------------------------------------------------------------------ //

/// Where the first step leaves the login: finished, or to go on with the
/// second step through a carrier.
pub enum FirstAuthStep {
    Finished(Result<LoginOutcome, String>),
    Second(Channel),
}

pub enum FirstAuthModel {
    Finished(Result<LoginOutcomeModel, Seq<char>>),
    Second(ChannelModel),
}

impl View for FirstAuthStep {
    type V = FirstAuthModel;

    open spec fn view(&self) -> FirstAuthModel {
        match self {
            FirstAuthStep::Finished(r) => FirstAuthModel::Finished(result_view(*r)),
            FirstAuthStep::Second(c) => FirstAuthModel::Second(c@),
        }
    }
}

/// The first step's reply decides: a refusal fails; a reply without
/// carriers means the account is logged in already; else the carrier
/// `wanted` (trimmed, or the default carrier) is looked up by id or name,
/// and the login goes on through the first that matches, or stops with
/// the list when none does.
pub open spec fn first_auth_spec(res: Result<Json, Seq<char>>, wanted: Seq<char>) -> FirstAuthModel {
    match res {
        Err(e) => FirstAuthModel::Finished(Err(e)),
        Ok(v) => if !code_ok(v) {
            FirstAuthModel::Finished(Ok(LoginOutcomeModel::Failed(describe_spec(v))))
        } else {
            let data = member_or_null(v, "data"@);
            let chs = parse_channels_spec(data);
            if chs.len() == 0 {
                FirstAuthModel::Finished(Ok(LoginOutcomeModel::Done(success_of(data))))
            } else {
                match first_match(chs, channel_target_spec(wanted)) {
                    None => FirstAuthModel::Finished(Ok(LoginOutcomeModel::NeedChannel(chs))),
                    Some(c) => FirstAuthModel::Second(c),
                }
            }
        },
    }
}

/// Where no carrier of `chs` is `target`, `first_match` finds none.
proof fn lemma_first_match_none(chs: Seq<ChannelModel>, target: Seq<char>)
    requires
        first_match(chs, target) is None,
    ensures
        forall|i: int| 0 <= i < chs.len() ==> !channel_matches(#[trigger] chs[i], target),
    decreases chs.len(),
{
    if chs.len() > 0 {
        lemma_first_match_none(chs.drop_first(), target);
        assert forall|i: int| 0 <= i < chs.len() implies !channel_matches(#[trigger] chs[i], target) by {
            if i > 0 {
                assert(chs[i] == chs.drop_first()[i - 1]);
            }
        }
    }
}

/// The first login step picks the configured carrier from the list that a
/// successful reply gives: where the carrier at `k` is the configured one
/// (by id or by name) and none before it is, the second step goes through
/// it, wherever it stands in the list.
pub proof fn lemma_first_step_picks_listed_carrier(v: Json, wanted: Seq<char>, k: int)
    requires
        code_ok(v),
        0 <= k < parse_channels_spec(member_or_null(v, "data"@)).len(),
        channel_matches(parse_channels_spec(member_or_null(v, "data"@))[k], channel_target_spec(wanted)),
        forall|j: int|
            0 <= j < k ==> !channel_matches(
                #[trigger] parse_channels_spec(member_or_null(v, "data"@))[j],
                channel_target_spec(wanted),
            ),
    ensures
        first_auth_spec(Ok(v), wanted) == FirstAuthModel::Second(parse_channels_spec(member_or_null(v, "data"@))[k]),
{
    let chs = parse_channels_spec(member_or_null(v, "data"@));
    let t = channel_target_spec(wanted);
    lemma_first_match_skip(chs, t, k);
    assert(chs.skip(k)[0] == chs[k]);
}

/// The first login step stops to ask for a carrier only when the reply
/// lists carriers and none of them is the configured one.
pub proof fn lemma_need_channel_only_without_match(res: Result<Json, Seq<char>>, wanted: Seq<char>)
    requires
        first_auth_spec(res, wanted) matches FirstAuthModel::Finished(Ok(LoginOutcomeModel::NeedChannel(_))),
    ensures
        res is Ok,
        code_ok(res->Ok_0),
        ({
            let chs = parse_channels_spec(member_or_null(res->Ok_0, "data"@));
            &&& chs.len() > 0
            &&& first_auth_spec(res, wanted) == FirstAuthModel::Finished(Ok(LoginOutcomeModel::NeedChannel(chs)))
            &&& forall|i: int| 0 <= i < chs.len() ==> !channel_matches(#[trigger] chs[i], channel_target_spec(wanted))
        }),
{
    let chs = parse_channels_spec(member_or_null(res->Ok_0, "data"@));
    lemma_first_match_none(chs, channel_target_spec(wanted));
}

pub fn first_auth_step(res: Result<Json, String>, wanted: &str) -> (r: FirstAuthStep)
    ensures
        r@ == first_auth_spec(json_result_view(res), wanted@),
{
    match res {
        Err(e) => FirstAuthStep::Finished(Err(e)),
        Ok(v) => {
            if v.int_member("code") != Some(200i64) {
                return FirstAuthStep::Finished(Ok(LoginOutcome::Failed(describe(&v))));
            }
            let null = Json::Null;
            let d = match v.get("data") {
                Some(x) => x,
                None => &null,
            };
            assert(*d == member_or_null(v, "data"@));
            let data = d;
            let channels = parse_channels(data);
            if channels.len() == 0 {
                return FirstAuthStep::Finished(Ok(LoginOutcome::Done(parse_success(data))));
            }
            let target = channel_target(wanted);
            match find_channel(&channels, target) {
                None => FirstAuthStep::Finished(Ok(LoginOutcome::NeedChannel(channels))),
                Some(c) => FirstAuthStep::Second(c),
            }
        },
    }
}

/// The second step's reply: a refusal fails; else the login is done, with
/// the chosen carrier's name where the reply names no carrier.
pub open spec fn second_auth_spec(res: Result<Json, Seq<char>>, chosen: ChannelModel) -> Result<LoginOutcomeModel, Seq<char>> {
    match res {
        Err(e) => Err(e),
        Ok(v) => if !code_ok(v) {
            Ok(LoginOutcomeModel::Failed(describe_spec(v)))
        } else {
            let ok = success_of(member_or_null(v, "data"@));
            if ok.outport.len() == 0 {
                Ok(LoginOutcomeModel::Done(AuthSuccessModel { outport: chosen.name, ..ok }))
            } else {
                Ok(LoginOutcomeModel::Done(ok))
            }
        },
    }
}

pub fn second_auth_outcome(res: Result<Json, String>, chosen: &Channel) -> (r: Result<LoginOutcome, String>)
    ensures
        result_view(r) == second_auth_spec(json_result_view(res), chosen@),
{
    match res {
        Err(e) => Err(e),
        Ok(v) => {
            if v.int_member("code") != Some(200i64) {
                return Ok(LoginOutcome::Failed(describe(&v)));
            }
            let null = Json::Null;
            let d = match v.get("data") {
                Some(x) => x,
                None => &null,
            };
            assert(*d == member_or_null(v, "data"@));
            let mut ok = parse_success(d);
            if ok.outport.as_str().unicode_len() == 0 {
                ok.outport = chosen.name.clone();
            }
            Ok(LoginOutcome::Done(ok))
        },
    }
}

// ------------------------------------------------------------------ //
// Laws of the request bodies
// ------------------------------------------------------------------ //

/// The portal's base address never ends with '/', so a path appended to it
/// starts the path right after the host.
pub proof fn lemma_base_no_trailing_slash(s: Seq<char>)
    ensures
        base_spec(s).len() > 0 ==> base_spec(s).last() != '/',
{
    crate::text::lemma_strip_end_last(trim_spec(s), '/');
}

/// A pre-login body holds each of its members as `"key":"value"`, with no
/// space around the colon: the portal finds them by plain substring search.
pub proof fn lemma_pre_login_body_compact(ip: Seq<char>)
    ensures
        contains_spec(pre_login_body_spec(ip), field_text("getuseronlinestate"@, "on_or_off"@)),
        contains_spec(pre_login_body_spec(ip), field_text("user_ipadress"@, ip)),
{
    let f1 = field_text("getuseronlinestate"@, "on_or_off"@);
    let f2 = field_text("user_ipadress"@, ip);
    lemma_occurs_in_concat(seq!['{'], f1, seq![','] + f2 + seq!['}']);
    assert(seq!['{'] + f1 + (seq![','] + f2 + seq!['}']) =~= pre_login_body_spec(ip));
    lemma_occurs_in_concat(seq!['{'] + f1 + seq![','], f2, seq!['}']);
    assert(seq!['{'] + f1 + seq![','] + f2 + seq!['}'] =~= pre_login_body_spec(ip));
}

/// A login body holds each of its six members as `"key":"value"`, with no
/// space around the colon.
pub proof fn lemma_login_body_compact(
    ip: Seq<char>,
    user: Seq<char>,
    pass: Seq<char>,
    channel: Seq<char>,
    pagesign: Seq<char>,
    ifautologin: Seq<char>,
)
    ensures
        ({
            let b = login_body_spec(ip, user, pass, channel, pagesign, ifautologin);
            &&& contains_spec(b, field_text("channel"@, channel))
            &&& contains_spec(b, field_text("ifautologin"@, ifautologin))
            &&& contains_spec(b, field_text("pagesign"@, pagesign))
            &&& contains_spec(b, field_text("password"@, pass))
            &&& contains_spec(b, field_text("username"@, user))
            &&& contains_spec(b, field_text("usripadd"@, ip))
        }),
{
    let b = login_body_spec(ip, user, pass, channel, pagesign, ifautologin);
    let f1 = field_text("channel"@, channel);
    let f2 = field_text("ifautologin"@, ifautologin);
    let f3 = field_text("pagesign"@, pagesign);
    let f4 = field_text("password"@, pass);
    let f5 = field_text("username"@, user);
    let f6 = field_text("usripadd"@, ip);
    let c = seq![','];
    let a1 = seq!['{'];
    let a2 = a1 + f1 + c;
    let a3 = a2 + f2 + c;
    let a4 = a3 + f3 + c;
    let a5 = a4 + f4 + c;
    let a6 = a5 + f5 + c;
    let z = seq!['}'];
    assert(b =~= a6 + f6 + z);
    lemma_occurs_in_concat(a1, f1, c + f2 + c + f3 + c + f4 + c + f5 + c + f6 + z);
    assert(b =~= a1 + f1 + (c + f2 + c + f3 + c + f4 + c + f5 + c + f6 + z));
    lemma_occurs_in_concat(a2, f2, c + f3 + c + f4 + c + f5 + c + f6 + z);
    assert(b =~= a2 + f2 + (c + f3 + c + f4 + c + f5 + c + f6 + z));
    lemma_occurs_in_concat(a3, f3, c + f4 + c + f5 + c + f6 + z);
    assert(b =~= a3 + f3 + (c + f4 + c + f5 + c + f6 + z));
    lemma_occurs_in_concat(a4, f4, c + f5 + c + f6 + z);
    assert(b =~= a4 + f4 + (c + f5 + c + f6 + z));
    lemma_occurs_in_concat(a5, f5, c + f6 + z);
    assert(b =~= a5 + f5 + (c + f6 + z));
    lemma_occurs_in_concat(a6, f6, z);
}

} // verus!
