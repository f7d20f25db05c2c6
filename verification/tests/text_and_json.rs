use campusflow::json::{str_of, to_text, Json, JsonNumber, Member};
use campusflow::text::{
    ascii_lower, contains, decimal, eq_ignore_ascii_case, join, starts_with, str_eq, strip_end,
    trim, truncate,
};

fn s(x: &str) -> Json {
    Json::Str(x.to_string())
}

fn num(text: &str, int: Option<i64>) -> Json {
    Json::Number(JsonNumber { text: text.to_string(), int })
}

fn obj(members: Vec<(&str, Json)>) -> Json {
    Json::Object(
        members
            .into_iter()
            .map(|(k, v)| Member { key: k.to_string(), value: v })
            .collect(),
    )
}

#[test]
fn trim_removes_unicode_whitespace() {
    assert_eq!(trim("  abc \t\n"), "abc");
    assert_eq!(trim("\u{3000}中国电信\u{3000}"), "中国电信");
    assert_eq!(trim("   "), "");
    assert_eq!(trim(""), "");
    assert_eq!(trim("a b"), "a b");
}

#[test]
fn trim_twice_is_trim_once() {
    for x in ["  a  ", "\t\tb", "c\n", "", " ", "x y "] {
        assert_eq!(trim(trim(x)), trim(x));
    }
}

#[test]
fn strip_end_removes_all_trailing_slashes() {
    assert_eq!(strip_end("http://h//", '/'), "http://h");
    assert_eq!(strip_end("http://h", '/'), "http://h");
    assert_eq!(strip_end("///", '/'), "");
}

#[test]
fn prefix_substring_and_case() {
    assert!(starts_with("[ok] fine", "[ok]"));
    assert!(!starts_with("[o", "[ok]"));
    assert!(contains("application/json;charset=gbk", "gbk"));
    assert!(contains("abc", ""));
    assert!(!contains("ab", "abc"));
    assert_eq!(ascii_lower("Text/HTML; Charset=GBK"), "text/html; charset=gbk");
    assert_eq!(ascii_lower("中A"), "中a");
    assert!(eq_ignore_ascii_case("POLL", "poll"));
    assert!(!eq_ignore_ascii_case("pol", "poll"));
    assert!(str_eq("中", "中"));
    assert!(!str_eq("a", "ab"));
}

#[test]
fn truncate_marks_cuts() {
    assert_eq!(truncate("abcdef", 3), "abc…");
    assert_eq!(truncate("abc", 3), "abc");
    assert_eq!(truncate("中国电信", 2), "中国…");
    assert_eq!(truncate("", 0), "");
}

#[test]
fn decimal_renders_digits() {
    assert_eq!(decimal(0), "0");
    assert_eq!(decimal(7), "7");
    assert_eq!(decimal(1500), "1500");
    assert_eq!(decimal(u64::MAX), u64::MAX.to_string());
}

#[test]
fn join_separates() {
    let parts = vec!["a".to_string(), "b".to_string(), "c".to_string()];
    assert_eq!(join(&parts, "、"), "a、b、c");
    assert_eq!(join(&Vec::new(), ","), "");
    assert_eq!(join(&vec!["x".to_string()], ","), "x");
}

#[test]
fn quote_escapes_like_serde_json() {
    let q = |x: &str| to_text(&Json::Str(x.to_string()));
    assert_eq!(q("abc"), "\"abc\"");
    assert_eq!(q("a\"b\\c\n"), "\"a\\\"b\\\\c\\n\"");
    assert_eq!(q("中国"), "\"中国\"");
    assert_eq!(q("\u{1}"), "\"\\u0001\"");
    assert_eq!(q("\u{8}\t\u{c}\r\u{1f}\u{7f}"), "\"\\b\\t\\f\\r\\u001f\u{7f}\"");
}

#[test]
fn json_text_is_compact() {
    let v = obj(vec![
        ("code", num("200", Some(200))),
        ("data", obj(vec![("list", Json::Array(vec![s("a"), Json::Bool(true), Json::Null]))])),
    ]);
    assert_eq!(to_text(&v), "{\"code\":200,\"data\":{\"list\":[\"a\",true,null]}}");
    assert_eq!(to_text(&Json::Array(vec![])), "[]");
    assert_eq!(to_text(&obj(vec![])), "{}");
}

#[test]
fn str_of_reads_each_kind() {
    let v = obj(vec![
        ("s", s("on")),
        ("n", num("731", Some(731))),
        ("b", Json::Bool(false)),
        ("z", Json::Null),
        ("a", Json::Array(vec![num("1", Some(1))])),
    ]);
    assert_eq!(str_of(&v, "s"), "on");
    assert_eq!(str_of(&v, "n"), "731");
    assert_eq!(str_of(&v, "b"), "false");
    assert_eq!(str_of(&v, "z"), "");
    assert_eq!(str_of(&v, "missing"), "");
    assert_eq!(str_of(&v, "a"), "[1]");
    assert_eq!(str_of(&s("not an object"), "s"), "");
}

#[test]
fn lookup_takes_the_first_member() {
    let v = obj(vec![("k", s("first")), ("k", s("second"))]);
    assert_eq!(str_of(&v, "k"), "first");
    assert_eq!(v.int_member("k"), None);
    let c = obj(vec![("code", num("200", Some(200)))]);
    assert_eq!(c.int_member("code"), Some(200));
    let f = obj(vec![("reauth", Json::Bool(true))]);
    assert_eq!(f.bool_member("reauth"), Some(true));
    assert_eq!(f.bool_member("none"), None);
}
