use study::eval::{all_done, get_today_score, progress, script_text, ScriptValue, TodayTask};
use study::plan::{StudyAction, StudyPlan};
use study::qrcode::{
    decode_qr, gen_qr, gen_qr_data_uri, login_link, png_data_uri, ticket_conv, DecodeError,
};
use study::text::{join, push_decimal, push_signed_decimal, push_text, str_eq, text};
use study::error::TaskError;
use study::utils::{
    browse_news, browse_video, get_some_url, latest_urls, merge_urls, news_steps, starts_with,
    urls, video_steps, window_size, BrowseStep, News,
};

fn dec(n: u64) -> String {
    let mut s = String::new();
    push_decimal(&mut s, n);
    s
}

fn sdec(n: i64) -> String {
    let mut s = String::new();
    push_signed_decimal(&mut s, n);
    s
}

#[test]
fn decimal_numerals() {
    assert_eq!(dec(0), "0");
    assert_eq!(dec(7), "7");
    assert_eq!(dec(10), "10");
    assert_eq!(dec(1234567890), "1234567890");
    assert_eq!(dec(u64::MAX), "18446744073709551615");
    assert_eq!(sdec(0), "0");
    assert_eq!(sdec(-1), "-1");
    assert_eq!(sdec(i64::MAX), "9223372036854775807");
    assert_eq!(sdec(i64::MIN), "-9223372036854775808");
    for n in [1u64, 9, 99, 100, 101, 65535, 4294967296] {
        assert_eq!(dec(n), n.to_string());
    }
    let mut s = text("n=");
    push_decimal(&mut s, 42);
    push_text(&mut s, "!");
    assert_eq!(s, "n=42!");
}

#[test]
fn joining_and_comparing_texts() {
    assert_eq!(join(&vec![], ","), "");
    assert_eq!(join(&vec!["a".to_string()], ","), "a");
    assert_eq!(join(&vec!["a".to_string(), "".to_string(), "c".to_string()], "，"), "a，，c");
    assert!(str_eq("学习", "学习"));
    assert!(!str_eq("a", "b"));
    assert!(starts_with("2023-11-05 10:00:00", "2023-11-05"));
    assert!(starts_with("abc", ""));
    assert!(starts_with("abc", "abc"));
    assert!(!starts_with("ab", "abc"));
    assert!(!starts_with("2023-11-06 10:00:00", "2023-11-05"));
    assert!(starts_with("学习强国", "学习"));
    assert!(!starts_with("学习强国", "强国"));
}

fn t(title: &str, current: i64, max: i64) -> TodayTask {
    TodayTask { title: title.to_string(), current_score: current, day_max_score: max }
}

#[test]
fn task_progress() {
    let tasks = vec![t("登录", 0, 1), t("我要选读文章", 12, 12), t("我要视听学习", 5, 6)];
    assert!(tasks[1].is_article() && !tasks[1].is_video() && !tasks[1].pending());
    assert!(tasks[2].is_video() && tasks[2].pending());
    assert!(!tasks[0].pending());
    assert!(!all_done(&tasks));
    assert!(all_done(&tasks[..2].to_vec()));
    assert!(all_done(&vec![]));
    assert_eq!(
        progress(&tasks),
        vec![
            ("登录".to_string(), 0, 1),
            ("我要选读文章".to_string(), 12, 12),
            ("我要视听学习".to_string(), 5, 6)
        ]
    );
}

#[test]
fn plan_walks_the_pending_tasks() {
    let mut p = StudyPlan::new(vec!["n1".to_string()], vec!["v1".to_string(), "v2".to_string()]);
    assert_eq!(p.supply_left(), 3);
    assert!(matches!(p.next(), StudyAction::ReadTasks));
    p.begin(vec![t("我要视听学习", 0, 6), t("x", 0, 1), t("我要选读文章", 0, 12), t("我要视听学习", 1, 6)]);
    assert!(matches!(p.next(), StudyAction::BrowseVideo(u) if u == "v1"));
    assert!(matches!(p.next(), StudyAction::BrowseNews(u) if u == "n1"));
    assert!(matches!(p.next(), StudyAction::BrowseVideo(u) if u == "v2"));
    assert_eq!(p.supply_left(), 0);
    assert!(matches!(p.next(), StudyAction::ReadTasks));
    p.begin(vec![t("我要选读文章", 6, 12)]);
    assert!(matches!(p.next(), StudyAction::Finish));
    assert!(matches!(p.next(), StudyAction::Finish));
}

#[test]
fn script_values() {
    assert!(matches!(get_today_score(ScriptValue::Integer(35)), Ok(35)));
    assert!(matches!(get_today_score(ScriptValue::Integer(-1)), Ok(-1)));
    for v in [ScriptValue::Missing, ScriptValue::Other, ScriptValue::Text("35".to_string())] {
        match get_today_score(v) {
            Err(TaskError::ScriptFailed(c)) => assert_eq!(c, "执行脚本获取数据失败"),
            other => panic!("unexpected result {:?}", other),
        }
    }
    assert_eq!(script_text(ScriptValue::Text("{}".to_string())).unwrap(), "{}");
    for v in [ScriptValue::Missing, ScriptValue::Other, ScriptValue::Integer(1)] {
        match script_text(v) {
            Err(e) => assert_eq!(e.reason(), "script failed: 执行脚本获取数据失败"),
            other => panic!("unexpected result {:?}", other),
        }
    }
}

fn news(audit_time: &str, url: &str) -> News {
    News { audit_time: audit_time.to_string(), url: url.to_string() }
}

#[test]
fn pages_on_offer() {
    let list = vec![
        news("2023-11-05 08:00:00", "a"),
        news("2023-11-04 08:00:00", "b"),
        news("2023-11-05 09:00:00", "c"),
        news("", "d"),
    ];
    assert_eq!(latest_urls(&list, "2023-11-05"), vec!["a", "c"]);
    assert!(latest_urls(&list, "2023-11-06").is_empty());
    assert_eq!(urls(&list), vec!["a", "b", "c", "d"]);
    assert_eq!(
        merge_urls(vec!["a".to_string()], vec!["x".to_string(), "y".to_string()]),
        vec!["a", "x", "y"]
    );
    let offer = get_some_url(&list, "2023-11-05");
    assert_eq!(offer.len(), 6);
    assert_eq!(&offer[..2], &["a".to_string(), "c".to_string()]);
    let mut drawn = offer[2..].to_vec();
    drawn.sort();
    assert_eq!(drawn, vec!["a", "b", "c", "d"]);
    assert!(get_some_url(&vec![], "2023-11-05").is_empty());
}

#[test]
fn draw_is_capped_at_thirty() {
    let mut list = vec![];
    for i in 0..100 {
        list.push(news("2020-01-01", &format!("u{}", i)));
    }
    let offer = get_some_url(&list, "2023-11-05");
    assert_eq!(offer.len(), 30);
    let mut seen = offer.clone();
    seen.sort();
    seen.dedup();
    assert_eq!(seen.len(), 30);
    assert!(offer.iter().all(|u| list.iter().any(|n| &n.url == u)));
    // a draw that always handed back the head of the list would not differ between runs
    let mut differs = false;
    for _ in 0..20 {
        if get_some_url(&list, "2023-11-05") != offer {
            differs = true;
        }
    }
    assert!(differs);
}

fn shown(steps: &[BrowseStep]) -> Vec<String> {
    steps.iter().map(|s| format!("{:?}", s)).collect()
}

#[test]
fn steps_of_a_visit() {
    assert_eq!(
        shown(&news_steps("https://x/n", 81)),
        vec![
            "Open(\"https://x/n\")",
            "Pause(10)",
            "Scroll(394)",
            "Pause(40)",
            "Scroll(1000)",
            "Pause(40)",
            "Scroll(3000)",
            "Pause(10)",
            "Scroll(0)"
        ]
    );
    assert_eq!(
        shown(&video_steps("https://x/v", 130)),
        vec![
            "Open(\"https://x/v\")",
            "Pause(1)",
            "Scroll(394)",
            "Play",
            "Pause(65)",
            "Scroll(500)",
            "Pause(65)",
            "Scroll(300)"
        ]
    );
    let mut dwells = vec![];
    for _ in 0..200 {
        let n = browse_news("u");
        if let BrowseStep::Pause(d) = n[3] {
            if !dwells.contains(&d) {
                dwells.push(d);
            }
        }
        assert_eq!(n.len(), 9);
        assert!(matches!(n[3], BrowseStep::Pause(d) if (40..55).contains(&d)));
        assert!(matches!((&n[3], &n[5]), (BrowseStep::Pause(a), BrowseStep::Pause(b)) if a == b));
        let v = browse_video("u");
        assert_eq!(v.len(), 8);
        assert!(matches!(v[4], BrowseStep::Pause(d) if (65..130).contains(&d)));
        let (w, h) = window_size();
        assert!((1440..2000).contains(&w));
        assert!((720..1100).contains(&h));
    }
    // the time is drawn anew for every visit
    assert!(dwells.len() > 1);
}

#[test]
fn test_gen_qr() {
    gen_qr("").unwrap();
}

#[test]
fn qr_pictures() {
    let png = gen_qr("https://login.xuexi.cn/login/qrcommit?code=qr:E7298D91").unwrap();
    assert_eq!(&png[..8], &[0x89, b'P', b'N', b'G', 0x0D, 0x0A, 0x1A, 0x0A]);
    // width and height of the picture, big endian, in the header
    assert_eq!(&png[16..24], &[0, 0, 1, 64, 0, 0, 1, 64]);
    assert_eq!(gen_qr("same").unwrap(), gen_qr("same").unwrap());
    assert_ne!(gen_qr("same").unwrap(), gen_qr("other").unwrap());
    let too_long = "x".repeat(5000);
    assert!(gen_qr(&too_long).is_err());
    assert!(gen_qr_data_uri(&too_long).is_err());
    assert!(ticket_conv(&too_long).is_err());
}

#[test]
fn data_addresses() {
    assert_eq!(png_data_uri(&vec![]), "data:image/png;base64,");
    assert_eq!(png_data_uri(&b"hello world~".to_vec()), "data:image/png;base64,aGVsbG8gd29ybGR+");
    assert_eq!(png_data_uri(&vec![0xFF]), "data:image/png;base64,/w==");
    let uri = gen_qr_data_uri("abc").unwrap();
    assert!(uri.starts_with("data:image/png;base64,iVBORw0KGgo"));
    assert_eq!(uri, png_data_uri(&gen_qr("abc").unwrap()));
}

#[test]
fn tickets_in_links() {
    assert_eq!(login_link("app://open?url=", "https://a.b/c d?e=f&g=*-._~"), "app://open?url=https%3A%2F%2Fa.b%2Fc+d%3Fe%3Df%26g%3D*-._%7E");
    assert_eq!(login_link("", "学习"), "%E5%AD%A6%E4%B9%A0");
    assert_eq!(login_link("x", ""), "x");
    let (link, uri) = ticket_conv("qr:A1 b").unwrap();
    assert_eq!(link, "qr%3AA1+b");
    assert_eq!(uri, gen_qr_data_uri("qr:A1 b").unwrap());
}

#[test]
fn first_code_of_a_scan() {
    assert!(matches!(decode_qr(vec![]), Err(DecodeError::NotFound)));
    assert_eq!(decode_qr(vec![Ok("a".to_string()), Err("x".to_string())]).unwrap(), "a");
    match decode_qr(vec![Err("bad format".to_string()), Ok("a".to_string())]) {
        Err(e) => {
            assert!(matches!(&e, DecodeError::Unreadable(m) if m == "bad format"));
            assert_eq!(e.message(), "识别二维码失败: bad format");
        }
        other => panic!("unexpected result {:?}", other),
    }
    assert_eq!(DecodeError::NotFound.message(), "没有识别到二维码");
}

fn scan(png: &[u8]) -> Vec<Result<String, String>> {
    let picture = image::load_from_memory(png).unwrap();
    bardecoder::default_decoder()
        .decode(&picture)
        .into_iter()
        .map(|r| r.map_err(|e| e.to_string()))
        .collect()
}

#[test]
fn pictures_are_read_back() {
    for ticket in [
        "https://login.xuexi.cn/login/qrcommit?showmenu=false&code=qr:E7298D91-9D75-44EF-BCBE-CAB558A92158&appId=dingoankubyrfkttorhpou",
        "a",
        "qr:1",
    ] {
        let png = gen_qr(ticket).unwrap();
        assert_eq!(decode_qr(scan(&png)).unwrap(), ticket);
    }
}
