use auth_emulator::config::{read_config, Environment};
use auth_emulator::metrics::{
    answer_rendering, init_metrics, metrics_endpoint, render_metrics, rendering_of,
    request_finished, request_started, Metrics,
};
use auth_emulator::push::{next_action, push_plan, PushAction, PushEvent, PushPlan};

fn new_metrics() -> Metrics {
    init_metrics()
}

fn lines(metrics: &Metrics) -> Vec<String> {
    render_metrics(metrics).unwrap().lines().map(|line| line.to_owned()).collect()
}

fn has(lines: &[String], line: &str) -> bool {
    lines.iter().any(|l| l == line)
}

#[test]
fn metrics_start_at_zero() {
    assert_eq!(
        render_metrics(&new_metrics()).unwrap(),
        "# HELP http_requests_in_flight In-flight HTTP requests\n\
         # TYPE http_requests_in_flight gauge\n\
         http_requests_in_flight 0\n"
    );
}

#[test]
fn rendering_twice_shows_the_same() {
    let mut metrics = new_metrics();
    request_started(&mut metrics);
    for (path, nanos) in [("/b", 3), ("/a", 1_234_567_891), ("/c", 77_000_000), ("/b", 7)] {
        request_finished(&mut metrics, "GET", path, 200, nanos);
    }
    let first = render_metrics(&metrics).unwrap();
    assert_eq!(render_metrics(&metrics).unwrap(), first);
    assert_eq!(render_metrics(&metrics).unwrap(), first);
    request_started(&mut metrics);
    assert_ne!(render_metrics(&metrics).unwrap(), first);
}

#[test]
fn more_requests_finished_than_started_show_as_negative() {
    let mut metrics = new_metrics();
    request_finished(&mut metrics, "GET", "/", 200, 1);
    request_finished(&mut metrics, "GET", "/", 200, 1);
    assert!(has(&lines(&metrics), "http_requests_in_flight -2"));
}

#[test]
fn requests_under_way_show_before_any_has_finished() {
    let mut metrics = new_metrics();
    for _ in 0..12 {
        request_started(&mut metrics);
    }
    assert_eq!(
        render_metrics(&metrics).unwrap(),
        "# HELP http_requests_in_flight In-flight HTTP requests\n\
         # TYPE http_requests_in_flight gauge\n\
         http_requests_in_flight 12\n"
    );
}

#[test]
fn metrics_of_one_service_do_not_show_in_another() {
    let mut one = new_metrics();
    let other = new_metrics();
    let before = render_metrics(&other).unwrap();
    request_started(&mut one);
    request_finished(&mut one, "GET", "/", 200, 1);
    request_started(&mut one);
    assert_eq!(render_metrics(&other).unwrap(), before);
    assert!(has(&lines(&one), "http_requests_in_flight 1"));
}

/// The FNV-1a hash of `bytes`.
fn fnv(bytes: &[u8]) -> u64 {
    bytes.iter().fold(0xcbf2_9ce4_8422_2325, |hash, byte| {
        (hash ^ u64::from(*byte)).wrapping_mul(0x100_0000_01b3)
    })
}

#[test]
fn metrics_are_numbered_by_the_hash_of_their_names() {
    let cases: [(&str, u64); 3] = [
        ("http_requests_total", 0x4217_265b_99da_9ace),
        ("http_request_duration_seconds", 0xfdd4_2088_fb22_972b),
        ("http_requests_in_flight", 0x40aa_a4fb_ca6b_a00a),
    ];
    for (name, id) in cases {
        let desc = prometheus::core::Desc::new(
            name.to_owned(),
            "help".to_owned(),
            vec![],
            std::collections::HashMap::new(),
        );
        assert_eq!(desc.unwrap().id, id);
        let mut bytes = name.as_bytes().to_vec();
        bytes.push(255);
        assert_eq!(fnv(&bytes), id);
    }
}

#[test]
fn requests_under_way_are_counted() {
    let mut metrics = new_metrics();
    request_started(&mut metrics);
    request_started(&mut metrics);
    assert!(has(&lines(&metrics), "http_requests_in_flight 2"));
    request_finished(&mut metrics, "GET", "/health", 200, 1);
    assert!(has(&lines(&metrics), "http_requests_in_flight 1"));
    request_finished(&mut metrics, "GET", "/health", 200, 1);
    assert!(has(&lines(&metrics), "http_requests_in_flight 0"));
}

#[test]
fn finished_requests_are_counted_by_method_path_and_status() {
    let mut metrics = new_metrics();
    request_started(&mut metrics);
    request_finished(&mut metrics, "POST", "/auth/token", 200, 1_000);
    request_started(&mut metrics);
    request_finished(&mut metrics, "POST", "/auth/token", 200, 1_000);
    request_started(&mut metrics);
    request_finished(&mut metrics, "POST", "/auth/token", 503, 1_000);
    let lines = lines(&metrics);
    assert!(has(&lines, "# HELP http_requests_total Total HTTP requests"));
    assert!(has(&lines, "# TYPE http_requests_total counter"));
    assert!(has(
        &lines,
        "http_requests_total{method=\"POST\",path=\"/auth/token\",status=\"200\"} 2"
    ));
    assert!(has(
        &lines,
        "http_requests_total{method=\"POST\",path=\"/auth/token\",status=\"503\"} 1"
    ));
}

#[test]
fn label_values_that_read_the_same_in_a_row_are_one_series() {
    let mut metrics = new_metrics();
    request_finished(&mut metrics, "GET", "/a", 200, 1);
    request_finished(&mut metrics, "GET/", "a", 200, 1);
    let lines = lines(&metrics);
    assert!(has(&lines, "http_requests_total{method=\"GET\",path=\"/a\",status=\"200\"} 2"));
}

#[test]
fn durations_fall_within_their_bounds() {
    let bounds: [(u64, &str); 11] = [
        (5_000_000, "0.005"),
        (10_000_000, "0.01"),
        (25_000_000, "0.025"),
        (50_000_000, "0.05"),
        (100_000_000, "0.1"),
        (250_000_000, "0.25"),
        (500_000_000, "0.5"),
        (1_000_000_000, "1"),
        (2_500_000_000, "2.5"),
        (5_000_000_000, "5"),
        (10_000_000_000, "10"),
    ];
    let count = |lines: &[String], le: &str| -> u64 {
        let start = format!(
            "http_request_duration_seconds_bucket{{method=\"GET\",path=\"/\",status=\"200\",le=\"{le}\"}} "
        );
        lines.iter().find_map(|l| l.strip_prefix(&start)).unwrap().parse().unwrap()
    };
    for (i, (bound, _)) in bounds.iter().enumerate() {
        let mut metrics = new_metrics();
        request_finished(&mut metrics, "GET", "/", 200, *bound);
        request_finished(&mut metrics, "GET", "/", 200, *bound + 1);
        let lines = lines(&metrics);
        for (j, (_, le)) in bounds.iter().enumerate() {
            let expected = if j < i {
                0
            } else if j == i {
                1
            } else {
                2
            };
            assert_eq!(count(&lines, le), expected, "{bound} {le}");
        }
        assert_eq!(count(&lines, "+Inf"), 2);
        assert!(has(
            &lines,
            "http_request_duration_seconds_count{method=\"GET\",path=\"/\",status=\"200\"} 2"
        ));
    }
}

#[test]
fn sum_of_durations_is_in_seconds() {
    let mut metrics = new_metrics();
    request_finished(&mut metrics, "GET", "/", 404, 1_500_000_000);
    request_finished(&mut metrics, "GET", "/", 404, 500_000_000);
    let lines = lines(&metrics);
    assert!(has(
        &lines,
        "# HELP http_request_duration_seconds HTTP request duration in seconds"
    ));
    assert!(has(&lines, "# TYPE http_request_duration_seconds histogram"));
    assert!(has(
        &lines,
        "http_request_duration_seconds_sum{method=\"GET\",path=\"/\",status=\"404\"} 2"
    ));
}

#[test]
fn status_is_written_in_decimal() {
    for status in [0u16, 7, 10, 200, 65535] {
        let mut metrics = new_metrics();
        request_finished(&mut metrics, "GET", "/", status, 1);
        assert!(has(
            &lines(&metrics),
            &format!("http_requests_total{{method=\"GET\",path=\"/\",status=\"{status}\"}} 1")
        ));
    }
}

#[test]
fn endpoint_shows_the_metrics_as_text() {
    let (status, page) = metrics_endpoint(&new_metrics()).unwrap();
    assert_eq!(status, 200);
    assert_eq!(page.content_type, "text/plain; version=0.0.4");
    assert_eq!(page.payload, render_metrics(&new_metrics()).unwrap());
}

#[test]
fn failure_to_render_is_a_server_error() {
    let (status, body) = answer_rendering(Err("encode failed: x".to_owned())).unwrap_err();
    assert_eq!(
        (status, body.error, body.message),
        (500, "server_error", "failed to render metrics".to_owned())
    );
    let (status, page) = answer_rendering(Ok("p".to_owned())).unwrap();
    assert_eq!((status, page.payload), (200, "p".to_owned()));
}

#[test]
fn rendering_says_what_went_wrong() {
    assert_eq!(rendering_of(Err("x".to_owned())), Err("encode failed: x".to_owned()));
    assert_eq!(rendering_of(Ok("h\u{e9}".as_bytes().to_vec())), Ok("h\u{e9}".to_owned()));
    assert_eq!(
        rendering_of(Ok(vec![b'a', 0xff])),
        Err("utf8 conversion failed: invalid utf-8 sequence of 1 bytes from index 1".to_owned())
    );
}

#[test]
fn metrics_are_pushed_only_where_there_is_an_address() {
    let config = |url: &str| {
        let variables = vec![
            ("VM_PUSH_URL".to_owned(), url.to_owned()),
            ("VM_PUSH_INTERVAL_SECONDS".to_owned(), "3".to_owned()),
        ];
        read_config(&Environment { variables })
    };
    assert!(push_plan(&config(" ")).is_none());
    let plan = push_plan(&config(" http://v/ ")).unwrap();
    assert_eq!((plan.url.as_str(), plan.interval_seconds), ("http://v/", 3));
}

#[test]
fn pusher_sleeps_and_posts_in_turn() {
    let plan = PushPlan { url: "http://v/".to_owned(), interval_seconds: 15 };
    let sleeps = |event: PushEvent| matches!(next_action(&plan, event), PushAction::Sleep(15));
    assert!(sleeps(PushEvent::Started));
    assert!(sleeps(PushEvent::Woken(Err("e".to_owned()))));
    assert!(sleeps(PushEvent::Sent(Ok(()))));
    assert!(sleeps(PushEvent::Sent(Err("e".to_owned()))));
    match next_action(&plan, PushEvent::Woken(Ok("text".to_owned()))) {
        PushAction::Post { url, content_type, body } => {
            assert_eq!(url, "http://v/");
            assert_eq!(content_type, "text/plain; version=0.0.4");
            assert_eq!(body, "text");
        }
        PushAction::Sleep(_) => panic!("nothing was posted"),
    }
}
