use etp::configure::Task;
use etp::configure::build_workers;
use etp::configure::tasks_valid;
use etp::query::build_query;
use etp::query::render_query;
use etp::strnum::decimal_string;

fn term_status_ok() -> String {
    String::from("{\"term\":{\"status\":\"ok\"}}")
}

#[test]
fn decimal_rendering_exact() {
    assert_eq!(decimal_string(0), "0");
    assert_eq!(decimal_string(7), "7");
    assert_eq!(decimal_string(42), "42");
    assert_eq!(decimal_string(1440), "1440");
    assert_eq!(decimal_string(u64::MAX), "18446744073709551615");
}

#[test]
fn query_text_shape() {
    let doc = build_query(vec![term_status_ok()], None, 5);
    let text = render_query(&doc);
    assert_eq!(
        text,
        "{\"query\":{\"bool\":{\"filter\":[{\"term\":{\"status\":\"ok\"}},\
         {\"range\":{\"@timestamp\":{\"gte\":\"now-5m\",\"lte\":\"now\"}}}],\
         \"must_not\":null}}}"
    );
}

#[test]
fn query_text_empty_filter() {
    let doc = build_query(Vec::new(), None, 1);
    let text = render_query(&doc);
    assert_eq!(
        text,
        "{\"query\":{\"bool\":{\"filter\":[\
         {\"range\":{\"@timestamp\":{\"gte\":\"now-1m\",\"lte\":\"now\"}}}],\
         \"must_not\":null}}}"
    );
}

#[test]
fn query_text_with_excludes() {
    let excludes = vec![
        String::from("{\"term\":{\"env\":\"dev\"}}"),
        String::from("{\"term\":{\"env\":\"test\"}}"),
    ];
    let doc = build_query(vec![term_status_ok()], Some(excludes), 60);
    let text = render_query(&doc);
    assert_eq!(
        text,
        "{\"query\":{\"bool\":{\"filter\":[{\"term\":{\"status\":\"ok\"}},\
         {\"range\":{\"@timestamp\":{\"gte\":\"now-60m\",\"lte\":\"now\"}}}],\
         \"must_not\":[{\"term\":{\"env\":\"dev\"}},{\"term\":{\"env\":\"test\"}}]}}}"
    );
}

#[test]
fn query_build_is_deterministic() {
    let first = render_query(&build_query(vec![term_status_ok()], None, 5));
    let second = render_query(&build_query(vec![term_status_ok()], None, 5));
    assert_eq!(first, second);
}

#[test]
fn window_width_matches_period() {
    for period in [1u32, 5, 60, 1440] {
        let doc = build_query(Vec::new(), None, period);
        let text = render_query(&doc);
        let gte = format!("\"gte\":\"now-{}m\"", period);
        assert!(text.contains(&gte));
        assert!(text.contains("\"lte\":\"now\""));
    }
}

#[test]
fn workers_carry_task_identity_and_request() {
    let tasks = vec![
        Task {
            metric_name: String::from("orders_total"),
            period: 5,
            description: String::from("matched orders"),
            environment: String::from("prod"),
            filter: vec![term_status_ok()],
            must_not: None,
        },
        Task {
            metric_name: String::from("errors_total"),
            period: 1,
            description: String::from("matched errors"),
            environment: String::from("dev"),
            filter: Vec::new(),
            must_not: Some(vec![String::from("{\"term\":{\"level\":\"debug\"}}")]),
        },
    ];
    assert!(tasks_valid(&tasks));
    let workers = build_workers(&tasks);
    assert_eq!(workers.len(), 2);
    assert_eq!(workers[0].metric_name, "orders_total");
    assert_eq!(workers[0].period, 5);
    assert_eq!(workers[0].environment, "prod");
    assert_eq!(
        workers[0].request,
        "{\"query\":{\"bool\":{\"filter\":[{\"term\":{\"status\":\"ok\"}},\
         {\"range\":{\"@timestamp\":{\"gte\":\"now-5m\",\"lte\":\"now\"}}}],\
         \"must_not\":null}}}"
    );
    assert_eq!(workers[1].metric_name, "errors_total");
    assert_eq!(
        workers[1].request,
        "{\"query\":{\"bool\":{\"filter\":[\
         {\"range\":{\"@timestamp\":{\"gte\":\"now-1m\",\"lte\":\"now\"}}}],\
         \"must_not\":[{\"term\":{\"level\":\"debug\"}}]}}}"
    );
}

#[test]
fn zero_period_is_invalid() {
    let tasks = vec![Task {
        metric_name: String::from("orders_total"),
        period: 0,
        description: String::new(),
        environment: String::new(),
        filter: Vec::new(),
        must_not: None,
    }];
    assert!(!tasks_valid(&tasks));
}
