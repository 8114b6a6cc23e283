use etp::elastic::Counter;
use etp::elastic::ElkError;
use etp::elastic::classify_response;
use etp::exposition::render_exposition;
use etp::poll::idle_seconds;
use etp::poll::poll_step;
use etp::registry::Label;
use etp::registry::Registry;

#[test]
fn classification_of_raw_outcomes() {
    assert_eq!(classify_response(false, false, None), Err(ElkError::Request));
    assert_eq!(classify_response(false, true, Some(3)), Err(ElkError::Request));
    assert_eq!(classify_response(true, false, None), Err(ElkError::UnexpectedResponse));
    assert_eq!(classify_response(true, true, None), Err(ElkError::UnexpectedResponse));
    assert_eq!(classify_response(true, true, Some(42)), Ok(Counter { count: 42 }));
}

#[test]
fn idle_phase_lasts_the_period() {
    assert_eq!(idle_seconds(1), 60);
    assert_eq!(idle_seconds(5), 300);
    assert_eq!(idle_seconds(1440), 86400);
}

#[test]
fn failure_touches_only_the_error_counter() {
    let mut reg = Registry::new();
    let err_h = reg
        .register(String::from("etp_bad_request"), String::from("bad elk request"), Vec::new())
        .unwrap();
    let task_h = reg
        .register(String::from("orders_total"), String::from("matched orders"), Vec::new())
        .unwrap();
    poll_step(&mut reg, task_h, err_h, Ok(Counter { count: 11 }));
    poll_step(&mut reg, task_h, err_h, Err(ElkError::Request));
    assert_eq!(reg.entries[task_h].value, 11);
    assert_eq!(reg.entries[err_h].value, 1);
    poll_step(&mut reg, task_h, err_h, Err(ElkError::UnexpectedResponse));
    assert_eq!(reg.entries[task_h].value, 11);
    assert_eq!(reg.entries[err_h].value, 2);
}

#[test]
fn exposition_of_fresh_registry() {
    let mut reg = Registry::new();
    reg.register(String::from("etp_bad_request"), String::from("bad elk request"), Vec::new())
        .unwrap();
    let text = render_exposition(&reg.snapshot());
    assert_eq!(
        text,
        "# HELP etp_bad_request bad elk request\n\
         # TYPE etp_bad_request counter\n\
         etp_bad_request 0\n"
    );
}

#[test]
fn five_minute_task_end_to_end() {
    let mut reg = Registry::new();
    let err_h = reg
        .register(String::from("etp_bad_request"), String::from("bad elk request"), Vec::new())
        .unwrap();
    let labels = vec![
        Label { key: String::from("environment"), value: String::from("prod") },
        Label { key: String::from("period"), value: String::from("5") },
    ];
    let task_h = reg
        .register(String::from("orders_total"), String::from("matched orders"), labels)
        .unwrap();

    // First poll: 42 matched events.
    let outcome = classify_response(true, true, Some(42));
    poll_step(&mut reg, task_h, err_h, outcome);
    assert_eq!(reg.entries[task_h].value, 42);
    assert_eq!(reg.entries[err_h].value, 0);

    // Second poll, after the five-minute idle phase: transport failure.
    assert_eq!(idle_seconds(5), 300);
    let outcome = classify_response(false, false, None);
    poll_step(&mut reg, task_h, err_h, outcome);
    assert_eq!(reg.entries[task_h].value, 42);
    assert_eq!(reg.entries[err_h].value, 1);

    // Third poll: 8 more matched events.
    let outcome = classify_response(true, true, Some(8));
    poll_step(&mut reg, task_h, err_h, outcome);
    assert_eq!(reg.entries[task_h].value, 50);
    assert_eq!(reg.entries[err_h].value, 1);

    let text = render_exposition(&reg.snapshot());
    assert_eq!(
        text,
        "# HELP etp_bad_request bad elk request\n\
         # TYPE etp_bad_request counter\n\
         etp_bad_request 1\n\
         # HELP orders_total matched orders\n\
         # TYPE orders_total counter\n\
         orders_total{environment=\"prod\",period=\"5\"} 50\n"
    );
}
