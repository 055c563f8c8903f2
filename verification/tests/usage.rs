use xana::usage::{
    merge_affinities, merge_count, AgentTurnUsage, DeltaEvent, EventDeltaSink, ProviderUsage,
    SessionUsage, UsageCounter, UsageField,
};

#[test]
fn session_usage_labels_partial_provider_observations() {
    let mut usage = SessionUsage::default();
    usage.observe(AgentTurnUsage {
        input_tokens: Some(120),
        output_tokens: None,
        total_tokens: None,
        requests: 1,
        ..AgentTurnUsage::default()
    });
    usage.observe(AgentTurnUsage {
        input_tokens: Some(80),
        output_tokens: Some(20),
        total_tokens: Some(100),
        requests: 1,
        ..AgentTurnUsage::default()
    });

    let rendered = usage.render("0.000000");
    assert!(rendered.contains("input 200"));
    assert!(rendered.contains("output at least 20 (partial)"));
    assert!(rendered.contains("credit balance are separate observations"));
}

#[test]
fn usage_line_shows_every_detail_that_says_something() {
    let mut usage = SessionUsage::default();
    assert!(usage.render("0.000000").starts_with("Current process: no completed turns yet;"));
    usage.observe(AgentTurnUsage {
        requests: 2,
        input_tokens: Some(7),
        reasoning_tokens: Some(3),
        cost_microunits: Some(1_500_000),
        ..AgentTurnUsage::empty()
    });
    assert_eq!(
        usage.render("1.500000"),
        "Current process: 1 turn(s), 2 provider request(s) · input 7 · output 0 · total 0 · reasoning 3 · provider-reported cost $1.500000. Account quota, rate-limit reset, and credit balance are separate observations and may be unavailable."
    );
}

#[test]
fn counters_tell_known_partial_and_unknown_apart() {
    let mut counter = UsageCounter::default();
    assert_eq!(counter.render(), "0");
    counter.observe(None);
    assert_eq!(counter.render(), "unknown");
    assert_eq!(counter.render_microunits("0.000000"), "unknown");
    counter.observe(Some(4));
    assert_eq!(counter.render(), "at least 4 (partial)");
    assert_eq!(counter.render_microunits("0.000004"), "at least $0.000004 (partial)");
    counter.observe(Some(u64::MAX));
    assert_eq!(counter.value, u64::MAX);
}

#[test]
fn merged_counts_are_known_only_where_both_are() {
    assert_eq!(merge_count(Some(2), Some(3)), Some(5));
    assert_eq!(merge_count(Some(2), None), None);
    assert_eq!(merge_count(None, Some(2)), None);
    assert_eq!(merge_count(Some(u64::MAX), Some(1)), None);
    let merged = AgentTurnUsage { total_tokens: Some(4), requests: 1, ..AgentTurnUsage::empty() }
        .merge(AgentTurnUsage { total_tokens: None, requests: 2, ..AgentTurnUsage::empty() });
    assert_eq!(merged.total_tokens, None);
    assert_eq!(merged.input_tokens, Some(0));
    assert_eq!(merged.requests, 3);
}

#[test]
fn merged_affinities_repeat_nothing_and_stay_bounded() {
    let one = [1_u8; 16];
    let two = [2_u8; 16];
    assert_eq!(merge_affinities(vec![one], vec![one, two]), vec![one, two]);
    let many: Vec<[u8; 16]> = (0..70).map(|n| [n as u8; 16]).collect();
    let merged = merge_affinities(Vec::new(), many.clone());
    assert_eq!(merged.len(), 64);
    assert_eq!(merged[63], many[63]);
}

#[test]
fn usage_aggregates_only_what_every_request_reported() {
    let mut sink = EventDeltaSink::new();
    sink.report(ProviderUsage::unknown());
    assert_eq!(sink.request_usage(), None);
    sink.begin_request(1);
    sink.report(ProviderUsage {
        input_tokens: Some(3),
        output_tokens: Some(1),
        request_affinity: Some([9; 16]),
        ..ProviderUsage::unknown()
    });
    sink.begin_request(2);
    assert_eq!(sink.request_usage(), None);
    sink.report(ProviderUsage { input_tokens: Some(4), ..ProviderUsage::unknown() });
    let usage = sink.usage();
    assert_eq!(usage.requests, 2);
    assert_eq!(usage.input_tokens, Some(7));
    assert_eq!(usage.output_tokens, None);
    assert_eq!(usage.request_affinities, vec![[9_u8; 16]]);
    assert_eq!(
        xana::usage::complete_sum(&vec![None], UsageField::Total),
        None
    );
}

#[test]
fn generation_timing_resets_each_request_and_does_not_count_empty_deltas() {
    let mut sink = EventDeltaSink::new();
    sink.begin_request(100);
    sink.text_delta("", 105);
    assert!(sink.timing(false, true).first_delta.is_none());
    let event = sink.reasoning_delta("secret is never copied into timings", 110);
    assert_eq!(
        event,
        DeltaEvent::Reasoning("secret is never copied into timings".to_owned())
    );
    let first = sink.timing(false, true).first_delta;
    assert_eq!(first, Some(10));
    assert_eq!(
        sink.text_delta("final text", 150),
        DeltaEvent::Text("final text".to_owned())
    );
    assert_eq!(sink.timing(false, true).first_delta, first);
    sink.begin_request(200);
    assert!(sink.timing(true, false).first_delta.is_none());
}

#[test]
fn session_usage_is_the_same_in_any_order() {
    let turn = |input: Option<u64>, requests: u64| AgentTurnUsage {
        input_tokens: input,
        requests,
        ..AgentTurnUsage::empty()
    };
    let observed = |turns: Vec<AgentTurnUsage>| {
        let mut usage = SessionUsage::default();
        for turn in turns {
            usage.observe(turn);
        }
        usage.render("0.000000")
    };
    let forward = observed(vec![turn(Some(3), 1), turn(None, 2), turn(Some(5), 4)]);
    assert_eq!(
        forward,
        observed(vec![turn(Some(5), 4), turn(Some(3), 1), turn(None, 2)])
    );
    assert!(forward.contains("3 turn(s), 7 provider request(s) · input at least 8 (partial)"));
}

#[test]
fn request_usage_is_the_latest_report_since_the_request_began() {
    let report = |input: u64| ProviderUsage {
        input_tokens: Some(input),
        ..ProviderUsage::unknown()
    };
    let mut sink = EventDeltaSink::new();
    sink.begin_request(1);
    sink.report(report(1));
    sink.text_delta("text", 2);
    sink.report(report(2));
    sink.reasoning_delta("thought", 3);
    assert_eq!(sink.request_usage().and_then(|usage| usage.input_tokens), Some(2));
    sink.begin_request(4);
    assert_eq!(sink.request_usage(), None);
    sink.report(report(3));
    assert_eq!(sink.request_usage().and_then(|usage| usage.input_tokens), Some(3));
}
