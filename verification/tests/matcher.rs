use mimir_cardinality_analyzer::grafana::matcher::{any_hit, MetricMatcher};

fn found(metric: &str, text: &str) -> bool {
    MetricMatcher::new(metric).is_match(text).unwrap()
}

#[test]
fn pattern_is_the_escaped_name_between_delimiters() {
    assert_eq!(MetricMatcher::new("up").as_str(), r"(?:^|\W)up(?:\W|$)");
    assert_eq!(MetricMatcher::new("cpu.load").as_str(), r"(?:^|\W)cpu\.load(?:\W|$)");
    assert_eq!(MetricMatcher::new("req(total)").as_str(), r"(?:^|\W)req\(total\)(?:\W|$)");
    assert_eq!(MetricMatcher::new("").as_str(), r"(?:^|\W)(?:\W|$)");
}

#[test]
fn every_meta_character_is_escaped() {
    let matcher = MetricMatcher::new(r"\.+*?()|[]{}^$#&-~");
    assert_eq!(
        matcher.as_str(),
        r"(?:^|\W)\\\.\+\*\?\(\)\|\[\]\{\}\^\$\#\&\-\~(?:\W|$)"
    );
}

#[test]
fn characters_without_meaning_stay_as_they_are() {
    assert_eq!(
        MetricMatcher::new("node_cpu:rate5m/total").as_str(),
        r"(?:^|\W)node_cpu:rate5m/total(?:\W|$)"
    );
}

#[test]
fn metric_with_dot_matches_only_its_literal_occurrence() {
    assert!(found("cpu.load", "avg(cpu.load) > 1"));
    assert!(!found("cpu.load", "avg(cpuXload) > 1"));
    assert!(!found("cpu.load", "avg(cpu_load) > 1"));
}

#[test]
fn metric_with_parentheses_matches_only_its_literal_occurrence() {
    assert!(found("req(total)", "sum(x req(total) y)"));
    assert!(found("req(total)", "x + req(total)"));
    assert!(!found("req(total)", "sum(reqtotal)"));
    assert!(!found("req(total)", "sum(req total)"));
    assert!(!found("req(total)", "reqtotal"));
}

#[test]
fn name_that_ends_without_a_word_character_is_found_at_delimiters_and_edges() {
    assert!(found("req(total)", "x req(total) y"));
    assert!(found("req(total)", "req(total)"));
    assert!(found("req(total)", "sum(req(total))"));
    assert!(found("req(total)", "rate(req(total)[5m])"));
    assert!(!found("req(total)", "req(total)s"));
    assert!(!found("req(total)", "xreq(total)"));
    assert!(found("(up)", "sum((up))"));
    assert!(!found("(up)", "a(up)b"));
}

#[test]
fn metric_with_star_is_no_repetition() {
    assert!(found("a*b", "x a*b y"));
    assert!(!found("a*b", "x aaab y"));
    assert!(!found("a*b", "x b y"));
}

#[test]
fn metric_with_alternation_is_no_choice() {
    assert!(found("up|down", "x up|down y"));
    assert!(!found("up|down", "up"));
    assert!(!found("up|down", "down"));
}

#[test]
fn longer_token_does_not_satisfy_a_search_for_its_prefix() {
    assert!(!found("http_requests_total", "rate(http_requests_total_count[5m])"));
}

#[test]
fn shorter_token_does_not_satisfy_a_search_for_a_longer_name() {
    assert!(!found("http_requests_total_count", "rate(http_requests_total[5m])"));
}

#[test]
fn longer_token_does_not_satisfy_a_search_for_its_suffix() {
    assert!(!found("requests_total", "rate(http_requests_total[5m])"));
}

#[test]
fn metric_is_found_between_valid_delimiters() {
    assert!(found("http_requests_total", "rate(http_requests_total[5m])"));
    assert!(found("http_requests_total", "sum (http_requests_total) by (job)"));
    assert!(found("http_requests_total", "http_requests_total[5m]"));
    assert!(found("http_requests_total", "1 - http_requests_total"));
    assert!(found("http_requests_total", "a\thttp_requests_total\nb"));
    assert!(found("http_requests_total", "http_requests_total{job=\"api\"}"));
}

#[test]
fn metric_is_found_at_the_start_and_at_the_end_of_the_text() {
    assert!(found("http_requests_total", "http_requests_total"));
    assert!(found("http_requests_total", "http_requests_total > 0"));
    assert!(found("http_requests_total", "0 < http_requests_total"));
}

#[test]
fn digits_and_letters_continue_a_token() {
    assert!(!found("up", "up2"));
    assert!(!found("up", "setup"));
    assert!(!found("up", "2up"));
    assert!(found("up", "(up)"));
}

#[test]
fn nothing_is_found_in_an_empty_text() {
    assert!(!found("up", ""));
    assert!(!found("cpu.load", ""));
}

#[test]
fn underscore_and_digits_belong_to_a_token_and_other_signs_do_not() {
    assert!(!found("total", "requests_total"));
    assert!(!found("requests", "requests_total"));
    assert!(!found("requests", "requests2"));
    assert!(found("requests", "job:requests"));
    assert!(found("requests", "requests-1"));
    assert!(found("requests", "a/requests/b"));
    assert!(found("requests", "\"requests\""));
}

#[test]
fn match_each_answers_in_the_order_of_the_texts() {
    let matcher = MetricMatcher::new("up");
    let texts = vec!["up".to_string(), "down".to_string(), "sum(up)".to_string()];
    assert_eq!(matcher.match_each(&texts).unwrap(), vec![true, false, true]);
    assert_eq!(matcher.match_each(&Vec::new()).unwrap(), Vec::<bool>::new());
}

#[test]
fn match_each_agrees_with_is_match() {
    let matcher = MetricMatcher::new("cpu.load");
    let texts = vec!["cpu.load".to_string(), "cpuxload".to_string()];
    let hits = matcher.match_each(&texts).unwrap();
    assert_eq!(hits[0], matcher.is_match("cpu.load").unwrap());
    assert_eq!(hits[1], matcher.is_match("cpuxload").unwrap());
}

#[test]
fn oversized_name_is_refused_by_the_engine() {
    let name = "a".repeat(4_000_000);
    let outcome = MetricMatcher::new(&name).is_match("a");
    let error = outcome.unwrap_err();
    assert!(!error.message.is_empty());
}

#[test]
fn oversized_name_is_not_tried_without_texts() {
    let name = "a".repeat(4_000_000);
    assert!(MetricMatcher::new(&name).match_each(&Vec::new()).unwrap().is_empty());
    assert!(MetricMatcher::new(&name).match_each(&vec!["a".to_string()]).is_err());
}

#[test]
fn any_hit_tells_whether_some_answer_is_a_hit() {
    assert!(!any_hit(&vec![]));
    assert!(!any_hit(&vec![false, false]));
    assert!(any_hit(&vec![false, true]));
    assert!(any_hit(&vec![true]));
}
