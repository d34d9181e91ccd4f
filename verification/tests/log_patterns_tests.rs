use visdata::log_patterns::accumulator::{Hit, HitField, PatternAccumulator};
use visdata::log_patterns::config::PatternExtractionConfig;
use visdata::log_patterns::extractor::PatternExtractor;
use visdata::log_patterns::sdr::{SdrRecognizer, SdrType};
use visdata::log_patterns::types::{describe_template, Example, Pattern, Variable};

#[test]
fn test_ipv4_recognition() {
    let sdr = SdrRecognizer::new();
    assert_eq!(sdr.recognize("192.168.1.1"), SdrType::Ip);
    assert_eq!(sdr.recognize("10.0.0.1"), SdrType::Ip);
    assert_eq!(sdr.recognize("255.255.255.255"), SdrType::Ip);
}

#[test]
fn test_uuid_recognition() {
    let sdr = SdrRecognizer::new();
    assert_eq!(sdr.recognize("550e8400-e29b-41d4-a716-446655440000"), SdrType::Uuid);
    assert_eq!(sdr.recognize("A550E840-E29B-41D4-A716-446655440000"), SdrType::Uuid);
}

#[test]
fn test_timestamp_recognition() {
    let sdr = SdrRecognizer::new();
    assert_eq!(sdr.recognize("2025-01-01T00:00:00Z"), SdrType::Timestamp);
    assert_eq!(sdr.recognize("2025-01-01T00:00:00+08:00"), SdrType::Timestamp);
    assert_eq!(sdr.recognize("2025-01-01 12:30:45"), SdrType::Timestamp);
    assert_eq!(sdr.recognize("1735689600000"), SdrType::Timestamp);
}

#[test]
fn test_number_recognition() {
    let sdr = SdrRecognizer::new();
    assert_eq!(sdr.recognize("123"), SdrType::Num);
    assert_eq!(sdr.recognize("-456"), SdrType::Num);
    assert_eq!(sdr.recognize("3.14159"), SdrType::Num);
    assert_eq!(sdr.recognize("-2.718"), SdrType::Num);
}

#[test]
fn test_url_recognition() {
    let sdr = SdrRecognizer::new();
    assert_eq!(sdr.recognize("https://example.com"), SdrType::Url);
    assert_eq!(sdr.recognize("http://localhost:8080/api"), SdrType::Url);
}

#[test]
fn test_email_recognition() {
    let sdr = SdrRecognizer::new();
    assert_eq!(sdr.recognize("user@example.com"), SdrType::Email);
    assert_eq!(sdr.recognize("test.user@domain.org"), SdrType::Email);
}

#[test]
fn test_path_recognition() {
    let sdr = SdrRecognizer::new();
    assert_eq!(sdr.recognize("/var/log/app.log"), SdrType::Path);
    assert_eq!(sdr.recognize("/usr/local/bin"), SdrType::Path);
}

#[test]
fn test_hex_recognition() {
    let sdr = SdrRecognizer::new();
    assert_eq!(sdr.recognize("0x1a2b3c4d5e6f7890"), SdrType::Hex);
}

#[test]
fn test_string_fallback() {
    let sdr = SdrRecognizer::new();
    assert_eq!(sdr.recognize("hello"), SdrType::String);
    assert_eq!(sdr.recognize("ERROR"), SdrType::String);
    assert_eq!(sdr.recognize("user_logged_in"), SdrType::String);
}

#[test]
fn test_placeholder_format() {
    assert_eq!(SdrType::Ip.placeholder(), "<:IP>");
    assert_eq!(SdrType::Num.placeholder(), "<:NUM>");
    assert_eq!(SdrType::Uuid.placeholder(), "<:UUID>");
    assert_eq!(SdrType::String.placeholder(), "<:STRING>");
}

#[test]
fn variables_and_placeholders_of_tokens() {
    let sdr = SdrRecognizer::new();
    assert!(sdr.is_variable("10.0.0.1"));
    assert!(sdr.is_variable("req42"));
    assert!(!sdr.is_variable("hello"));
    assert!(sdr.is_variable("a_really_long_token_name_here"));
    assert_eq!(sdr.get_placeholder("42"), "<:NUM>");
    assert_eq!(SdrRecognizer::simple().get_placeholder("42"), "<*>");
}

#[test]
fn test_pattern_description_generation() {
    let pattern = Pattern::new(
        "p1".to_string(),
        "User <:STRING> logged in from <:IP>".to_string(),
        100,
    );

    assert_eq!(pattern.description, "User * logged in from *");
}

#[test]
fn pattern_builders_set_their_parts() {
    let pattern = Pattern::new("p1".to_string(), "Error <:NUM>".to_string(), 50)
        .with_variables(vec![Variable::new(0, "error_code".to_string(), "num".to_string())])
        .with_examples(vec![Example::new("Error 500".to_string())]);
    assert_eq!(pattern.variables.len(), 1);
    assert_eq!(pattern.examples.len(), 1);
    assert!(!pattern.is_anomaly);
    assert!(pattern.mark_anomaly().is_anomaly);
    assert_eq!(describe_template("<*> and <:UUID>"), "* and *");
}

fn hit(fields: &[(&str, Option<&str>)], json: &str) -> Hit {
    Hit {
        fields: Some(
            fields
                .iter()
                .map(|(k, v)| HitField { key: k.to_string(), text: v.map(|s| s.to_string()) })
                .collect(),
        ),
        json: json.to_string(),
    }
}

fn message_hit(m: &str) -> Hit {
    hit(&[("message", Some(m))], &format!("{{\"message\":\"{m}\"}}"))
}

#[test]
fn test_accumulator_basic() {
    let config = PatternExtractionConfig::default().with_max_logs(100);
    let mut acc = PatternAccumulator::new(config);

    let hits = vec![message_hit("User john logged in"), message_hit("User jane logged out")];

    acc.add_hits(&hits);

    assert_eq!(acc.len(), 2);
    assert!(!acc.is_at_capacity());

    let stats = acc.stats();
    assert_eq!(stats.accumulated_logs, 2);
    assert_eq!(stats.total_logs_seen, 2);
}

#[test]
fn test_accumulator_capacity() {
    let config = PatternExtractionConfig::default().with_max_logs(2);
    let mut acc = PatternAccumulator::new(config);

    let hits = vec![
        message_hit("Log 1"),
        message_hit("Log 2"),
        message_hit("Log 3"),
        message_hit("Log 4"),
    ];

    acc.add_hits(&hits);

    assert_eq!(acc.len(), 2);
    assert!(acc.is_at_capacity());

    let stats = acc.stats();
    assert_eq!(stats.accumulated_logs, 2);
    assert_eq!(stats.total_logs_seen, 4);
    assert!(stats.was_sampled);
}

#[test]
fn test_fts_field_extraction() {
    let config = PatternExtractionConfig::default().with_fts_fields(vec!["body".to_string()]);
    let mut acc = PatternAccumulator::new(config);

    let hits = vec![hit(
        &[("body", Some("This is the log body")), ("message", Some("Should be ignored"))],
        "{\"body\":\"This is the log body\",\"message\":\"Should be ignored\"}",
    )];

    acc.add_hits(&hits);

    let logs = acc.get_logs();
    assert_eq!(logs[0], "This is the log body");
}

#[test]
fn test_common_field_fallback() {
    let config = PatternExtractionConfig::default();
    let mut acc = PatternAccumulator::new(config);

    let hits = vec![
        hit(&[("msg", Some("Using msg field"))], "{\"msg\":\"Using msg field\"}"),
        hit(&[("log", Some("Using log field"))], "{\"log\":\"Using log field\"}"),
    ];

    acc.add_hits(&hits);

    assert_eq!(acc.len(), 2);
    assert_eq!(acc.get_logs()[0], "Using msg field");
    assert_eq!(acc.get_logs()[1], "Using log field");
}

#[test]
fn messages_fall_back_to_long_fields_then_json() {
    let mut acc = PatternAccumulator::new(PatternExtractionConfig::default());
    let hits = vec![
        hit(
            &[("_meta", Some("a metadata field that is long")), ("detail", Some("a detail that is quite long"))],
            "{}",
        ),
        hit(&[("level", Some("short")), ("count", None)], "{\"count\":3,\"level\":\"short\"}"),
        Hit { fields: None, json: "[1,2]".to_string() },
        hit(&[("message", Some(""))], "{\"message\":\"\"}"),
    ];
    acc.add_hits(&hits);
    assert_eq!(acc.get_logs(), &["a detail that is quite long".to_string(), "{\"count\":3,\"level\":\"short\"}".to_string()]);
    assert_eq!(acc.stats().total_logs_seen, 4);
    assert_eq!(acc.get_log_objects().len(), 2);
    assert_eq!(acc.into_logs().len(), 2);
}

#[test]
fn zero_limit_still_takes_one_message() {
    let mut acc = PatternAccumulator::new(PatternExtractionConfig::default().with_max_logs(0));
    acc.add_hits(&[message_hit("a"), message_hit("b")]);
    assert_eq!(acc.len(), 1);
    assert!(acc.is_at_capacity());
    assert!(!acc.is_empty());
}

fn half_similar(min_cluster_size: usize) -> PatternExtractionConfig {
    PatternExtractionConfig::default()
        .with_min_cluster_size(min_cluster_size)
        .with_similarity_threshold(1, 2)
}

#[test]
fn test_basic_extraction() {
    let mut extractor = PatternExtractor::new(half_similar(1));

    let logs = vec![
        "User john logged in from 192.168.1.1".to_string(),
        "User jane logged in from 192.168.1.2".to_string(),
        "User bob logged in from 10.0.0.1".to_string(),
    ];

    let patterns = extractor.extract(&logs);

    assert!(!patterns.is_empty());
    assert_eq!(patterns.len(), 1);
    assert_eq!(patterns[0].template, "User <:STRING> logged in from <:IP>");
    assert_eq!(patterns[0].frequency, 3);
    assert_eq!(patterns[0].pattern_id, "p0");
    assert_eq!(patterns[0].description, "User * logged in from *");
    assert_eq!(patterns[0].examples.len(), 3);
}

#[test]
fn test_different_patterns() {
    let mut extractor = PatternExtractor::new(half_similar(1));

    let logs = vec![
        "Error: connection failed".to_string(),
        "Error: connection failed".to_string(),
        "Warning: disk space low".to_string(),
    ];

    let patterns = extractor.extract(&logs);

    assert!(patterns.len() >= 1);
    assert_eq!(patterns.len(), 2);
    assert_eq!(patterns[0].frequency, 2);
    assert_eq!(patterns[1].template, "Warning: disk space low");
}

#[test]
fn test_min_cluster_size() {
    let mut extractor = PatternExtractor::new(half_similar(3));

    let logs = vec!["Log A".to_string(), "Log B".to_string(), "Log C".to_string()];

    let patterns = extractor.extract(&logs);

    assert!(patterns.is_empty() || patterns.iter().all(|p| p.frequency >= 3));
}

#[test]
fn test_variable_extraction() {
    let config = PatternExtractionConfig::default().with_min_cluster_size(1);
    let mut extractor = PatternExtractor::new(config);

    let logs = vec![
        "Request from 192.168.1.1 took 123 ms".to_string(),
        "Request from 10.0.0.1 took 456 ms".to_string(),
    ];

    let patterns = extractor.extract(&logs);

    if !patterns.is_empty() {
        let pattern = &patterns[0];
        assert!(!pattern.variables.is_empty());
    }
    assert_eq!(patterns[0].template, "Request from <:IP> took <:NUM> ms");
    let types: Vec<&str> = patterns[0].variables.iter().map(|v| v.var_type.as_str()).collect();
    assert_eq!(types, vec!["ip", "num"]);
    assert_eq!(patterns[0].variables[1].name, "var_1");
    assert_eq!(patterns[0].variables[1].index, 4);
}

#[test]
fn every_line_with_tokens_is_counted_once() {
    let mut extractor = PatternExtractor::new(half_similar(1));
    let logs: Vec<String> = vec![
        "a b c", "a b d", "x y", "   ", "x z", "a q r", "", "m",
    ]
    .into_iter()
    .map(String::from)
    .collect();
    let patterns = extractor.extract(&logs);
    let total: usize = patterns.iter().map(|p| p.frequency).sum();
    assert_eq!(total, 6);
}

#[test]
fn short_tokens_are_left_out() {
    let config = half_similar(1);
    let config = PatternExtractionConfig { min_field_length: 2, ..config };
    let mut extractor = PatternExtractor::new(config);
    let patterns = extractor.extract(&vec!["a bb c dd".to_string()]);
    assert_eq!(patterns[0].template, "bb dd");
}

#[test]
fn patterns_are_capped_at_max_clusters() {
    let config = PatternExtractionConfig { max_clusters: 2, ..half_similar(1) };
    let mut extractor = PatternExtractor::new(config);
    let logs: Vec<String> = vec!["one", "two words", "three more words", "four words in all"]
        .into_iter()
        .map(String::from)
        .collect();
    let patterns = extractor.extract(&logs);
    assert_eq!(patterns.len(), 2);
    assert_eq!(patterns[1].pattern_id, "p1");
}

#[test]
fn collected_messages_are_kept_across_batches() {
    let config = PatternExtractionConfig::default().with_max_logs(3);
    let mut acc = PatternAccumulator::new(config);
    acc.add_hits(&[message_hit("first line"), message_hit("second line")]);
    acc.add_hits(&[message_hit("third line"), message_hit("fourth line")]);
    assert_eq!(acc.get_logs(), &["first line".to_string(), "second line".to_string(), "third line".to_string()][..]);
    assert!(acc.is_at_capacity());
    acc.add_hits(&[message_hit("fifth line")]);
    assert_eq!(acc.len(), 3);
    assert_eq!(acc.stats().total_logs_seen, 5);
}
