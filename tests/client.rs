use std::collections::HashMap;
use std::time::{SystemTime, UNIX_EPOCH};

use loki_ui::buffer::{decode_push_body, Buffer, Entry, Stream, Timestamp};
use loki_ui::client::{
    label_list_response, push_outcome, query_range_response, query_range_response_at,
    time_window, Loki, Method, ParamValue, Request,
};
use loki_ui::error::{Error, ErrorKind};
use loki_ui::json::Json;
use loki_ui::query::{results_from_json, LokiLabels, LokiResult, LokiValue, ResultShape};
use loki_ui::time::{from_nanos, from_seconds};
use loki_ui::screens::{
    query_key, remove_key, settings_key, Key, QueryAction, QueryFocus, RemoveAction, RemoveFocus,
    SettingsAction, SettingsFocus,
};
use loki_ui::ui::{Alert, Selection, Store};
use loki_ui::LokiConfig;

fn now() -> i64 {
    SystemTime::now().duration_since(UNIX_EPOCH).unwrap().as_secs() as i64
}

fn params(r: &Request) -> Vec<(String, String)> {
    r.params
        .iter()
        .map(|(k, v)| {
            let v = match v {
                ParamValue::Int(i) => format!("int:{i}"),
                ParamValue::Text(s) => format!("text:{s}"),
            };
            (k.clone(), v)
        })
        .collect()
}

fn pair(k: &str, v: &str) -> (String, String) {
    (k.to_string(), v.to_string())
}

fn entry(seconds: i64, line: &str) -> Entry {
    Entry { timestamp: Some(Timestamp { seconds, nanos: 0 }), line: line.to_string() }
}

fn label_map(r: &LokiResult) -> HashMap<String, String> {
    r.labels.iter().cloned().collect()
}

#[test]
fn push_of_one_message_decodes_to_one_stream() {
    let mut loki = Loki::new(String::from("http://localhost:3100"));
    let before = now();
    let req = loki
        .message_request(String::from("hello"), String::from("{job=\"a\"}"), None)
        .unwrap();
    let after = now();
    assert_eq!(req.method, Method::Post);
    assert_eq!(req.url, "http://localhost:3100/loki/api/v1/push");
    assert_eq!(req.content_type.as_deref(), Some("application/x-snappy"));
    assert!(req.params.is_empty());
    let streams = decode_push_body(&req.body).unwrap();
    assert_eq!(streams.len(), 1);
    assert_eq!(streams[0].labels, "{job=\"a\"}");
    assert_eq!(streams[0].entries.len(), 1);
    assert_eq!(streams[0].entries[0].line, "hello");
    let ts = streams[0].entries[0].timestamp.unwrap();
    assert_eq!(ts.nanos, 0);
    assert!(ts.seconds >= before - 1 && ts.seconds <= after + 1);
}

#[test]
fn push_of_message_at_given_time() {
    let mut loki = Loki::new(String::from("http://loki:3100"));
    let req = loki
        .message_request(String::from("line"), String::from("{job=\"b\"}"), Some(1_700_000_000))
        .unwrap();
    let streams = decode_push_body(&req.body).unwrap();
    assert_eq!(streams[0].entries[0].timestamp, Some(Timestamp { seconds: 1_700_000_000, nanos: 0 }));
}

#[test]
fn push_body_is_compressed_not_raw() {
    let mut buffer = Buffer::new();
    let line = "x".repeat(4000);
    let streams = vec![Stream { labels: String::from("{job=\"a\"}"), entries: vec![entry(1, &line)] }];
    let body = buffer.encode(&streams).unwrap();
    assert!(body.len() < 1000);
    let back = decode_push_body(&body).unwrap();
    assert_eq!(back[0].entries[0].line, line);
}

#[test]
fn buffer_round_trip_empty_request() {
    let mut buffer = Buffer::new();
    let body = buffer.encode(&Vec::new()).unwrap();
    assert!(!body.is_empty());
    let back = decode_push_body(&body).unwrap();
    assert!(back.is_empty());
}

#[test]
fn buffer_round_trip_large_batch_keeps_order() {
    let mut buffer = Buffer::new();
    let mut streams = Vec::new();
    for s in 0..50 {
        let entries = (0..200).map(|e| entry(e as i64, &format!("stream {s} line {e}"))).collect();
        streams.push(Stream { labels: format!("{{job=\"j{s}\"}}"), entries });
    }
    let body = buffer.encode(&streams).unwrap();
    let back = decode_push_body(&body).unwrap();
    assert_eq!(back.len(), 50);
    for (s, stream) in back.iter().enumerate() {
        assert_eq!(stream.labels, format!("{{job=\"j{s}\"}}"));
        assert_eq!(stream.entries.len(), 200);
        for (e, en) in stream.entries.iter().enumerate() {
            assert_eq!(en.line, format!("stream {s} line {e}"));
            assert_eq!(en.timestamp, Some(Timestamp { seconds: e as i64, nanos: 0 }));
        }
    }
    // The buffer is reused: a second, smaller request comes out whole.
    let small = vec![Stream { labels: String::from("{a=\"b\"}"), entries: vec![entry(7, "z")] }];
    let body = buffer.encode(&small).unwrap();
    let back = decode_push_body(&body).unwrap();
    assert_eq!(back.len(), 1);
    assert_eq!(back[0].entries[0].line, "z");
}

#[test]
fn push_body_that_is_not_snappy_is_a_parse_error() {
    let err = decode_push_body(&[0xff, 0xff, 0xff, 0xff, 0xff]).unwrap_err();
    assert_eq!(err.kind, ErrorKind::Parse);
}

#[test]
fn push_success_is_204_only() {
    assert!(push_outcome(204, String::new()).is_ok());
    for status in [200u16, 400, 500] {
        let err = push_outcome(status, String::from("body")).unwrap_err();
        assert_eq!(err.kind, ErrorKind::Status);
        assert_eq!(err.message, "Error sending data to Loki: body");
        assert!(err.source.is_none());
    }
}

#[test]
fn nanosecond_timestamp_round_trip() {
    for ns in [0i64, 1, 1_700_000_000_123_456_789, -1, -1_000_000_000, i64::MAX, i64::MIN] {
        let dt = from_nanos(ns, 3600);
        assert!(dt.nanos < 1_000_000_000);
        assert_eq!(dt.offset_seconds, 3600);
        assert_eq!(dt.timestamp_nanos(), Some(ns));
    }
    let dt = from_nanos(-1, 0);
    assert_eq!(dt.seconds, -1);
    assert_eq!(dt.nanos, 999_999_999);
    let dt = from_nanos(1_700_000_000_123_456_789, 0);
    assert_eq!(dt.timestamp(), 1_700_000_000);
    assert_eq!(dt.timestamp_subsec_nanos(), 123_456_789);
}

#[test]
fn second_timestamp_round_trip() {
    for s in [0i64, 1_700_000_000, -86_400] {
        let dt = from_seconds(s, -7200).unwrap();
        assert_eq!(dt.timestamp(), s);
        assert_eq!(dt.timestamp_subsec_nanos(), 0);
    }
    assert!(from_seconds(i64::MAX, 0).is_none());
    assert!(LokiValue::from_sec(i64::MIN, String::from("x"), 0).is_none());
}

#[test]
fn value_from_nano_text() {
    let v = LokiValue::from_nano("1700000000000000001", String::from("l"), 0).unwrap();
    assert_eq!(v.timestamp.seconds, 1_700_000_000);
    assert_eq!(v.timestamp.nanos, 1);
    assert_eq!(v.log_line, "l");
    assert!(LokiValue::from_nano("17x", String::from("l"), 0).is_none());
    assert!(LokiValue::from_nano("99999999999999999999", String::from("l"), 0).is_none());
    assert!(LokiValue::from_nano("", String::from("l"), 0).is_none());
    let v = LokiValue::from_nano("-5", String::from("l"), 0).unwrap();
    assert_eq!(v.timestamp.timestamp_nanos(), Some(-5));
}

const MATRIX: &str = r#"{"status":"success","data":{"resultType":"matrix","result":[
 {"metric":{"job":"a","instance":"localhost"},"values":[[1700000000,"2"],[1700000060,"3"]]},
 {"metric":{"job":"a","instance":"other"},"values":[[1700000120,"5"],[1700000180,"1"]]}]}}"#;

#[test]
fn matrix_answer_gives_two_series() {
    let results = query_range_response_at(200, MATRIX, 0).unwrap().results;
    assert_eq!(results.len(), 2);
    let l0: HashMap<String, String> =
        [pair("job", "a"), pair("instance", "localhost")].into_iter().collect();
    let l1: HashMap<String, String> =
        [pair("job", "a"), pair("instance", "other")].into_iter().collect();
    assert_eq!(label_map(&results[0]), l0);
    assert_eq!(label_map(&results[1]), l1);
    let v0: Vec<(i64, u32, &str)> = results[0]
        .values
        .iter()
        .map(|v| (v.timestamp.seconds, v.timestamp.nanos, v.log_line.as_str()))
        .collect();
    assert_eq!(v0, vec![(1_700_000_000, 0, "2"), (1_700_000_060, 0, "3")]);
    let v1: Vec<(i64, u32, &str)> = results[1]
        .values
        .iter()
        .map(|v| (v.timestamp.seconds, v.timestamp.nanos, v.log_line.as_str()))
        .collect();
    assert_eq!(v1, vec![(1_700_000_120, 0, "5"), (1_700_000_180, 0, "1")]);
}

#[test]
fn streams_answer_gives_lines_with_nanoseconds() {
    let body = r#"{"data":{"resultType":"streams","result":[
      {"stream":{"job":"a"},"values":[["1700000000000000005","first"],["1700000001000000000","second"]]}]}}"#;
    let results = query_range_response_at(200, body, 7200).unwrap().results;
    assert_eq!(results.len(), 1);
    assert_eq!(results[0].labels, vec![pair("job", "a")]);
    assert_eq!(results[0].values.len(), 2);
    assert_eq!(results[0].values[0].log_line, "first");
    assert_eq!(results[0].values[0].timestamp.seconds, 1_700_000_000);
    assert_eq!(results[0].values[0].timestamp.nanos, 5);
    assert_eq!(results[0].values[0].timestamp.offset_seconds, 7200);
    assert_eq!(results[0].values[1].log_line, "second");
    assert_eq!(results[0].values[1].timestamp.seconds, 1_700_000_001);
}

#[test]
fn other_result_type_gives_no_series() {
    let body = r#"{"data":{"resultType":"vector","result":[{"metric":{},"value":[1,"2"]}]}}"#;
    let results = query_range_response_at(200, body, 0).unwrap().results;
    assert!(results.is_empty());
    let body = r#"{"data":{"resultType":7,"result":[]}}"#;
    assert!(query_range_response_at(200, body, 0).unwrap().results.is_empty());
}

#[test]
fn shape_decides_the_parser() {
    // A matrix sample read as a stream fails, and the other way round.
    let streams_with_matrix_samples =
        r#"{"data":{"resultType":"streams","result":[{"stream":{},"values":[[1,"x"]]}]}}"#;
    let err = query_range_response_at(200, streams_with_matrix_samples, 0).unwrap_err();
    assert_eq!(err.kind, ErrorKind::Parse);
    let matrix_with_metric_missing =
        r#"{"data":{"resultType":"matrix","result":[{"stream":{},"values":[]}]}}"#;
    let err = query_range_response_at(200, matrix_with_metric_missing, 0).unwrap_err();
    assert_eq!(err.kind, ErrorKind::Parse);
}

#[test]
fn query_answer_errors() {
    let err = query_range_response_at(500, "boom", 0).unwrap_err();
    assert_eq!(err.kind, ErrorKind::Status);
    assert_eq!(err.message, "Error sending data to Loki: boom");
    assert!(err.source.is_none());
    assert_eq!(query_range_response_at(200, "not json", 0).unwrap_err().kind, ErrorKind::Parse);
    assert_eq!(query_range_response_at(200, "{}", 0).unwrap_err().kind, ErrorKind::Parse);
    assert_eq!(
        query_range_response(200, r#"{"data":{}}"#).unwrap_err().kind,
        ErrorKind::Parse
    );
    let ok = query_range_response(200, r#"{"data":{"resultType":"streams","result":[]}}"#);
    assert!(ok.unwrap().results.is_empty());
}

#[test]
fn non_string_label_is_a_parse_error() {
    let body = r#"{"data":{"resultType":"matrix","result":[{"metric":{"job":1},"values":[]}]}}"#;
    assert_eq!(query_range_response_at(200, body, 0).unwrap_err().kind, ErrorKind::Parse);
}

#[test]
fn results_from_json_reads_a_built_document() {
    let sample = Json::Array(vec![Json::Int(60), Json::Str(String::from("v"))]);
    let series = Json::Object(vec![
        (String::from("metric"), Json::Object(vec![(String::from("k"), Json::Str(String::from("v")))])),
        (String::from("values"), Json::Array(vec![sample])),
    ]);
    let data = Json::Object(vec![
        (String::from("resultType"), Json::Str(String::from("matrix"))),
        (String::from("result"), Json::Array(vec![series])),
    ]);
    let doc = Json::Object(vec![(String::from("data"), data)]);
    let r = results_from_json(&doc, 0).unwrap();
    assert_eq!(r.len(), 1);
    assert_eq!(r[0].labels, vec![pair("k", "v")]);
    assert_eq!(r[0].values[0].timestamp.seconds, 60);
}

#[test]
fn matrix_timestamps_must_be_integers() {
    let body = r#"{"data":{"resultType":"matrix","result":[{"metric":{},"values":[[1.5,"x"]]}]}}"#;
    assert_eq!(query_range_response_at(200, body, 0).unwrap_err().kind, ErrorKind::Parse);
    let body = r#"{"data":{"resultType":"matrix","result":[{"metric":{},"values":[[-60,"x"]]}]}}"#;
    let r = query_range_response_at(200, body, 0).unwrap().results;
    assert_eq!(r[0].values[0].timestamp.seconds, -60);
    let body = r#"{"data":{"resultType":"streams","result":[{"stream":{"a":"b"},"values":[["12",null]]}]}}"#;
    assert_eq!(query_range_response_at(200, body, 0).unwrap_err().kind, ErrorKind::Parse);
    assert_eq!(query_range_response_at(200, "{", 0).unwrap_err().kind, ErrorKind::Parse);
}

#[test]
fn delete_request_shape() {
    let loki = Loki::new(String::from("http://h"));
    let req = loki.delete_request_at(30_000, "{job=\"a\"}", None, None);
    assert_eq!(req.method, Method::Post);
    assert_eq!(req.url, "http://h/loki/api/v1/delete");
    assert_eq!(
        params(&req),
        vec![pair("start", "int:8400"), pair("end", "int:30000"), pair("query", "text:{job=\"a\"}")]
    );
    assert_eq!(loki.delete_request("q", Some(1), Some(2)).params.len(), 3);
}

#[test]
fn label_values_without_query_omits_the_parameter() {
    let loki = Loki::new(String::from("http://localhost:3100"));
    let req = loki.label_values_request_at(1000, "job", Some(10), Some(20), None);
    assert_eq!(req.method, Method::Get);
    assert_eq!(req.url, "http://localhost:3100/loki/api/v1/label/job/values");
    assert_eq!(params(&req), vec![pair("start", "int:10"), pair("end", "int:20")]);
    let req = loki.label_values_request_at(1000, "job", None, None, Some("{job=\"a\"}"));
    assert_eq!(
        params(&req),
        vec![pair("start", "int:-20600"), pair("end", "int:1000"), pair("query", "text:{job=\"a\"}")]
    );
    let req = loki.label_values_request("job", None, None, None);
    assert!(params(&req).iter().all(|(k, _)| k != "query"));
}

#[test]
fn query_range_request_defaults() {
    let loki = Loki::new(String::from("http://h"));
    let req = loki.query_range_request_at(100_000, "{job=\"a\"}", None, None, None);
    assert_eq!(req.url, "http://h/loki/api/v1/query_range");
    assert_eq!(
        params(&req),
        vec![
            pair("start", "int:78400"),
            pair("end", "int:100000"),
            pair("limit", "int:100"),
            pair("query", "text:{job=\"a\"}")
        ]
    );
    let req = loki.query_range_request_at(0, "q", Some(5), Some(1), Some(2));
    assert_eq!(
        params(&req),
        vec![pair("start", "int:1"), pair("end", "int:2"), pair("limit", "int:5"), pair("query", "text:q")]
    );
    let req = loki.query_range_request("q", None, None, None);
    assert_eq!(req.params.len(), 4);
    assert!(req.body.is_empty());
}

#[test]
fn labels_request_window() {
    let loki = Loki::new(String::from("http://h"));
    let req = loki.labels_request_at(50_000, None, Some(60_000));
    assert_eq!(req.url, "http://h/loki/api/v1/labels");
    assert_eq!(params(&req), vec![pair("start", "int:28400"), pair("end", "int:60000")]);
    assert_eq!(loki.labels_request(None, None).params.len(), 2);
}

#[test]
fn time_window_edges() {
    assert_eq!(time_window(i64::MIN, None, None), (i64::MIN, i64::MIN));
    assert_eq!(time_window(i64::MIN + 21_600, None, None), (i64::MIN, i64::MIN + 21_600));
    assert_eq!(time_window(21_600, None, None), (0, 21_600));
}

#[test]
fn label_list_answers() {
    let labels = label_list_response(200, r#"{"status":"success","data":["job","instance"]}"#).unwrap();
    assert_eq!(labels, vec![String::from("job"), String::from("instance")]);
    assert!(label_list_response(200, r#"{"status":"success","data":[]}"#).unwrap().is_empty());
    assert_eq!(label_list_response(404, "nope").unwrap_err().kind, ErrorKind::Status);
    assert_eq!(label_list_response(200, r#"{"data":["a"]}"#).unwrap_err().kind, ErrorKind::Parse);
    assert_eq!(
        label_list_response(200, r#"{"status":"success","data":[1]}"#).unwrap_err().kind,
        ErrorKind::Parse
    );
    let doc = Json::Object(vec![
        (String::from("status"), Json::Str(String::from("ok"))),
        (String::from("data"), Json::Array(vec![Json::Str(String::from("x"))])),
    ]);
    let l = LokiLabels::from_json(&doc).unwrap();
    assert_eq!(l.status, "ok");
    assert_eq!(l.data, vec![String::from("x")]);
}

#[test]
fn error_text() {
    let e = Error::new(String::from("failed"));
    assert_eq!(e.to_string(), "failed\n");
    let e = Error::with_source(String::from("cause"), String::from("failed"));
    assert_eq!(e.to_string(), "failed\ncause");
    assert_eq!(e.kind, ErrorKind::Unspecified);
    let e = Error::of_kind(ErrorKind::Transport, String::from("t"));
    assert_eq!(e.kind, ErrorKind::Transport);
    assert!(e.source.is_none());
}

#[test]
fn config_default_address() {
    assert_eq!(LokiConfig::default().loki_url, "http://localhost:3100");
}

#[test]
fn store_default_help_text() {
    let s = Store::default();
    assert!(s.results_changed);
    assert_eq!(s.results.len(), 3);
    assert_eq!(s.results[2], "Press q or esc to quit");
}

#[test]
fn alert_keys() {
    let mut alert = Alert::with_action("t", "x", 5u8);
    assert_eq!(alert.selection, Selection::Cancel);
    assert!(!alert.handle_key(Key::Other));
    assert!(!alert.handle_key(Key::Left));
    assert_eq!(alert.selection, Selection::Confirm);
    assert!(!alert.should_close());
    assert!(alert.handle_key(Key::Enter));
    assert!(alert.should_close());

    let mut alert: Alert<u8> = Alert::new("t", "x");
    alert.handle_key(Key::Left);
    assert!(!alert.handle_key(Key::Enter));
    assert!(alert.should_close());

    let mut alert = Alert::with_action("t", "x", 1u8);
    alert.handle_key(Key::Left);
    alert.handle_key(Key::Right);
    assert!(!alert.handle_key(Key::Enter));
    assert_eq!(alert.title, "t");
}

#[test]
fn query_screen_keys() {
    assert_eq!(query_key(QueryFocus::Query(false), Key::Enter), (QueryFocus::Query(true), QueryAction::Nothing));
    assert_eq!(query_key(QueryFocus::Query(true), Key::Char('q')), (QueryFocus::Query(true), QueryAction::EditQuery));
    assert_eq!(query_key(QueryFocus::Query(true), Key::Enter), (QueryFocus::Results(false), QueryAction::RunQuery));
    assert_eq!(query_key(QueryFocus::Query(true), Key::Esc), (QueryFocus::Query(false), QueryAction::Nothing));
    assert_eq!(query_key(QueryFocus::Results(false), Key::Up), (QueryFocus::Query(false), QueryAction::Nothing));
    assert_eq!(query_key(QueryFocus::Query(false), Key::Down), (QueryFocus::Results(false), QueryAction::Nothing));
    assert_eq!(query_key(QueryFocus::Results(true), Key::Up), (QueryFocus::Results(true), QueryAction::EditResults));
    assert_eq!(query_key(QueryFocus::Results(false), Key::Char('s')).1, QueryAction::OpenSettings);
    assert_eq!(query_key(QueryFocus::Results(false), Key::Char('d')).1, QueryAction::OpenRemove);
    assert_eq!(query_key(QueryFocus::Query(false), Key::Esc).1, QueryAction::Close);
    assert_eq!(query_key(QueryFocus::Query(false), Key::Char('x')), (QueryFocus::Query(false), QueryAction::Nothing));
}

#[test]
fn remove_screen_keys() {
    assert_eq!(remove_key(RemoveFocus::Query(false), Key::Left), (RemoveFocus::Query(false), RemoveAction::Nothing));
    assert_eq!(remove_key(RemoveFocus::Query(false), Key::Down), (RemoveFocus::CancelButton, RemoveAction::Nothing));
    assert_eq!(remove_key(RemoveFocus::CancelButton, Key::Left), (RemoveFocus::DeleteButton, RemoveAction::Nothing));
    assert_eq!(remove_key(RemoveFocus::DeleteButton, Key::Right), (RemoveFocus::CancelButton, RemoveAction::Nothing));
    assert_eq!(remove_key(RemoveFocus::DeleteButton, Key::Enter), (RemoveFocus::DeleteButton, RemoveAction::ConfirmDelete));
    assert_eq!(remove_key(RemoveFocus::CancelButton, Key::Enter).1, RemoveAction::Close);
    assert_eq!(remove_key(RemoveFocus::Query(true), Key::Char('q')), (RemoveFocus::Query(true), RemoveAction::EditQuery));
    assert_eq!(remove_key(RemoveFocus::Query(true), Key::Enter), (RemoveFocus::Query(false), RemoveAction::Nothing));
    assert_eq!(remove_key(RemoveFocus::DeleteButton, Key::Up), (RemoveFocus::Query(false), RemoveAction::Nothing));
}

#[test]
fn settings_screen_keys() {
    assert_eq!(settings_key(SettingsFocus::Idle, Key::Enter), (SettingsFocus::Url, SettingsAction::Nothing));
    assert_eq!(settings_key(SettingsFocus::Url, Key::Char('q')), (SettingsFocus::Url, SettingsAction::EditUrl));
    assert_eq!(settings_key(SettingsFocus::Url, Key::Esc), (SettingsFocus::Idle, SettingsAction::Nothing));
    assert_eq!(settings_key(SettingsFocus::Idle, Key::Char('q')), (SettingsFocus::Idle, SettingsAction::SaveAndClose));
    assert_eq!(settings_key(SettingsFocus::Idle, Key::Up), (SettingsFocus::Idle, SettingsAction::Nothing));
}

#[test]
fn answer_reports_its_shape() {
    let body = r#"{"data":{"resultType":"vector","result":[]}}"#;
    let answer = query_range_response_at(200, body, 0).unwrap();
    assert_eq!(answer.shape, ResultShape::Other);
    assert!(answer.results.is_empty());
    let answer = query_range_response_at(200, MATRIX, 0).unwrap();
    assert_eq!(answer.shape, ResultShape::Matrix);
    let body = r#"{"data":{"resultType":"streams","result":[]}}"#;
    assert_eq!(query_range_response_at(200, body, 0).unwrap().shape, ResultShape::Streams);
}

#[test]
fn status_errors_carry_the_answer_text() {
    for status in [204u16, 400, 500] {
        let err = query_range_response_at(status, "too many requests", 0).unwrap_err();
        assert_eq!(err.kind, ErrorKind::Status);
        assert_eq!(err.message, "Error sending data to Loki: too many requests");
        assert!(err.source.is_none());
        let err = label_list_response(status, "bad label").unwrap_err();
        assert_eq!(err.message, "Error sending data to Loki: bad label");
        assert!(err.source.is_none());
    }
}

#[test]
fn second_timestamps_within_chrono_range() {
    assert!(from_seconds(8_000_000_000_000, 0).is_some());
    assert!(from_seconds(-8_000_000_000_000, 0).is_some());
    assert!(from_seconds(9_000_000_000_001, 0).is_none());
    assert!(from_seconds(-9_000_000_000_001, 0).is_none());
}

#[test]
fn push_body_is_the_same_for_the_same_streams() {
    let streams = vec![Stream { labels: String::from("{job=\"a\"}"), entries: vec![entry(3, "same")] }];
    let mut a = Buffer::new();
    let mut b = Buffer::new();
    let first = a.encode(&streams).unwrap();
    let _ = a.encode(&vec![Stream { labels: String::from("{x=\"y\"}"), entries: vec![] }]).unwrap();
    assert_eq!(a.encode(&streams).unwrap(), first);
    assert_eq!(b.encode(&streams).unwrap(), first);
}

#[test]
fn repeated_label_name_keeps_the_last_value() {
    let labels = vec![
        (String::from("job"), Json::Str(String::from("a"))),
        (String::from("host"), Json::Str(String::from("h"))),
        (String::from("job"), Json::Str(String::from("b"))),
    ];
    let r = LokiResult::from_json(&labels, Vec::new()).unwrap();
    assert_eq!(r.labels, vec![pair("job", "b"), pair("host", "h")]);
    let bad = vec![(String::from("job"), Json::Null)];
    assert!(LokiResult::from_json(&bad, Vec::new()).is_none());
}
