use rqlite_rs::config::Scheme;
use rqlite_rs::request::{
    Method, RequestOptions, RequestQueryParam, RequestQueryParams, RqliteFreshnessLevel,
    RqliteQueryParam, RqliteQueryParams, Seconds,
};

fn full_query_params() -> RqliteQueryParams {
    RqliteQueryParams::new()
        .pretty()
        .timings()
        .transaction()
        .queue()
        .timeout(Seconds::new(10).unwrap())
        .level(RqliteFreshnessLevel::Weak)
        .freshness(Seconds::new(5).unwrap())
        .freshness_strict()
        .norwrandom()
        .ver("1".to_string())
        .blob_array()
}

fn pair(name: &str, value: &str) -> (String, String) {
    (name.to_string(), value.to_string())
}

#[test]
fn unit_request_query_params() {
    let params = full_query_params();
    let req_params = RequestQueryParams::from(params);

    assert_eq!(req_params.0.len(), 11);
}

#[test]
fn unit_request_query_params_into_reqwest_query() {
    let params = full_query_params();
    let req_params = RequestQueryParams::from(params);

    let reqwest_query = req_params.into_reqwest_query();

    assert_eq!(reqwest_query.len(), 11);
}

#[test]
fn unit_request_options_default() {
    let req = RequestOptions::default();

    assert_eq!(req.method, Method::Post);
    assert_eq!(req.endpoint, "db/request");
    assert_eq!(req.body, None);
    assert!(req.params.is_none());
}

#[test]
fn unit_request_options_to_reqwest_request() {
    let req = RequestOptions {
        params: Some(RequestQueryParams::from(full_query_params())),
        ..Default::default()
    };
    let client = reqwest::Client::new();
    let host = "localhost";
    let scheme = Scheme::Http;

    let plain = req.to_reqwest_request(host, &scheme);
    assert_eq!(plain.method, Method::Post);
    let reqwest_req = client
        .request(reqwest::Method::POST, plain.url.as_str())
        .query(&plain.query.unwrap());

    let reqwest_req = reqwest_req.build().unwrap();

    assert_eq!(reqwest_req.method(), reqwest::Method::POST);

    // check query scheme, host and params
    let url = reqwest_req.url().to_string();

    assert!(url.starts_with("http://localhost/db/request"));

    let query = reqwest_req.url().query().unwrap();

    assert!(query.contains("pretty=true"));
    assert!(query.contains("timings=true"));
    assert!(query.contains("transaction=true"));
    assert!(query.contains("queue=true"));
    assert!(query.contains("timeout=10s"));
    assert!(query.contains("level=weak"));
    assert!(query.contains("freshness=5s"));
    assert!(query.contains("freshness_strict=true"));
    assert!(query.contains("norwrandom=true"));
    assert!(query.contains("ver=1"));
    assert!(query.contains("blob_array=true"));
}

#[test]
fn unit_request_options_merge_default_query_params() {
    let mut req = RequestOptions::default();
    let default_params = RequestQueryParams::from(full_query_params());

    req.merge_default_query_params(&default_params);

    assert!(req.params.is_some());

    let req_params = req.params.unwrap();

    assert_eq!(req_params.0.len(), 11);
}

#[test]
fn unit_request_merge() {
    // Bool params
    let mut params1 = RequestQueryParams::new();
    params1
        .0
        .push(RequestQueryParam::Bool("pretty".to_string()));
    let mut params2 = RequestQueryParams::new();
    params2
        .0
        .push(RequestQueryParam::Bool("pretty".to_string()));
    params2
        .0
        .push(RequestQueryParam::Bool("timings".to_string()));

    params1.merge(params2);

    assert_eq!(params1.0.len(), 2);

    // KV params
    let mut params1 = RequestQueryParams::new();
    params1.0.push(RequestQueryParam::KV(
        "timeout".to_string(),
        "10s".to_string(),
    ));
    let mut params2 = RequestQueryParams::new();
    params2.0.push(RequestQueryParam::KV(
        "timeout".to_string(),
        "10s".to_string(),
    ));
    params2.0.push(RequestQueryParam::KV(
        "level".to_string(),
        "weak".to_string(),
    ));

    params1.merge(params2);

    assert_eq!(params1.0.len(), 2);

    // Mixed params KV and Bool
    let mut params1 = RequestQueryParams::new();
    params1.0.push(RequestQueryParam::KV(
        "timeout".to_string(),
        "10s".to_string(),
    ));
    let mut params2 = RequestQueryParams::new();
    params2
        .0
        .push(RequestQueryParam::Bool("pretty".to_string()));
    params2.0.push(RequestQueryParam::KV(
        "timeout".to_string(),
        "10s".to_string(),
    ));
    params2.0.push(RequestQueryParam::KV(
        "level".to_string(),
        "weak".to_string(),
    ));

    params1.merge(params2);

    assert_eq!(params1.0.len(), 3);

    // Mixed params Bool and KV
    let mut params1 = RequestQueryParams::new();
    params1
        .0
        .push(RequestQueryParam::Bool("pretty".to_string()));
    let mut params2 = RequestQueryParams::new();
    params2.0.push(RequestQueryParam::KV(
        "timeout".to_string(),
        "10s".to_string(),
    ));
    params2.0.push(RequestQueryParam::KV(
        "level".to_string(),
        "weak".to_string(),
    ));
    params2
        .0
        .push(RequestQueryParam::Bool("pretty".to_string()));

    params1.merge(params2);

    assert_eq!(params1.0.len(), 3);
}

#[test]
fn unit_freshness_level_to_string() {
    assert_eq!(RqliteFreshnessLevel::NoLevel.to_string(), "none");
    assert_eq!(RqliteFreshnessLevel::Weak.to_string(), "weak");
    assert_eq!(RqliteFreshnessLevel::Strong.to_string(), "strong");
}

#[test]
fn every_parameter_is_sent_under_its_name_and_value() {
    let pairs = RequestQueryParams::from(full_query_params()).into_reqwest_query();
    assert_eq!(
        pairs,
        vec![
            pair("pretty", "true"),
            pair("timings", "true"),
            pair("transaction", "true"),
            pair("queue", "true"),
            pair("timeout", "10s"),
            pair("level", "weak"),
            pair("freshness", "5s"),
            pair("freshness_strict", "true"),
            pair("norwrandom", "true"),
            pair("ver", "1"),
            pair("blob_array", "true"),
        ]
    );
}

#[test]
fn flags_and_values_keep_their_kind() {
    assert!(matches!(
        RqliteQueryParam::Pretty.into_request_query_param(),
        RequestQueryParam::Bool(name) if name == "pretty"
    ));
    assert!(matches!(
        RqliteQueryParam::BlobArray.into_request_query_param(),
        RequestQueryParam::Bool(name) if name == "blob_array"
    ));
    assert!(matches!(
        RqliteQueryParam::Level(RqliteFreshnessLevel::Strong).into_request_query_param(),
        RequestQueryParam::KV(name, value) if name == "level" && value == "strong"
    ));
    assert!(matches!(
        RqliteQueryParam::Level(RqliteFreshnessLevel::NoLevel).into_request_query_param(),
        RequestQueryParam::KV(name, value) if name == "level" && value == "none"
    ));
    assert!(matches!(
        RqliteQueryParam::Ver("2".to_string()).into_request_query_param(),
        RequestQueryParam::KV(name, value) if name == "ver" && value == "2"
    ));
}

#[test]
fn seconds_are_written_in_decimal() {
    for (count, text) in [
        (1u16, "1s"),
        (9, "9s"),
        (10, "10s"),
        (99, "99s"),
        (100, "100s"),
        (1005, "1005s"),
        (65535, "65535s"),
    ] {
        let seconds = Seconds::new(count).unwrap();
        assert_eq!(seconds.get(), count);
        assert!(matches!(
            RqliteQueryParam::Timeout(seconds).into_request_query_param(),
            RequestQueryParam::KV(name, value) if name == "timeout" && value == text
        ));
        assert!(matches!(
            RqliteQueryParam::Freshness(seconds).into_request_query_param(),
            RequestQueryParam::KV(name, value) if name == "freshness" && value == text
        ));
    }
}

#[test]
fn zero_seconds_are_refused() {
    assert!(Seconds::new(0).is_none());
    assert!(Seconds::new(1).is_some());
}

#[test]
fn is_same_key_compares_names_only() {
    let flag = RequestQueryParam::Bool("level".to_string());
    let weak = RequestQueryParam::KV("level".to_string(), "weak".to_string());
    let strong = RequestQueryParam::KV("level".to_string(), "strong".to_string());
    let other = RequestQueryParam::KV("ver".to_string(), "weak".to_string());
    assert!(flag.is_same_key(&weak));
    assert!(weak.is_same_key(&strong));
    assert!(weak.is_same_key(&weak));
    assert!(!weak.is_same_key(&other));
    assert!(!other.is_same_key(&flag));
}

#[test]
fn merge_keeps_the_first_value_of_a_name() {
    let mut own = RequestQueryParams::new();
    own.0.push(RequestQueryParam::KV("level".to_string(), "strong".to_string()));
    own.0.push(RequestQueryParam::Bool("pretty".to_string()));
    let mut defaults = RequestQueryParams::new();
    defaults.0.push(RequestQueryParam::KV("level".to_string(), "weak".to_string()));
    defaults.0.push(RequestQueryParam::KV("ver".to_string(), "2".to_string()));
    defaults.0.push(RequestQueryParam::KV("ver".to_string(), "3".to_string()));
    defaults.0.push(RequestQueryParam::KV("pretty".to_string(), "no".to_string()));
    defaults.0.push(RequestQueryParam::Bool("timings".to_string()));

    own.merge(defaults);

    assert_eq!(
        own.into_reqwest_query(),
        vec![
            pair("level", "strong"),
            pair("pretty", "true"),
            pair("ver", "2"),
            pair("timings", "true"),
        ]
    );
}

#[test]
fn merge_with_nothing_changes_nothing() {
    let mut own = RequestQueryParams::new();
    own.0.push(RequestQueryParam::Bool("pretty".to_string()));
    own.merge(RequestQueryParams::new());
    assert_eq!(own.into_reqwest_query(), vec![pair("pretty", "true")]);

    let mut empty = RequestQueryParams::new();
    let mut other = RequestQueryParams::new();
    other.0.push(RequestQueryParam::Bool("queue".to_string()));
    empty.merge(other);
    assert_eq!(empty.into_reqwest_query(), vec![pair("queue", "true")]);
}

#[test]
fn merging_defaults_into_a_request_keeps_its_own_parameters() {
    let mut req = RequestOptions {
        method: Method::Get,
        endpoint: "nodes".to_string(),
        body: Some("x".to_string()),
        params: Some(RequestQueryParams::from(RqliteQueryParams::new().ver("2".to_string()))),
    };
    let defaults = RequestQueryParams::from(
        RqliteQueryParams::new().ver("9".to_string()).blob_array(),
    );
    req.merge_default_query_params(&defaults);
    req.merge_default_query_params(&defaults);
    assert_eq!(req.method, Method::Get);
    assert_eq!(req.endpoint, "nodes");
    assert_eq!(req.body, Some("x".to_string()));
    assert_eq!(
        req.params.unwrap().into_reqwest_query(),
        vec![pair("ver", "2"), pair("blob_array", "true")]
    );
}

#[test]
fn a_request_is_bound_to_its_host() {
    let req = RequestOptions {
        method: Method::Delete,
        endpoint: "remove".to_string(),
        body: Some("{\"id\":\"1\"}".to_string()),
        params: None,
    };
    let plain = req.to_reqwest_request("localhost:4001", &Scheme::Https);
    assert_eq!(plain.method, Method::Delete);
    assert_eq!(plain.url, "https://localhost:4001/remove");
    assert_eq!(plain.body, Some("{\"id\":\"1\"}".to_string()));
    assert!(plain.query.is_none());

    let req = RequestOptions {
        params: Some(RequestQueryParams::from(RqliteQueryParams::new().queue())),
        ..Default::default()
    };
    let plain = req.to_reqwest_request("db.example:80", &Scheme::Http);
    assert_eq!(plain.url, "http://db.example:80/db/request");
    assert_eq!(plain.body, None);
    assert_eq!(plain.query, Some(vec![pair("queue", "true")]));
}

#[test]
fn parameters_from_a_list_keep_their_order() {
    let params = RqliteQueryParams::from(vec![
        RqliteQueryParam::Queue,
        RqliteQueryParam::Ver("2".to_string()),
        RqliteQueryParam::Pretty,
    ]);
    assert_eq!(
        params.into_request_query_params().into_reqwest_query(),
        vec![pair("queue", "true"), pair("ver", "2"), pair("pretty", "true")]
    );
    assert_eq!(RqliteQueryParams::default().into_request_query_params().0.len(), 0);
    assert_eq!(RequestQueryParams::default().0.len(), 0);
}

#[test]
fn a_copy_of_the_parameters_is_the_same() {
    let params = RequestQueryParams::from(full_query_params());
    let copy = params.clone();
    assert_eq!(copy.into_reqwest_query(), params.into_reqwest_query());
}

#[test]
fn merge_keeps_flags_as_flags_and_pairs_as_pairs() {
    let mut own = RequestQueryParams::new();
    own.0.push(RequestQueryParam::KV("pretty".to_string(), "true".to_string()));
    let mut defaults = RequestQueryParams::new();
    defaults.0.push(RequestQueryParam::Bool("pretty".to_string()));
    defaults.0.push(RequestQueryParam::Bool("timings".to_string()));
    defaults.0.push(RequestQueryParam::KV("queue".to_string(), "true".to_string()));

    own.merge(defaults);

    assert_eq!(own.0.len(), 3);
    assert!(matches!(&own.0[0], RequestQueryParam::KV(name, value) if name == "pretty" && value == "true"));
    assert!(matches!(&own.0[1], RequestQueryParam::Bool(name) if name == "timings"));
    assert!(matches!(&own.0[2], RequestQueryParam::KV(name, value) if name == "queue" && value == "true"));
}

#[test]
fn converted_parameters_keep_their_kind() {
    let sent = full_query_params().into_request_query_params();
    let flags: Vec<bool> = sent
        .0
        .iter()
        .map(|param| matches!(param, RequestQueryParam::Bool(_)))
        .collect();
    assert_eq!(
        flags,
        vec![true, true, true, true, false, false, false, true, true, false, true]
    );
}
