use kosmos::address::{compose, validate, within_limit};
use kosmos::date::Date;
use kosmos::document::{format_decimal, read_count};
use kosmos::error::{Error, ErrorKind};
use kosmos::exchange::{begin, step, Action, Event, Stage};
use kosmos::nasa::apod::apod_shape;
use kosmos::nasa::neo::{neo_shape, OrbitingBody};
use kosmos::nasa::tle::{satellite_page_shape, satellite_shape};
use kosmos::nasa::{resolve, NasaAuth, NasaClient};
use kosmos::query::{format_flag, QueryParameterSet};
use kosmos::shape::{check, Kind, Problem, Segment, Shape};
use kosmos::Kosmos;

fn path_text(path: &[Segment]) -> String {
    let mut out = String::new();
    for segment in path {
        match segment {
            Segment::Field(name) => {
                if !out.is_empty() {
                    out.push('.');
                }
                out.push_str(name);
            }
            Segment::Index(i) => out.push_str(&format!("[{}]", i)),
        }
    }
    out
}

fn approach(with_miss_distance: bool) -> String {
    let miss = if with_miss_distance {
        r#""miss_distance": {"astronomical": 0.1, "lunar": 40.5, "kilometers": 15000000.5, "miles": 9000000},"#
    } else {
        ""
    };
    format!(
        r#"{{"close_approach_date": "2020-10-02", "close_approach_date_full": "2020-Oct-02 10:00",
            "epoch_date_close_approach": 1601632800000,
            "relative_velocity": {{"kilometers_per_second": 7.5, "kilometers_per_hour": 27000.1, "miles_per_hour": 16777.2}},
            {} "orbiting_body": "Earth"}}"#,
        miss
    )
}

fn neo_body(approaches: &[String]) -> String {
    let range = r#"{"estimated_diameter_min": 0.1, "estimated_diameter_max": 0.3}"#;
    format!(
        r#"{{"id": "3542519", "neo_reference_id": "3542519", "name": "(2010 PK9)", "designation": "2010 PK9",
            "nasa_jpl_url": "http://ssd.jpl.nasa.gov/sbdb.cgi?sstr=3542519", "absolute_magnitude_h": 21.8,
            "estimated_diameter": {{"kilometers": {r}, "meters": {r}, "miles": {r}, "feet": {r}}},
            "is_potentially_hazardous_asteroid": true,
            "close_approach_data": [{a}],
            "is_sentry_object": false}}"#,
        r = range,
        a = approaches.join(",")
    )
}

fn apod_body(date: &str) -> String {
    format!(
        r#"{{"date": "{}", "explanation": "A galaxy.", "hdurl": "https://apod.nasa.gov/apod/image/hd.jpg",
            "media_type": "image", "service_version": "v1", "title": "Galaxy",
            "url": "https://apod.nasa.gov/apod/image/sd.jpg"}}"#,
        date
    )
}

fn deliver(opened: (Stage, Action), body: &str) -> Action {
    let (stage, action) = opened;
    assert!(matches!(action, Action::Get(_)));
    let (stage, action) = step(stage, Event::Responded);
    assert!(matches!(action, Action::ReadBody));
    let (stage, action) = step(stage, Event::Body(body.to_string()));
    assert!(matches!(stage, Stage::Finished));
    action
}

#[test]
fn key_falls_back_to_demo_when_unset() {
    assert_eq!(resolve(None, "DEMO_KEY"), "DEMO_KEY");
    assert_eq!(NasaClient::new(None).api_key, "DEMO_KEY");
    assert!(matches!(NasaAuth::from_configured(None), NasaAuth::Demo(k) if k == "DEMO_KEY"));
    assert!(matches!(NasaAuth::default(), NasaAuth::Demo(k) if k == "DEMO_KEY"));
    assert_eq!(Kosmos::new().nasa(None).api_key, "DEMO_KEY");
}

#[test]
fn key_is_taken_verbatim_when_set() {
    assert_eq!(resolve(Some("abc 123".to_string()), "DEMO_KEY"), "abc 123");
    assert_eq!(NasaClient::new(Some("s3cret".to_string())).api_key, "s3cret");
    let auth = NasaAuth::from_configured(Some("s3cret".to_string()));
    assert!(matches!(&auth, NasaAuth::ApiKey(k) if k == "s3cret"));
    assert_eq!(auth.key(), "s3cret");
}

#[test]
fn empty_key_degrades_to_demo() {
    assert_eq!(resolve(Some(String::new()), "DEMO_KEY"), "DEMO_KEY");
    assert_eq!(NasaClient::new(Some(String::new())).api_key, "DEMO_KEY");
    assert!(matches!(NasaAuth::from_configured(Some(String::new())), NasaAuth::Demo(_)));
}

#[test]
fn agent_is_kosmos() {
    assert_eq!(Kosmos::new().agent, "kosmos");
}

#[test]
fn date_is_written_zero_padded() {
    let d = Date::from_ymd(2020, 10, 2).unwrap();
    assert_eq!(d.format(), "2020-10-02");
    assert_eq!(Date::from_ymd(7, 1, 9).unwrap().format(), "0007-01-09");
    assert_eq!(Date::from_ymd(9999, 12, 31).unwrap().format(), "9999-12-31");
}

#[test]
fn date_round_trip() {
    let d = Date::from_ymd(2020, 10, 2).unwrap();
    assert_eq!(Date::parse(&d.format()), Some(d));
    let leap = Date::from_ymd(2024, 2, 29).unwrap();
    assert_eq!(Date::parse(&leap.format()), Some(leap));
    assert_eq!(Date::parse("2020-10-02").unwrap().format(), "2020-10-02");
}

#[test]
fn dates_that_do_not_exist_are_refused() {
    assert_eq!(Date::from_ymd(2021, 2, 29), None);
    assert_eq!(Date::from_ymd(1900, 2, 29), None);
    assert!(Date::from_ymd(2000, 2, 29).is_some());
    assert_eq!(Date::from_ymd(2020, 13, 1), None);
    assert_eq!(Date::from_ymd(2020, 0, 1), None);
    assert_eq!(Date::from_ymd(2020, 4, 31), None);
    assert_eq!(Date::from_ymd(2020, 4, 0), None);
    assert_eq!(Date::from_ymd(10000, 1, 1), None);
}

#[test]
fn date_text_must_be_canonical() {
    assert_eq!(Date::parse("2020-10-2"), None);
    assert_eq!(Date::parse("2020-1-02"), None);
    assert_eq!(Date::parse("2020/10/02"), None);
    assert_eq!(Date::parse("2020-10-02 "), None);
    assert_eq!(Date::parse("2020-02-30"), None);
    assert_eq!(Date::parse("20x0-10-02"), None);
    assert_eq!(Date::parse(""), None);
    assert_eq!(Date::parse("２０２０-10-02"), None);
}

#[test]
fn unset_parameters_are_left_out() {
    let client = NasaClient::new(Some("k".to_string()));
    let set = client.apod().get().finalize();
    assert_eq!(set.len(), 1);
    assert!(!set.contains("date"));
    assert!(!set.contains("hd"));
    assert!(set.contains("api_key"));
    assert_eq!(set.entries[0].name, "api_key");
    assert_eq!(set.entries[0].value, "k");
}

#[test]
fn set_parameters_appear_with_their_text() {
    let client = NasaClient::new(Some("k".to_string()));
    let d = Date::from_ymd(2020, 10, 2).unwrap();
    let set = client.apod().get().hd(true).date(d).finalize();
    assert_eq!(set.len(), 3);
    let pairs: Vec<(&str, &str)> =
        set.entries.iter().map(|p| (p.name.as_str(), p.value.as_str())).collect();
    assert_eq!(pairs, vec![("date", "2020-10-02"), ("hd", "true"), ("api_key", "k")]);
    let set = client.apod().get().hd(false).finalize();
    let pairs: Vec<(&str, &str)> =
        set.entries.iter().map(|p| (p.name.as_str(), p.value.as_str())).collect();
    assert_eq!(pairs, vec![("hd", "false"), ("api_key", "k")]);
}

#[test]
fn builder_steps_leave_the_handler_unchanged() {
    let handler = NasaClient::new(None).apod();
    let first = handler.get().hd(true);
    let second = handler.get();
    assert_eq!(first.hd, Some(true));
    assert_eq!(second.hd, None);
    assert_eq!(second.date, None);
}

#[test]
fn failures_are_described_by_kind() {
    let e = Error::Http { message: "timed out".to_string() };
    assert_eq!(e.kind(), ErrorKind::Http);
    assert_eq!(e.describe(), "HTTP Error: timed out");
    let e = Error::Url { message: "empty host".to_string() };
    assert_eq!(e.kind(), ErrorKind::Url);
    assert_eq!(e.describe(), "URL Error: empty host");
    let failure = check("{}", &satellite_shape()).unwrap();
    let e = Error::Json { failure };
    assert_eq!(e.kind(), ErrorKind::Json);
    assert_eq!(e.describe(), "JSON Error in @id: missing field");
}

#[test]
fn typed_values_are_offered_in_their_canonical_text() {
    let d = Date::from_ymd(2020, 10, 2).unwrap();
    let set = QueryParameterSet::new()
        .with_date("date", Some(d))
        .with_date("until", None)
        .with_flag("hd", Some(false))
        .with_flag("thumbs", None);
    let pairs: Vec<(&str, &str)> =
        set.entries.iter().map(|p| (p.name.as_str(), p.value.as_str())).collect();
    assert_eq!(pairs, vec![("date", "2020-10-02"), ("hd", "false")]);
    assert!(!set.contains("until"));
    assert!(!set.contains("thumbs"));
}

#[test]
fn offering_nothing_changes_nothing() {
    let set = QueryParameterSet::new().with("a", Some("1".to_string())).with("b", None);
    assert_eq!(set.len(), 1);
    assert!(set.contains("a"));
    assert!(!set.contains("b"));
    assert_eq!(format_flag(true), "true");
    assert_eq!(format_flag(false), "false");
}

#[test]
fn compose_attaches_the_query() {
    let set = QueryParameterSet::new()
        .with("date", Some("2020-10-02".to_string()))
        .with("api_key", Some("a b&c".to_string()));
    let url = compose("https://api.nasa.gov/planetary/apod", &set).unwrap();
    assert_eq!(url, "https://api.nasa.gov/planetary/apod?date=2020-10-02&api_key=a+b%26c");
}

#[test]
fn compose_without_parameters_gives_the_normal_form() {
    let url = compose("https://example.net", &QueryParameterSet::new()).unwrap();
    assert_eq!(url, "https://example.net/");
    assert!(validate("https://example.net"));
    assert!(!validate("not a url"));
    assert!(within_limit("https://example.net", &QueryParameterSet::new()));
}

#[test]
fn invalid_address_fails_before_anything_is_sent() {
    let set = QueryParameterSet::new().with("api_key", Some("k".to_string()));
    match compose("not a url", &set) {
        Err(e) => {
            assert_eq!(e.kind(), ErrorKind::Url);
            assert!(matches!(e, Error::Url { message } if message == "relative URL without a base"));
        }
        Ok(_) => panic!("a relative address was accepted"),
    }
    let (stage, action) = begin("//missing.scheme/path", &set, Shape::Text);
    assert!(matches!(stage, Stage::Finished));
    assert!(matches!(action, Action::Fail(Error::Url { .. })));
    let (stage, action) = begin("http://[::1", &QueryParameterSet::new(), Shape::Text);
    assert!(matches!(stage, Stage::Finished));
    assert!(matches!(action, Action::Fail(Error::Url { .. })));
}

#[test]
fn missing_nested_member_is_named_by_its_path() {
    let body = neo_body(&[approach(false)]);
    let failure = check(&body, &neo_shape()).unwrap();
    assert_eq!(path_text(&failure.path), "close_approach_data[0].miss_distance");
    assert!(matches!(failure.problem, Problem::Missing));
}

#[test]
fn later_item_is_named_by_its_index() {
    let broken = approach(true).replace("15000000.5", "\"far\"");
    let body = neo_body(&[approach(true), approach(true), broken]);
    let failure = check(&body, &neo_shape()).unwrap();
    assert_eq!(path_text(&failure.path), "close_approach_data[2].miss_distance.kilometers");
    assert_eq!(failure.path_text(), "close_approach_data[2].miss_distance.kilometers");
    assert_eq!(failure.problem.words(), "expected a number");
    assert!(matches!(failure.problem, Problem::Expected(Kind::Number)));
    assert_eq!(
        (Error::Json { failure }).describe(),
        "JSON Error in close_approach_data[2].miss_distance.kilometers: expected a number"
    );
}

#[test]
fn text_that_is_not_json_fails_at_the_root() {
    let failure = check("<html>", &neo_shape()).unwrap();
    assert!(failure.path.is_empty());
    assert_eq!(failure.path_text(), ".");
    assert!(matches!(failure.problem, Problem::NotJson(_)));
    let failure = check("[1, 2]", &neo_shape()).unwrap();
    assert!(failure.path.is_empty());
    assert!(matches!(failure.problem, Problem::Expected(Kind::Record)));
}

#[test]
fn wrong_enumeration_word_is_refused() {
    let body = neo_body(&[approach(true).replace("\"Earth\"", "\"Pluto\"")]);
    let failure = check(&body, &neo_shape()).unwrap();
    assert_eq!(path_text(&failure.path), "close_approach_data[0].orbiting_body");
    assert!(matches!(failure.problem, Problem::Expected(Kind::OneOf)));
}

#[test]
fn neo_lookup_end_to_end() {
    let handler = NasaClient::new(None).neo();
    let opened = handler.lookup(3542519);
    match &opened.1 {
        Action::Get(url) => {
            assert_eq!(url, "https://api.nasa.gov/neo/rest/v1/neo/3542519?api_key=DEMO_KEY")
        }
        _ => panic!("nothing to send"),
    }
    let body = neo_body(&[approach(true)]);
    match deliver(opened, &body) {
        Action::Deliver(text) => {
            let value: serde_json::Value = serde_json::from_str(&text).unwrap();
            assert_eq!(value["name"], "(2010 PK9)");
        }
        _ => panic!("a well-formed record was refused"),
    }
}

#[test]
fn apod_end_to_end() {
    let d = Date::from_ymd(2020, 10, 2).unwrap();
    let opened = NasaClient::new(Some("k".to_string())).apod().get().hd(true).date(d).send();
    let url = match &opened.1 {
        Action::Get(url) => url.clone(),
        _ => panic!("nothing to send"),
    };
    assert_eq!(url, "https://api.nasa.gov/planetary/apod?date=2020-10-02&hd=true&api_key=k");
    let asked = url::Url::parse(&url).unwrap();
    let echoed = asked.query_pairs().find(|(k, _)| k == "date").unwrap().1.into_owned();
    match deliver(opened, &apod_body(&echoed)) {
        Action::Deliver(text) => {
            let value: serde_json::Value = serde_json::from_str(&text).unwrap();
            let date = Date::parse(value["date"].as_str().unwrap()).unwrap();
            assert_eq!(date, d);
            assert_eq!(date.day, 2);
        }
        _ => panic!("a well-formed record was refused"),
    }
}

#[test]
fn apod_with_a_bad_date_is_refused_at_date() {
    let opened = NasaClient::new(None).apod().get().send();
    match deliver(opened, &apod_body("2020-10-2")) {
        Action::Fail(Error::Json { failure }) => {
            assert_eq!(path_text(&failure.path), "date");
            assert!(matches!(failure.problem, Problem::Expected(Kind::Day)));
        }
        _ => panic!("a date without its zero was accepted"),
    }
    assert!(check(&apod_body("2020-10-02"), &apod_shape()).is_none());
    let with_null = apod_body("2020-10-02").replacen('{', "{\"copyright\": null, ", 1);
    assert!(check(&with_null, &apod_shape()).is_none());
    let with_number = apod_body("2020-10-02").replacen('{', "{\"copyright\": 3, ", 1);
    let failure = check(&with_number, &apod_shape()).unwrap();
    assert_eq!(path_text(&failure.path), "copyright");
    let bad_link = apod_body("2020-10-02").replace("https://apod.nasa.gov/apod/image/hd.jpg", "hd.jpg");
    let failure = check(&bad_link, &apod_shape()).unwrap();
    assert_eq!(path_text(&failure.path), "hdurl");
    assert!(matches!(failure.problem, Problem::Expected(Kind::Link)));
}

#[test]
fn broken_exchange_is_an_http_failure() {
    let (stage, _) = NasaClient::new(None).neo().lookup(1);
    let (stage, action) = step(stage, Event::Failed("connection refused".to_string()));
    assert!(matches!(stage, Stage::Finished));
    match action {
        Action::Fail(e) => {
            assert_eq!(e.kind(), ErrorKind::Http);
            assert!(matches!(e, Error::Http { message } if message == "connection refused"));
        }
        _ => panic!("no failure"),
    }
    let (stage, _) = NasaClient::new(None).neo().lookup(1);
    let (stage, _) = step(stage, Event::Responded);
    let (stage, action) = step(stage, Event::Failed("reset".to_string()));
    assert!(matches!(stage, Stage::Finished));
    assert!(matches!(action, Action::Fail(Error::Http { .. })));
}

#[test]
fn events_out_of_turn_are_ignored() {
    let (stage, _) = NasaClient::new(None).neo().lookup(1);
    let (stage, action) = step(stage, Event::Body("{}".to_string()));
    assert!(matches!(stage, Stage::AwaitingResponse { .. }));
    assert!(matches!(action, Action::Ignore));
    let (stage, _) = step(stage, Event::Responded);
    let (stage, action) = step(stage, Event::Responded);
    assert!(matches!(stage, Stage::AwaitingBody { .. }));
    assert!(matches!(action, Action::Ignore));
    let (stage, action) = step(Stage::Finished, Event::Responded);
    assert!(matches!(stage, Stage::Finished));
    assert!(matches!(action, Action::Ignore));
}

#[test]
fn calls_in_flight_do_not_touch_each_other() {
    let client = NasaClient::new(None);
    let neo = client.neo();
    let ids: Vec<u64> = vec![11, 22, 33, 44];
    let mut stages: Vec<Stage> = Vec::new();
    for id in &ids {
        let (stage, action) = neo.lookup(*id);
        assert!(matches!(action, Action::Get(url)
            if url == format!("https://api.nasa.gov/neo/rest/v1/neo/{}?api_key=DEMO_KEY", id)));
        let (stage, _) = step(stage, Event::Responded);
        stages.push(stage);
    }
    let mut results: Vec<Action> = Vec::new();
    for (i, stage) in stages.into_iter().enumerate().rev() {
        let body = if i % 2 == 0 {
            neo_body(&[approach(true)]).replace("(2010 PK9)", &format!("object {}", ids[i]))
        } else {
            "{}".to_string()
        };
        results.push(step(stage, Event::Body(body)).1);
    }
    results.reverse();
    for (i, action) in results.iter().enumerate() {
        if i % 2 == 0 {
            assert!(matches!(action, Action::Deliver(text) if text.contains(&format!("object {}", ids[i]))));
        } else {
            assert!(matches!(action, Action::Fail(Error::Json { failure })
                if path_text(&failure.path) == "id"));
        }
    }
}

#[test]
fn satellite_records_are_checked() {
    let satellite = r#"{"@id": "https://tle.ivanstanojevic.me/api/tle/28931", "@type": "Tle", "satelliteId": 28931,
        "name": "ALOS (DAICHI)", "date": "2023-01-01T00:00:00+00:00", "line1": "1 28931U", "line2": "2 28931"}"#;
    assert!(check(satellite, &satellite_shape()).is_none());
    let page = format!(
        r#"{{"@context": "c", "@id": "i", "@type": "Collection", "totalItems": 2, "member": [{s}, {s}]}}"#,
        s = satellite
    );
    assert!(check(&page, &satellite_page_shape()).is_none());
    let broken = page.replacen("28931,", "-1,", 1);
    let failure = check(&broken, &satellite_page_shape()).unwrap();
    assert_eq!(path_text(&failure.path), "member[0].satelliteId");
    assert!(matches!(failure.problem, Problem::Expected(Kind::Count)));
    let builder = NasaClient::new(None).tle().get();
    assert!(matches!(builder.lookup_id("28931").1, Action::Get(url)
        if url == "https://tle.ivanstanojevic.me/api/tle/28931"));
    assert!(matches!(builder.lookup_name("ALOS").1, Action::Get(url)
        if url == "https://tle.ivanstanojevic.me/api/tle?search=ALOS"));
}

#[test]
fn counts_are_read_exactly() {
    assert_eq!(read_count("0"), Some(0));
    assert_eq!(read_count("28931"), Some(28931));
    assert_eq!(read_count("18446744073709551615"), Some(u64::MAX));
    assert_eq!(read_count("18446744073709551616"), None);
    assert_eq!(read_count("99999999999999999999999"), None);
    assert_eq!(read_count(""), None);
    assert_eq!(read_count("-1"), None);
    assert_eq!(read_count("1.5"), None);
    assert_eq!(read_count("1e3"), None);
    assert_eq!(format_decimal(0), "0");
    assert_eq!(format_decimal(3542519), "3542519");
    assert_eq!(format_decimal(u64::MAX), "18446744073709551615");
    assert_eq!(read_count(&format_decimal(1234567890)), Some(1234567890));
}

#[test]
fn bodies_have_their_words() {
    assert_eq!(OrbitingBody::Merc.name(), "Merc");
    assert_eq!(OrbitingBody::Neptune.name(), "Neptune");
    assert_eq!(OrbitingBody::from_name("Earth"), Some(OrbitingBody::Earth));
    assert_eq!(OrbitingBody::from_name("Mercury"), None);
    assert_eq!(OrbitingBody::from_name("earth"), None);
}

#[test]
fn every_kind_of_value_is_asked_for() {
    let body = neo_body(&[approach(true)]).replace("\"is_sentry_object\": false", "\"is_sentry_object\": 0");
    let failure = check(&body, &neo_shape()).unwrap();
    assert_eq!(failure.path_text(), "is_sentry_object");
    assert!(matches!(failure.problem, Problem::Expected(Kind::Flag)));
    assert_eq!(failure.problem.words(), "expected a boolean");
    let body = neo_body(&[]).replace("\"close_approach_data\": []", "\"close_approach_data\": {}");
    let failure = check(&body, &neo_shape()).unwrap();
    assert_eq!(failure.path_text(), "close_approach_data");
    assert!(matches!(failure.problem, Problem::Expected(Kind::List)));
    let body = neo_body(&[]).replace("\"(2010 PK9)\"", "null");
    let failure = check(&body, &neo_shape()).unwrap();
    assert_eq!(failure.path_text(), "name");
    assert!(matches!(failure.problem, Problem::Expected(Kind::Text)));
    assert!(check(&neo_body(&[]), &neo_shape()).is_none());
}

#[test]
fn too_long_a_query_is_refused_as_a_url_failure() {
    let long = "a".repeat(0x1000_0000);
    let set = QueryParameterSet::new().with("q", Some(long));
    assert!(!within_limit("https://example.net", &set));
    match compose("https://example.net", &set) {
        Err(Error::Url { message }) => assert_eq!(message, "address and query are too long"),
        _ => panic!("too long a query was accepted"),
    }
    let (stage, action) = begin("https://example.net", &set, Shape::Text);
    assert!(matches!(stage, Stage::Finished));
    assert!(matches!(action, Action::Fail(Error::Url { .. })));
}
