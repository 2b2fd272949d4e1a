use kosmos::date::Date;
use kosmos::nasa::apod::Apod;
use kosmos::nasa::neo::{
    CloseApproachData, EstimatedDiameter, EstimatedFeet, EstimatedKilometers, EstimatedMeters,
    EstimatedMiles, MissDistance, NearEarthObject, OrbitClass, OrbitalData, OrbitingBody,
    RelativeVelocity,
};
use kosmos::nasa::tle::{Satellite, TLESatelliteName};
use kosmos::shape::{Kind, Problem, Segment};

fn satellite_text(id: u64, name: &str) -> String {
    format!(
        r#"{{"@id": "https://tle.ivanstanojevic.me/api/tle/{id}", "@type": "Tle", "satelliteId": {id},
            "name": "{name}", "date": "2023-01-01T00:00:00+00:00", "line1": "1 {id}U", "line2": "2 {id}"}}"#,
        id = id,
        name = name
    )
}

#[test]
fn satellite_is_read_member_by_member() {
    let s = Satellite::decode(&satellite_text(28931, "ALOS (DAICHI)")).unwrap();
    assert_eq!(s.id, "https://tle.ivanstanojevic.me/api/tle/28931");
    assert_eq!(s.result_type, "Tle");
    assert_eq!(s.satellite_id, 28931);
    assert_eq!(s.name, "ALOS (DAICHI)".to_string());
    assert_eq!(s.date, "2023-01-01T00:00:00+00:00");
    assert_eq!(s.line1, "1 28931U");
    assert_eq!(s.line2, "2 28931");
}

#[test]
fn satellite_without_a_line_is_refused() {
    let body = satellite_text(1, "A").replace("\"line2\"", "\"line3\"");
    let failure = Satellite::decode(&body).unwrap_err();
    assert_eq!(failure.path.len(), 1);
    assert!(matches!(&failure.path[0], Segment::Field(name) if name == "line2"));
    assert!(matches!(failure.problem, Problem::Missing));
}

#[test]
fn page_is_read_with_its_satellites_in_order() {
    let body = format!(
        r#"{{"@context": "http://www.w3.org/ns/hydra/context.jsonld", "@id": "https://tle.ivanstanojevic.me/api/tle",
            "@type": "Collection", "totalItems": 2, "member": [{}, {}], "view": {{"first": "x"}}}}"#,
        satellite_text(7, "first"),
        satellite_text(8, "second")
    );
    let page = TLESatelliteName::decode(&body).unwrap();
    assert_eq!(page.context, "http://www.w3.org/ns/hydra/context.jsonld");
    assert_eq!(page.id, "https://tle.ivanstanojevic.me/api/tle");
    assert_eq!(page.result_type, "Collection");
    assert_eq!(page.total_items, 2);
    assert_eq!(page.member.len(), 2);
    assert_eq!(page.member[0].name, "first");
    assert_eq!(page.member[0].satellite_id, 7);
    assert_eq!(page.member[1].name, "second");
    assert_eq!(page.member[1].satellite_id, 8);
}

#[test]
fn page_with_a_broken_satellite_names_the_place() {
    let body = format!(
        r#"{{"@context": "c", "@id": "i", "@type": "Collection", "totalItems": 2, "member": [{}, {}]}}"#,
        satellite_text(7, "first"),
        satellite_text(8, "second").replace("\"second\"", "false")
    );
    let failure = TLESatelliteName::decode(&body).unwrap_err();
    assert_eq!(failure.path.len(), 3);
    assert!(matches!(&failure.path[0], Segment::Field(name) if name == "member"));
    assert!(matches!(&failure.path[1], Segment::Index(1)));
    assert!(matches!(&failure.path[2], Segment::Field(name) if name == "name"));
    assert!(matches!(failure.problem, Problem::Expected(Kind::Text)));
}

#[test]
fn empty_page_has_no_satellites() {
    let body = r#"{"@context": "c", "@id": "i", "@type": "Collection", "totalItems": 0, "member": []}"#;
    let page = TLESatelliteName::decode(body).unwrap();
    assert_eq!(page.total_items, 0);
    assert!(page.member.is_empty());
}

#[test]
fn orbit_class_is_read() {
    let body = r#"{"orbit_class_type": "APO", "orbit_class_description": "Near-Earth asteroid orbits",
        "orbit_class_range": "a > 1.0 AU"}"#;
    let class = OrbitClass::decode(body).unwrap();
    assert_eq!(class.orbit_class_type, "APO");
    assert_eq!(class.orbit_class_description, "Near-Earth asteroid orbits");
    assert_eq!(class.orbit_class_range, "a > 1.0 AU");
    let failure = OrbitClass::decode(r#"{"orbit_class_type": 1}"#).unwrap_err();
    assert!(matches!(&failure.path[0], Segment::Field(name) if name == "orbit_class_type"));
    assert!(matches!(failure.problem, Problem::Expected(Kind::Text)));
}

#[test]
fn apod_is_read_with_its_date() {
    let body = r#"{"copyright": "A. Person", "date": "2020-10-02", "explanation": "A galaxy \"far\" away.",
        "hdurl": "https://apod.nasa.gov/apod/image/hd.jpg", "media_type": "image", "service_version": "v1",
        "title": "Galaxy", "url": "https://apod.nasa.gov/apod/image/sd.jpg"}"#;
    let apod = Apod::decode(body).unwrap();
    assert_eq!(apod.copyright.as_deref(), Some("A. Person"));
    assert_eq!(apod.date, Date::from_ymd(2020, 10, 2).unwrap());
    assert_eq!(apod.date.day, 2);
    assert_eq!(apod.explanation, "A galaxy \"far\" away.");
    assert_eq!(apod.hdurl, "https://apod.nasa.gov/apod/image/hd.jpg");
    assert_eq!(apod.media_type, "image");
    assert_eq!(apod.service_version, "v1");
    assert_eq!(apod.title, "Galaxy");
    assert_eq!(apod.url, "https://apod.nasa.gov/apod/image/sd.jpg");
}

#[test]
fn apod_in_the_public_domain_has_no_copyright() {
    let body = r#"{"date": "2020-10-02", "explanation": "e",
        "hdurl": "https://apod.nasa.gov/hd.jpg", "media_type": "image", "service_version": "v1",
        "title": "t", "url": "https://apod.nasa.gov/sd.jpg"}"#;
    assert_eq!(Apod::decode(body).unwrap().copyright, None);
    let with_null = body.replacen('{', "{\"copyright\": null, ", 1);
    assert_eq!(Apod::decode(&with_null).unwrap().copyright, None);
    let failure = Apod::decode(&body.replace("\"title\": \"t\",", "")).unwrap_err();
    assert!(matches!(&failure.path[0], Segment::Field(name) if name == "title"));
    assert!(matches!(failure.problem, Problem::Missing));
}

fn approach_text(body: &str, kilometers: &str) -> String {
    format!(
        r#"{{"close_approach_date": "2020-10-02", "close_approach_date_full": "2020-Oct-02 10:00",
            "epoch_date_close_approach": 1601632800000,
            "relative_velocity": {{"kilometers_per_second": 7.5, "kilometers_per_hour": 27000.25, "miles_per_hour": 16777}},
            "miss_distance": {{"astronomical": 0.1, "lunar": 40.5, "kilometers": {k}, "miles": 9000000}},
            "orbiting_body": "{b}"}}"#,
        k = kilometers,
        b = body
    )
}

fn neo_text(approaches: &[String], extra: &str) -> String {
    format!(
        r#"{{"id": "3542519", "neo_reference_id": "3542519", "name": "(2010 PK9)", "designation": "2010 PK9",
            "nasa_jpl_url": "http://ssd.jpl.nasa.gov/sbdb.cgi?sstr=3542519", "absolute_magnitude_h": 21.8,
            "estimated_diameter": {{
                "kilometers": {{"estimated_diameter_min": 0.1, "estimated_diameter_max": 0.3}},
                "meters": {{"estimated_diameter_min": 100, "estimated_diameter_max": 300.5}},
                "miles": {{"estimated_diameter_min": 0.06, "estimated_diameter_max": 0.18}},
                "feet": {{"estimated_diameter_min": 328.1, "estimated_diameter_max": 984.3}}}},
            "is_potentially_hazardous_asteroid": true,
            "close_approach_data": [{a}],
            {x}
            "is_sentry_object": false}}"#,
        a = approaches.join(","),
        x = extra
    )
}

#[test]
fn neo_record_is_read_with_its_name() {
    let body = neo_text(
        &[approach_text("Earth", "15000000.5"), approach_text("Venus", "2.5e7")],
        "",
    );
    let neo = NearEarthObject::decode(&body).unwrap();
    assert_eq!(neo.name, String::from("(2010 PK9)"));
    assert_eq!(neo.id, "3542519");
    assert_eq!(neo.neo_reference_id, "3542519");
    assert_eq!(neo.designation, "2010 PK9");
    assert_eq!(neo.nasa_jpl_url, "http://ssd.jpl.nasa.gov/sbdb.cgi?sstr=3542519");
    assert_eq!(neo.absolute_magnitude_h.parse::<f64>().unwrap(), 21.8);
    assert_eq!(neo.estimated_diameter.kilometers.estimated_diameter_min.parse::<f64>().unwrap(), 0.1);
    assert_eq!(neo.estimated_diameter.meters.estimated_diameter_min, "100");
    assert_eq!(neo.estimated_diameter.meters.estimated_diameter_max.parse::<f64>().unwrap(), 300.5);
    assert_eq!(neo.estimated_diameter.miles.estimated_diameter_max.parse::<f64>().unwrap(), 0.18);
    assert_eq!(neo.estimated_diameter.feet.estimated_diameter_max.parse::<f64>().unwrap(), 984.3);
    assert!(neo.is_potentially_hazardous_asteroid);
    assert!(!neo.is_sentry_object);
    assert!(neo.orbital_date.is_none());
    assert_eq!(neo.close_approach_data.len(), 2);
    let first = &neo.close_approach_data[0];
    assert_eq!(first.close_approach_date, Date::from_ymd(2020, 10, 2).unwrap());
    assert_eq!(first.close_approach_date_full, "2020-Oct-02 10:00");
    assert_eq!(first.epoch_date_close_approach, "1601632800000");
    assert_eq!(first.relative_velocity.kilometers_per_second.parse::<f64>().unwrap(), 7.5);
    assert_eq!(first.relative_velocity.kilometers_per_hour.parse::<f64>().unwrap(), 27000.25);
    assert_eq!(first.relative_velocity.miles_per_hour, "16777");
    assert_eq!(first.miss_distance.astronomical.parse::<f64>().unwrap(), 0.1);
    assert_eq!(first.miss_distance.lunar.parse::<f64>().unwrap(), 40.5);
    assert_eq!(first.miss_distance.kilometers.parse::<f64>().unwrap(), 15000000.5);
    assert_eq!(first.miss_distance.miles, "9000000");
    assert_eq!(first.orbiting_body, OrbitingBody::Earth);
    let second = &neo.close_approach_data[1];
    assert_eq!(second.orbiting_body, OrbitingBody::Venus);
    assert_eq!(second.miss_distance.kilometers.parse::<f64>().unwrap(), 2.5e7);
}

#[test]
fn neo_record_may_have_the_class_of_its_orbit() {
    let class = r#""orbital_date": {"orbit_class_type": "APO", "orbit_class_description": "d", "orbit_class_range": "r"},"#;
    let neo = NearEarthObject::decode(&neo_text(&[], class)).unwrap();
    assert!(neo.close_approach_data.is_empty());
    assert_eq!(neo.orbital_date.unwrap().orbit_class_type, "APO");
    let neo = NearEarthObject::decode(&neo_text(&[], "\"orbital_date\": null,")).unwrap();
    assert!(neo.orbital_date.is_none());
    let broken = r#""orbital_date": {"orbit_class_type": "APO", "orbit_class_range": "r"},"#;
    let failure = NearEarthObject::decode(&neo_text(&[], broken)).unwrap_err();
    assert_eq!(failure.path_text(), "orbital_date.orbit_class_description");
    assert!(matches!(failure.problem, Problem::Missing));
}

#[test]
fn neo_record_without_a_nested_member_is_refused_there() {
    let good = approach_text("Earth", "1");
    let start = good.find("\"miss_distance\"").unwrap();
    let end = good.find("\"orbiting_body\"").unwrap();
    let without = format!("{}{}", &good[..start], &good[end..]);
    let failure = NearEarthObject::decode(&neo_text(&[without], "")).unwrap_err();
    assert_eq!(failure.path_text(), "close_approach_data[0].miss_distance");
    assert!(matches!(failure.problem, Problem::Missing));
    assert!(matches!(&failure.path[1], Segment::Index(0)));
}

#[test]
fn parts_of_a_neo_record_are_read_alone() {
    let range = r#"{"estimated_diameter_min": 1, "estimated_diameter_max": 2.5}"#;
    assert_eq!(EstimatedKilometers::decode(range).unwrap().estimated_diameter_max, "2.5");
    assert_eq!(EstimatedMeters::decode(range).unwrap().estimated_diameter_min, "1");
    assert_eq!(EstimatedMiles::decode(range).unwrap().estimated_diameter_min, "1");
    assert_eq!(EstimatedFeet::decode(range).unwrap().estimated_diameter_max, "2.5");
    let diameter = format!(
        r#"{{"kilometers": {r}, "meters": {r}, "miles": {r}, "feet": {r}}}"#,
        r = range
    );
    assert_eq!(EstimatedDiameter::decode(&diameter).unwrap().feet.estimated_diameter_min, "1");
    let failure = EstimatedDiameter::decode(&diameter.replace("\"miles\"", "\"yards\"")).unwrap_err();
    assert_eq!(failure.path_text(), "miles");
    let miss = r#"{"astronomical": 1, "lunar": 2, "kilometers": 3, "miles": 4}"#;
    assert_eq!(MissDistance::decode(miss).unwrap().kilometers, "3");
    let fast = r#"{"kilometers_per_second": 1, "kilometers_per_hour": 3600, "miles_per_hour": "fast"}"#;
    let failure = RelativeVelocity::decode(fast).unwrap_err();
    assert_eq!(failure.path_text(), "miles_per_hour");
    assert!(matches!(failure.problem, Problem::Expected(Kind::Number)));
    let approach = CloseApproachData::decode(&approach_text("Jupiter", "5")).unwrap();
    assert_eq!(approach.orbiting_body, OrbitingBody::Jupiter);
    let failure = CloseApproachData::decode(&approach_text("Moon", "5")).unwrap_err();
    assert_eq!(failure.path_text(), "orbiting_body");
    assert!(matches!(failure.problem, Problem::Expected(Kind::OneOf)));
}

#[test]
fn orbital_data_is_read() {
    let body = r#"{"orbit_id": 30, "orbit_determination_date": "2020-09-30 06:18:45",
        "first_observation_date": "2010-08-05", "last_observation_date": "2020-09-29",
        "data_arc_in_days": 3708, "observations_used": 123, "orbit_uncertainty": 0,
        "minimum_orbit_intersection": 0.0171, "jupiter_tisserand_invariant": 7.5,
        "epoch_osculation": 2459000.5, "eccentricity": 0.25, "semi_major_axis": 0.75,
        "inclination": 12.5, "ascending_node_longitude": 164.5, "orbital_period": 246.25,
        "perihelion_distance": 0.5, "perihelion_argument": 170.5, "aphelion_distance": 0.875,
        "perihelion_time": 2458945.5, "mean_anomaly": 80.5, "mean_motion": 1.5,
        "equinox": "J2000",
        "orbit_class": {"orbit_class_type": "ATE", "orbit_class_description": "d", "orbit_class_range": "r"}}"#;
    let data = OrbitalData::decode(body).unwrap();
    assert_eq!(data.orbit_id, 30);
    assert_eq!(data.orbit_determination_date, "2020-09-30 06:18:45");
    assert_eq!(data.first_observation_date, Date::from_ymd(2010, 8, 5).unwrap());
    assert_eq!(data.last_observation_date, Date::from_ymd(2020, 9, 29).unwrap());
    assert_eq!(data.data_arc_in_days, 3708);
    assert_eq!(data.observations_used, 123);
    assert_eq!(data.orbit_uncertainty, "0");
    assert_eq!(data.minimum_orbit_intersection.parse::<f64>().unwrap(), 0.0171);
    assert_eq!(data.eccentricity.parse::<f64>().unwrap(), 0.25);
    assert_eq!(data.mean_motion.parse::<f64>().unwrap(), 1.5);
    assert_eq!(data.equinox, "J2000");
    assert_eq!(data.orbit_class.orbit_class_type, "ATE");
    let failure = OrbitalData::decode(&body.replace("3708", "3708.5")).unwrap_err();
    assert_eq!(failure.path_text(), "data_arc_in_days");
    assert!(matches!(failure.problem, Problem::Expected(Kind::Count)));
    let failure = OrbitalData::decode(&body.replace("2010-08-05", "2010-02-30")).unwrap_err();
    assert_eq!(failure.path_text(), "first_observation_date");
    assert!(matches!(failure.problem, Problem::Expected(Kind::Day)));
}
