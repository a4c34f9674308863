use skyseeker::celestial_body::CelestialBody;
use skyseeker::error::CoreError;
use skyseeker::planet::Planet;
use skyseeker::star::{star_id, Star};
use skyseeker::Skyseeker;
use std::sync::Arc;

fn star(hr: u16, magnitude: f64, constellation: Option<&str>) -> Star {
    Star {
        id: star_id(hr),
        hr: Some(hr),
        name: None,
        common_name: None,
        bayer: None,
        bayer_full: None,
        constellation: constellation.map(|c| c.to_string()),
        notes: vec![],
        right_ascension: 1.5541_f64.to_bits(),
        declination: 0.1295_f64.to_bits(),
        proper_motion_right_ascension: 0.0_f64.to_bits(),
        proper_motion_declination: 0.0_f64.to_bits(),
        parallax: 0.00655_f64.to_bits(),
        radial_velocity: 21.91_f64.to_bits(),
        visual_magnitude: magnitude.to_bits(),
        b_v_color: None,
    }
}

fn star_body(hr: u16, magnitude: f64) -> CelestialBody {
    CelestialBody::Star(Arc::new(star(hr, magnitude, None)))
}

fn magnitude_of(body: &CelestialBody) -> f64 {
    match body {
        CelestialBody::Star(s) => f64::from_bits(s.visual_magnitude),
        _ => panic!("not a star"),
    }
}

#[test]
fn planet_ids() {
    assert_eq!(Planet::Mercury.id(), "Mercury");
    assert_eq!(Planet::Venus.id(), "Venus");
    assert_eq!(Planet::Mars.id(), "Mars");
    assert_eq!(Planet::Jupiter.id(), "Jupiter");
    assert_eq!(Planet::Saturn.id(), "Saturn");
    assert_eq!(Planet::Uranus.id(), "Uranus");
    assert_eq!(Planet::Neptune.id(), "Neptune");
}

#[test]
fn body_ids() {
    assert_eq!(CelestialBody::Moon.id(), "Moon");
    assert_eq!(CelestialBody::Sun.id(), "Sun");
    assert_eq!(CelestialBody::Planet(Planet::Mars).id(), "Mars");
    assert_eq!(star_body(2061, 0.5).id(), "HR 2061");
}

#[test]
fn star_ids_are_decimal_catalog_numbers() {
    assert_eq!(star_id(0), "HR 0");
    assert_eq!(star_id(7), "HR 7");
    assert_eq!(star_id(10), "HR 10");
    assert_eq!(star_id(5340), "HR 5340");
    assert_eq!(star_id(65535), "HR 65535");
}

#[test]
fn body_kinds_and_constellation() {
    let orion = CelestialBody::Star(Arc::new(star(2061, 0.5, Some("Ori"))));
    assert!(orion.is_star() && !orion.is_planet() && !orion.is_moon() && !orion.is_sun());
    assert_eq!(orion.constellation(), Some("Ori"));
    assert_eq!(star_body(1, 1.0).constellation(), None);
    assert!(CelestialBody::Moon.is_moon());
    assert!(CelestialBody::Sun.is_sun());
    assert!(CelestialBody::Planet(Planet::Venus).is_planet());
    assert_eq!(CelestialBody::Sun.constellation(), None);
}

#[test]
fn standard_bodies_in_order() {
    let ids: Vec<String> = CelestialBody::standard_bodies()
        .iter()
        .map(|b| b.id().to_string())
        .collect();
    assert_eq!(
        ids,
        vec!["Mercury", "Venus", "Mars", "Jupiter", "Saturn", "Uranus", "Neptune", "Moon", "Sun"]
    );
}

#[test]
fn new_catalog_is_empty() {
    let s = Skyseeker::new();
    assert_eq!(s.len(), 0);
    assert!(s.bodies().is_empty());
    assert_eq!(Skyseeker::default().len(), 0);
}

#[test]
fn load_standard_bodies_finds_each() {
    let mut s = Skyseeker::new();
    s.load_standard_bodies();
    assert_eq!(s.len(), 9);
    for id in ["Mercury", "Venus", "Mars", "Jupiter", "Saturn", "Uranus", "Neptune", "Moon", "Sun"] {
        assert_eq!(s.get_body(id).map(|b| b.id()), Some(id));
    }
    assert!(s.get_body("Earth").is_none());
}

#[test]
fn load_same_body_twice_keeps_one_entry_second_wins() {
    let mut s = Skyseeker::new();
    s.load_body(star_body(42, 1.0));
    s.load_body(star_body(42, 2.5));
    assert_eq!(s.len(), 1);
    assert_eq!(magnitude_of(s.get_body("HR 42").unwrap()), 2.5);
}

#[test]
fn load_bodies_later_entries_overwrite_earlier() {
    let mut s = Skyseeker::new();
    s.load_bodies(vec![star_body(1, 1.0), star_body(2, 2.0), star_body(1, 3.0)]);
    assert_eq!(s.len(), 2);
    assert_eq!(magnitude_of(s.get_body("HR 1").unwrap()), 3.0);
    assert_eq!(magnitude_of(s.get_body("HR 2").unwrap()), 2.0);
    let order: Vec<&str> = s.bodies().iter().map(|b| b.id()).collect();
    assert_eq!(order, vec!["HR 1", "HR 2"]);
}

#[test]
fn setup_loads_standard_bodies_then_stars() {
    let s = Skyseeker::setup(vec![star_body(5340, -0.05), CelestialBody::Moon]);
    assert_eq!(s.len(), 10);
    assert_eq!(s.bodies()[9].id(), "HR 5340");
    assert_eq!(s.bodies()[7].id(), "Moon");
}

#[test]
fn lookup_of_unknown_id_is_not_found() {
    let mut s = Skyseeker::new();
    s.load_standard_bodies();
    assert!(s.get_body("HR 9999").is_none());
    assert_eq!(
        s.find_body("HR 9999").unwrap_err(),
        CoreError::BodyNotFound("HR 9999".to_string())
    );
    assert_eq!(s.find_body("Sun").unwrap().id(), "Sun");
}

#[test]
fn star_record_is_kept_exactly() {
    let mut s = Skyseeker::new();
    s.load_body(CelestialBody::Star(Arc::new(star(2061, 0.5, Some("Ori")))));
    match s.get_body("HR 2061").unwrap() {
        CelestialBody::Star(st) => {
            assert_eq!(f64::from_bits(st.right_ascension), 1.5541);
            assert_eq!(f64::from_bits(st.declination), 0.1295);
            assert_eq!(f64::from_bits(st.parallax), 0.00655);
            assert_eq!(f64::from_bits(st.radial_velocity), 21.91);
            assert_eq!(st.hr, Some(2061));
        }
        _ => panic!("expected a star"),
    }
}

#[test]
fn scenario_betelgeuse_position_is_finite() {
    let mut s = Skyseeker::new();
    s.load_standard_bodies();
    s.load_body(CelestialBody::Star(Arc::new(star(2061, 0.42, Some("Ori")))));
    let st = match s.find_body("HR 2061").unwrap() {
        CelestialBody::Star(st) => st.clone(),
        _ => panic!("expected a star"),
    };
    let (utc1, utc2) = sofars::ts::dtf2d("UTC", 2025, 10, 14, 1, 30, 0.0)
        .map_err(skyseeker::error::time_error_from_status)
        .unwrap();
    let longitude = sofars::vm::af2a('+', 14, 0, 0.0).unwrap();
    let latitude = sofars::vm::af2a('+', 51, 0, 0.0).unwrap();
    let (azimuth, zenith, _, _, _, _) = sofars::astro::atco13(
        f64::from_bits(st.right_ascension),
        f64::from_bits(st.declination),
        f64::from_bits(st.proper_motion_right_ascension),
        f64::from_bits(st.proper_motion_declination),
        f64::from_bits(st.parallax),
        f64::from_bits(st.radial_velocity),
        utc1,
        utc2,
        0.0,
        longitude,
        latitude,
        300.0,
        0.0,
        0.0,
        1013.25,
        15.0,
        0.5,
        0.55,
    )
    .unwrap();
    let altitude = 90.0 - zenith.to_degrees();
    assert!(azimuth.is_finite() && altitude.is_finite());
    assert!((-90.0..=90.0).contains(&altitude));
}

#[test]
fn bad_calendar_date_maps_to_time_error() {
    let status = sofars::ts::dtf2d("UTC", 2025, 13, 1, 0, 0, 0.0).unwrap_err();
    assert_eq!(skyseeker::error::time_error_from_status(status), CoreError::TimeBadMonth);
    let status = sofars::ts::dtf2d("UTC", 2025, 10, 14, 24, 0, 0.0).unwrap_err();
    assert_eq!(skyseeker::error::time_error_from_status(status), CoreError::TimeBadHour);
}

fn named_star(id: &str, magnitude: f64) -> CelestialBody {
    let mut s = star(1, magnitude, None);
    s.id = id.to_string();
    s.hr = None;
    CelestialBody::Star(Arc::new(s))
}

#[test]
fn identifiers_sharing_a_hash_are_told_apart() {
    // "Aa" and "BB" have the same polynomial hash with multiplier 31.
    let mut s = Skyseeker::new();
    s.load_body(named_star("Aa", 1.0));
    s.load_body(named_star("BB", 2.0));
    assert_eq!(s.len(), 2);
    assert_eq!(magnitude_of(s.get_body("Aa").unwrap()), 1.0);
    assert_eq!(magnitude_of(s.get_body("BB").unwrap()), 2.0);
    s.load_body(named_star("BB", 3.0));
    assert_eq!(s.len(), 2);
    assert_eq!(magnitude_of(s.get_body("BB").unwrap()), 3.0);
    assert_eq!(magnitude_of(s.get_body("Aa").unwrap()), 1.0);
    assert!(s.get_body("Ab").is_none());
}

#[test]
fn large_catalog_lookups() {
    let mut s = Skyseeker::new();
    s.load_bodies((1..=3000u16).map(|hr| star_body(hr, hr as f64)).collect());
    assert_eq!(s.len(), 3000);
    for hr in [1u16, 77, 1500, 3000] {
        assert_eq!(magnitude_of(s.get_body(&format!("HR {}", hr)).unwrap()), hr as f64);
    }
    assert!(s.get_body("HR 3001").is_none());
}
