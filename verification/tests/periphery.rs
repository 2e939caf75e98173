//! Addresses, the zone identifier, the command line and the spinner.

use wx::cli::{Args, MissingStation};
use wx::noaa::observation::Value;
use wx::noaa::station::zone_id;
use wx::snapshot::WeatherSnapshot;
use wx::noaa::{alerts_url, observation_url, points_url, station_url, BASE_URL};
use wx::spinner::{spinner_glyph, SPINNER_PERIOD};
use wx::units::{compass_point, COMPASS_POINTS};
use wx::weather::{Condition, Units, Warning};

#[test]
fn addresses_are_built_from_the_root() {
    assert_eq!(BASE_URL, "https://api.weather.gov/");
    assert_eq!(station_url("KMSN"), "https://api.weather.gov//stations/KMSN");
    assert_eq!(
        observation_url("KELP"),
        "https://api.weather.gov//stations/KELP/observations/latest"
    );
    assert_eq!(alerts_url("WIZ063"), "https://api.weather.gov//alerts/active/zone/WIZ063");
    assert_eq!(points_url("43.1", "-89.3"), "https://api.weather.gov/points/43.1,-89.3");
    assert_eq!(station_url(""), "https://api.weather.gov//stations/");
}

#[test]
fn zone_id_is_the_last_segment_of_the_forecast_address() {
    assert_eq!(zone_id("https://api.weather.gov/zones/forecast/WIZ063"), "WIZ063");
    assert_eq!(zone_id("a/b"), "b");
    assert_eq!(zone_id("/b"), "b");
}

#[test]
fn zone_id_of_an_address_without_a_slash_is_the_address() {
    assert_eq!(zone_id("--"), "--");
    assert_eq!(zone_id("WIZ063"), "WIZ063");
    assert_eq!(zone_id(""), "");
}

#[test]
fn zone_id_of_an_address_that_ends_in_a_slash_is_empty() {
    assert_eq!(zone_id("https://api.weather.gov/"), "");
    assert_eq!(zone_id("/"), "");
    assert_eq!(zone_id("a//"), "");
}

#[test]
fn zone_id_counts_characters_not_bytes() {
    assert_eq!(zone_id("z\u{fc}rich/s\u{fc}d"), "s\u{fc}d");
    assert_eq!(zone_id("\u{28fe}/\u{28fd}\u{28fb}"), "\u{28fd}\u{28fb}");
}

#[test]
fn value_wraps_its_reading() {
    assert_eq!(Value::new(Some(21)).value, Some(21));
    assert_eq!(Value::new(None::<i32>).value, None);
    assert_eq!(Value::new("calm").value, "calm");
}

#[test]
fn station_on_the_command_line_wins_over_the_cache() {
    let args = Args { station: Some("KMSN".to_string()) };
    assert_eq!(args.resolve_station(Some("KELP".to_string())), Ok("KMSN".to_string()));
    let args = Args { station: Some("KMSN".to_string()) };
    assert_eq!(args.resolve_station(None), Ok("KMSN".to_string()));
}

#[test]
fn cached_station_is_used_when_none_is_given() {
    let args = Args { station: None };
    assert_eq!(args.resolve_station(Some("KELP".to_string())), Ok("KELP".to_string()));
}

#[test]
fn no_station_at_all_is_an_error() {
    let args = Args { station: None };
    assert_eq!(args.resolve_station(None), Err(MissingStation));
    assert_eq!(MissingStation.message(), "Specify weather station identifier.");
}

#[test]
fn spinner_shows_its_eight_glyphs_in_order_and_starts_over() {
    let glyphs: Vec<char> = (0..8).map(spinner_glyph).collect();
    assert_eq!(glyphs, vec!['⣾', '⣽', '⣻', '⢿', '⡿', '⣟', '⣯', '⣷']);
    assert_eq!(SPINNER_PERIOD, 8);
    for tick in 0..64usize {
        assert_eq!(spinner_glyph(tick + 8), spinner_glyph(tick));
    }
    assert_eq!(spinner_glyph(usize::MAX), '⣷');
}

#[test]
fn weather_vocabulary_distinguishes_its_words() {
    assert_ne!(Condition::Clear, Condition::Overcast);
    assert_ne!(Condition::Rain, Condition::Snow);
    assert_ne!(Warning::Tornado, Warning::Flood);
    assert_ne!(Warning::Flood, Warning::Hail);
    assert_ne!(Units::Metric, Units::Imperial);
    assert_eq!(Units::Metric, Units::Metric);
}

#[test]
fn snapshot_hands_back_the_four_pieces_it_was_made_of() {
    let snapshot = WeatherSnapshot::new("obs".to_string(), 7u8, vec!["gale"], Some(3i64));
    assert_eq!(snapshot.observation(), "obs");
    assert_eq!(*snapshot.station(), 7);
    assert_eq!(*snapshot.alerts(), vec!["gale"]);
    assert_eq!(*snapshot.forecast(), Some(3));
}

#[test]
fn compass_points_go_clockwise_from_north_and_round_again() {
    assert_eq!(COMPASS_POINTS, 16);
    let names: Vec<&str> = (0..16).map(compass_point).collect();
    assert_eq!(
        names,
        vec![
            "N", "NNE", "NE", "ENE", "E", "ESE", "SE", "SSE", "S", "SSW", "SW", "WSW", "W", "WNW",
            "NW", "NNW"
        ]
    );
    assert_eq!(compass_point(16), "N");
    assert_eq!(compass_point(20), "E");
    assert_eq!(compass_point(24), "S");
    assert_eq!(compass_point(28), "W");
    assert_eq!(compass_point(32), "N");
    assert_eq!(compass_point(usize::MAX), "NNW");
}
