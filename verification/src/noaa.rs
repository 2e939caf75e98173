//! The addresses of the weather service, and small pieces of its data model.

use vstd::prelude::*;
use vstd::string::StringExecFns;

pub mod observation;
pub mod station;

verus! {

/// The root of the weather service. It ends in a slash, and the paths of
/// stations and alerts begin with one, so those addresses hold two slashes in
/// a row.
pub const BASE_URL: &'static str = "https://api.weather.gov/";

/// The address of the description of a station: the root, `/stations/` and
/// the station's identifier.
pub open spec fn station_url_text(station_id: Seq<char>) -> Seq<char> {
    BASE_URL@ + "/stations/"@ + station_id
}

/// The address of the latest observation of a station.
pub open spec fn observation_url_text(station_id: Seq<char>) -> Seq<char> {
    BASE_URL@ + "/stations/"@ + station_id + "/observations/latest"@
}

/// The address of the active alerts of a forecast zone.
pub open spec fn alerts_url_text(zone_id: Seq<char>) -> Seq<char> {
    BASE_URL@ + "/alerts/active/zone/"@ + zone_id
}

/// The address of the grid point for a position, given as the decimal texts
/// of its latitude and longitude.
pub open spec fn points_url_text(latitude: Seq<char>, longitude: Seq<char>) -> Seq<char> {
    BASE_URL@ + "points/"@ + latitude + ","@ + longitude
}

/// The address of the description of a station.
pub fn station_url(station_id: &str) -> (url: String)
    ensures
        url@ == station_url_text(station_id@),
{
    let mut url = String::from_str(BASE_URL);
    url.append("/stations/");
    url.append(station_id);
    url
}

/// The address of the latest observation of a station.
pub fn observation_url(station_id: &str) -> (url: String)
    ensures
        url@ == observation_url_text(station_id@),
{
    let mut url = String::from_str(BASE_URL);
    url.append("/stations/");
    url.append(station_id);
    url.append("/observations/latest");
    url
}

/// The address of the active alerts of a forecast zone.
pub fn alerts_url(zone_id: &str) -> (url: String)
    ensures
        url@ == alerts_url_text(zone_id@),
{
    let mut url = String::from_str(BASE_URL);
    url.append("/alerts/active/zone/");
    url.append(zone_id);
    url
}

/// The address of the grid point for a position, given as the decimal texts
/// of its latitude and longitude.
pub fn points_url(latitude: &str, longitude: &str) -> (url: String)
    ensures
        url@ == points_url_text(latitude@, longitude@),
{
    let mut url = String::from_str(BASE_URL);
    url.append("points/");
    url.append(latitude);
    url.append(",");
    url.append(longitude);
    url
}

} // verus!
