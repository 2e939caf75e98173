//! One complete set of fetched weather data.

use vstd::prelude::*;

verus! {

/// The four pieces of data of one fetch cycle, bundled: the current
/// observation, the description of the station, the active alerts and the
/// forecast.
///
/// A snapshot is made in one piece and read in pieces; nothing changes a
/// piece of it afterwards. The store replaces one snapshot by the next as a
/// whole.
#[derive(Debug)]
pub struct WeatherSnapshot<O, S, A, F> {
    observation: O,
    station: S,
    alerts: A,
    forecast: F,
}

impl<O, S, A, F> View for WeatherSnapshot<O, S, A, F> {
    type V = (O, S, A, F);

    /// The four pieces: observation, station, alerts, forecast.
    closed spec fn view(&self) -> (O, S, A, F) {
        (self.observation, self.station, self.alerts, self.forecast)
    }
}

impl<O, S, A, F> WeatherSnapshot<O, S, A, F> {
    /// Bundles the results of one fetch cycle.
    pub fn new(observation: O, station: S, alerts: A, forecast: F) -> (snapshot: Self)
        ensures
            snapshot@ == (observation, station, alerts, forecast),
    {
        WeatherSnapshot { observation, station, alerts, forecast }
    }

    /// The current observation.
    pub fn observation(&self) -> (observation: &O)
        ensures
            *observation == self@.0,
    {
        &self.observation
    }

    /// The description of the station.
    pub fn station(&self) -> (station: &S)
        ensures
            *station == self@.1,
    {
        &self.station
    }

    /// The active alerts.
    pub fn alerts(&self) -> (alerts: &A)
        ensures
            *alerts == self@.2,
    {
        &self.alerts
    }

    /// The forecast.
    pub fn forecast(&self) -> (forecast: &F)
        ensures
            *forecast == self@.3,
    {
        &self.forecast
    }
}

} // verus!
