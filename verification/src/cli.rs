//! The command line, once parsed, and the choice of the station to show.

use vstd::prelude::*;

verus! {

/// The arguments of the dashboard.
#[derive(Debug)]
pub struct Args {
    /// The identifier of the weather station, where the user gave one.
    pub station: Option<String>,
}

/// Neither the command line nor the cache names a station.
#[derive(Clone, Copy, Debug, PartialEq, Eq, Structural)]
pub struct MissingStation;

impl MissingStation {
    /// What to tell the user.
    pub fn message(&self) -> (text: &'static str)
        ensures
            text@ == "Specify weather station identifier."@,
    {
        "Specify weather station identifier."
    }
}

impl Args {
    /// The station to show: the one on the command line, else the one
    /// remembered from the last run, else none.
    pub open spec fn chosen_station(
        station: Option<String>,
        cached: Option<String>,
    ) -> Option<String> {
        match station {
            Some(_) => station,
            None => cached,
        }
    }

    /// Chooses the station to show, given the one that was cached by the last
    /// run. The command line wins over the cache; with neither there is
    /// nothing to show.
    pub fn resolve_station(self, cached: Option<String>) -> (chosen: Result<String, MissingStation>)
        ensures
            match Self::chosen_station(self.station, cached) {
                Some(station) => chosen == Ok::<String, MissingStation>(station),
                None => chosen == Err::<String, MissingStation>(MissingStation),
            },
    {
        match self.station {
            Some(station) => Ok(station),
            None => match cached {
                Some(station) => Ok(station),
                None => Err(MissingStation),
            },
        }
    }
}

} // verus!
