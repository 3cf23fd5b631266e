use vstd::prelude::*;
use vstd::string::StrSliceExecFns;

verus! {

/// The query string of a forecast request: which city to resolve.
#[derive(Clone, Debug)]
pub struct WeatherQuery {
    pub city: String,
}

/// One rendered forecast row: a timestamp and the temperature for it,
/// both already in their textual form.
#[derive(Clone, Debug)]
pub struct Forecast {
    pub date: String,
    pub temperature: String,
}

/// The page model of a forecast: the requested city and its hourly
/// rows.
#[derive(Clone, Debug)]
pub struct WeatherDisplay {
    pub city: String,
    pub forecasts: Vec<Forecast>,
}

impl WeatherDisplay {
    /// Pairs each forecast timestamp with the temperature reported for
    /// it, position by position; the pairing stops at the shorter of
    /// the two series.
    pub fn new(city: &str, times: Vec<String>, temperatures: Vec<String>) -> (d: WeatherDisplay)
        ensures
            d.city@ == city@,
            d.forecasts@.len() == if times@.len() <= temperatures@.len() {
                times@.len()
            } else {
                temperatures@.len()
            },
            forall|i: int|
                0 <= i < d.forecasts@.len() ==> d.forecasts@[i].date@ == times@[i]@
                    && d.forecasts@[i].temperature@ == temperatures@[i]@,
    {
        let n = if times.len() <= temperatures.len() {
            times.len()
        } else {
            temperatures.len()
        };
        let mut forecasts: Vec<Forecast> = Vec::new();
        let mut i: usize = 0;
        while i < n
            invariant
                n <= times@.len(),
                n <= temperatures@.len(),
                0 <= i <= n,
                forecasts@.len() == i,
                forall|j: int|
                    0 <= j < i ==> forecasts@[j].date@ == times@[j]@
                        && forecasts@[j].temperature@ == temperatures@[j]@,
            decreases n - i,
        {
            forecasts.push(
                Forecast { date: times[i].clone(), temperature: temperatures[i].clone() },
            );
            i += 1;
        }
        WeatherDisplay { city: city.to_owned(), forecasts }
    }
}

} // verus!
