use geocache::display::{Forecast, WeatherDisplay, WeatherQuery};

#[test]
fn pairs_each_time_with_its_temperature() {
    let times = vec!["2024-01-01T00:00".to_string(), "2024-01-01T01:00".to_string()];
    let temperatures = vec![format!("{}", 1.5), format!("{}", -0.5)];
    let d = WeatherDisplay::new("Paris", times, temperatures);
    assert_eq!(d.city, "Paris");
    assert_eq!(d.forecasts.len(), 2);
    assert_eq!(d.forecasts[0].date, "2024-01-01T00:00");
    assert_eq!(d.forecasts[0].temperature, "1.5");
    assert_eq!(d.forecasts[1].date, "2024-01-01T01:00");
    assert_eq!(d.forecasts[1].temperature, "-0.5");
}

#[test]
fn pairing_stops_at_the_shorter_series() {
    let times = vec!["a".to_string(), "b".to_string(), "c".to_string()];
    let temperatures = vec!["1".to_string()];
    let d = WeatherDisplay::new("X", times, temperatures);
    assert_eq!(d.forecasts.len(), 1);
    assert_eq!(d.forecasts[0].date, "a");
    assert_eq!(d.forecasts[0].temperature, "1");
}

#[test]
fn display_types_carry_their_fields() {
    let q = WeatherQuery { city: "Oslo".to_string() };
    assert_eq!(q.city, "Oslo");
    let f = Forecast { date: "d".to_string(), temperature: "t".to_string() };
    assert_eq!(f.date, "d");
    assert_eq!(f.temperature, "t");
}
