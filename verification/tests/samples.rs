use weather_scene::city::{resolve, resolve_lowercase, CityImage};
use weather_scene::color::Temperature;
use weather_scene::sample::{
    announcement, sample_from_report, sample_or_sentinel, sentinel, temperature_text, weather_url,
    FetchError, Report, WeatherSample,
};
use weather_scene::text::{digit, push_decimal, same_text};

fn shown(hundredths: i64) -> String {
    temperature_text(&Temperature::Hundredths(hundredths))
}

#[test]
fn temperature_is_shown_like_a_decimal_number() {
    assert_eq!(shown(2000), "20");
    assert_eq!(shown(2000), 20.0_f64.to_string());
    assert_eq!(shown(1234), "12.34");
    assert_eq!(shown(1234), 12.34_f64.to_string());
    assert_eq!(shown(1230), "12.3");
    assert_eq!(shown(1203), "12.03");
    assert_eq!(shown(-550), "-5.5");
    assert_eq!(shown(-550), (-5.5_f64).to_string());
    assert_eq!(shown(0), "0");
    assert_eq!(shown(5), "0.05");
    assert_eq!(shown(-5), "-0.05");
    assert_eq!(shown(50), "0.5");
    assert_eq!(shown(-99), "-0.99");
    assert_eq!(shown(100), "1");
    assert_eq!(shown(-100), "-1");
    assert_eq!(shown(99999), "999.99");
}

#[test]
fn temperature_text_at_the_limits() {
    assert_eq!(shown(i64::MAX), "92233720368547758.07");
    assert_eq!(shown(i64::MIN), "-92233720368547758.08");
    assert_eq!(temperature_text(&Temperature::NotANumber), "NaN");
    assert_eq!(temperature_text(&Temperature::NotANumber), f64::NAN.to_string());
}

#[test]
fn temperature_text_agrees_with_the_float_for_every_hundredth() {
    let mut h: i64 = -6000;
    while h <= 6000 {
        let float = h as f64 / 100.0;
        if h != 0 {
            assert_eq!(shown(h), float.to_string(), "hundredths {}", h);
        }
        h += 1;
    }
}

#[test]
fn decimal_digits() {
    let mut text = String::from("n=");
    push_decimal(&mut text, 0);
    assert_eq!(text, "n=0");
    push_decimal(&mut text, 907);
    assert_eq!(text, "n=0907");
    let mut big = String::new();
    push_decimal(&mut big, u64::MAX);
    assert_eq!(big, "18446744073709551615");
    let digits: String = (0..10).map(digit).collect();
    assert_eq!(digits, "0123456789");
}

#[test]
fn texts_are_compared_by_their_characters() {
    assert!(same_text("w", "w"));
    assert!(!same_text("w", "W"));
    assert!(!same_text("w", "w "));
    assert!(same_text("", ""));
}

#[test]
fn url_asks_for_metric_weather() {
    assert_eq!(
        weather_url("London", "SECRET"),
        "https://api.openweathermap.org/data/2.5/weather?q=London&appid=SECRET&units=metric"
    );
    assert_eq!(
        weather_url("", ""),
        "https://api.openweathermap.org/data/2.5/weather?q=&appid=&units=metric"
    );
    assert_eq!(
        weather_url("New York", "k"),
        "https://api.openweathermap.org/data/2.5/weather?q=New York&appid=k&units=metric"
    );
}

#[test]
fn sentinel_says_that_no_data_is_available() {
    let s = sentinel("Atlantis");
    assert_eq!(s.temperature(), Temperature::Hundredths(0));
    assert_eq!(s.condition_code(), 0);
    assert_eq!(s.description(), "No weather data available");
    assert_eq!(s.city_name(), "Atlantis");
}

#[test]
fn a_failed_fetch_is_replaced_by_the_sentinel() {
    for error in [FetchError::UnknownCity, FetchError::ServiceFailure] {
        let s = sample_or_sentinel("Atlantis", Err(error));
        assert_eq!(s.temperature(), Temperature::Hundredths(0));
        assert_eq!(s.condition_code(), 0);
        assert_eq!(s.description(), "No weather data available");
        assert_eq!(s.city_name(), "Atlantis");
    }
}

#[test]
fn a_fetched_sample_is_kept() {
    let fetched = WeatherSample::new(
        Temperature::Hundredths(1234),
        501,
        "moderate rain".to_string(),
        "London".to_string(),
    );
    let s = sample_or_sentinel("london", Ok(fetched));
    assert_eq!(s.temperature(), Temperature::Hundredths(1234));
    assert_eq!(s.condition_code(), 501);
    assert_eq!(s.description(), "moderate rain");
    assert_eq!(s.city_name(), "London");
}

#[test]
fn cities_are_found_in_any_case() {
    assert_eq!(resolve("KYOTO"), CityImage::Kyoto);
    assert_eq!(resolve("kyoto"), CityImage::Kyoto);
    assert_eq!(resolve("tOkYo"), CityImage::Tokyo);
    assert_eq!(resolve("London"), CityImage::London);
    assert_eq!(resolve("MADRID"), CityImage::Madrid);
    assert_eq!(resolve("Nashville"), CityImage::Nashville);
    assert_eq!(resolve("NEW YORK"), CityImage::NewYork);
    assert_eq!(resolve("\u{212a}yoto"), CityImage::Kyoto);
}

#[test]
fn other_names_get_the_empty_image() {
    assert_eq!(resolve("Unknown City"), CityImage::Empty);
    assert_eq!(resolve(""), CityImage::Empty);
    assert_eq!(resolve("NewYork"), CityImage::Empty);
    assert_eq!(resolve(" kyoto"), CityImage::Empty);
    assert_eq!(resolve("kyoto "), CityImage::Empty);
    assert_eq!(resolve_lowercase("Kyoto"), CityImage::Empty);
    assert_eq!(resolve_lowercase("kyoto"), CityImage::Kyoto);
    assert_eq!(resolve_lowercase("new york"), CityImage::NewYork);
}

#[test]
fn images_have_their_files() {
    assert_eq!(CityImage::Kyoto.filepath(), "src/assets/kyoto.png");
    assert_eq!(CityImage::Tokyo.filepath(), "src/assets/tokyo.png");
    assert_eq!(CityImage::London.filepath(), "src/assets/london.png");
    assert_eq!(CityImage::Madrid.filepath(), "src/assets/madrid.png");
    assert_eq!(CityImage::Nashville.filepath(), "src/assets/nashville.png");
    assert_eq!(CityImage::NewYork.filepath(), "src/assets/newyork.png");
    assert_eq!(CityImage::Empty.filepath(), "src/assets/Empty.png");
}

fn full_report() -> Report {
    Report {
        temperature: Some(Temperature::Hundredths(1234)),
        condition_code: Some(501),
        description: Some("moderate rain".to_string()),
        city_name: Some("London".to_string()),
    }
}

#[test]
fn a_full_report_gives_its_sample() {
    let s = sample_from_report(full_report()).unwrap();
    assert_eq!(s.temperature(), Temperature::Hundredths(1234));
    assert_eq!(s.condition_code(), 501);
    assert_eq!(s.description(), "moderate rain");
    assert_eq!(s.city_name(), "London");
}

#[test]
fn a_report_that_lacks_a_part_gives_no_sample() {
    assert!(sample_from_report(Report { temperature: None, ..full_report() }).is_none());
    assert!(sample_from_report(Report { condition_code: None, ..full_report() }).is_none());
    assert!(sample_from_report(Report { description: None, ..full_report() }).is_none());
    assert!(sample_from_report(Report { city_name: None, ..full_report() }).is_none());
    let empty = Report { temperature: None, condition_code: None, description: None, city_name: None };
    assert!(sample_from_report(empty).is_none());
}

#[test]
fn announcement_names_city_temperature_and_forecast() {
    let s = sample_from_report(full_report()).unwrap();
    assert_eq!(
        announcement(&s),
        "The temperature in London is 12.34 degrees Celsius and the forecast is: moderate rain"
    );
    assert_eq!(
        announcement(&s),
        format!(
            "The temperature in {} is {} degrees Celsius and the forecast is: {}",
            "London", 12.34_f64, "moderate rain"
        )
    );
    let cold = WeatherSample::new(
        Temperature::Hundredths(-700),
        600,
        "light snow".to_string(),
        "Oslo".to_string(),
    );
    assert_eq!(
        announcement(&cold),
        "The temperature in Oslo is -7 degrees Celsius and the forecast is: light snow"
    );
}
