//! Weather samples, the request that asks for one, and what stands in for a
//! sample when the request fails.

use vstd::prelude::*;
use vstd::string::*;
use crate::color::Temperature;
use crate::text::{decimal, digit, digit_char, push_char, push_decimal};

verus! {

/// One weather report for one city. It is not changed after it is made: a new
/// city gets a new sample.
#[derive(Clone, Debug)]
pub struct WeatherSample {
    temperature: Temperature,
    condition_code: i64,
    description: String,
    city_name: String,
}

/// What a weather sample holds.
pub struct WeatherSampleView {
    pub temperature: Temperature,
    pub condition_code: i64,
    pub description: Seq<char>,
    pub city_name: Seq<char>,
}

impl View for WeatherSample {
    type V = WeatherSampleView;

    closed spec fn view(&self) -> WeatherSampleView {
        WeatherSampleView {
            temperature: self.temperature,
            condition_code: self.condition_code,
            description: self.description@,
            city_name: self.city_name@,
        }
    }
}

impl WeatherSample {
    /// Makes a sample from its four parts.
    pub fn new(
        temperature: Temperature,
        condition_code: i64,
        description: String,
        city_name: String,
    ) -> (sample: WeatherSample)
        ensures
            sample@ == (WeatherSampleView {
                temperature,
                condition_code,
                description: description@,
                city_name: city_name@,
            }),
    {
        WeatherSample { temperature, condition_code, description, city_name }
    }

    /// The temperature of the report.
    pub fn temperature(&self) -> (t: Temperature)
        ensures
            t == self@.temperature,
    {
        self.temperature
    }

    /// The condition code of the report.
    pub fn condition_code(&self) -> (code: i64)
        ensures
            code == self@.condition_code,
    {
        self.condition_code
    }

    /// The forecast in words.
    pub fn description(&self) -> (text: &str)
        ensures
            text@ == self@.description,
    {
        self.description.as_str()
    }

    /// The name of the city that the report is for.
    pub fn city_name(&self) -> (text: &str)
        ensures
            text@ == self@.city_name,
    {
        self.city_name.as_str()
    }
}

/// What an answer of the weather service holds of the four parts of a sample.
/// A part that the answer lacks, or holds in another form, is `None`.
#[derive(Clone, Debug)]
pub struct Report {
    pub temperature: Option<Temperature>,
    pub condition_code: Option<i64>,
    pub description: Option<String>,
    pub city_name: Option<String>,
}

/// What a report holds.
pub struct ReportView {
    pub temperature: Option<Temperature>,
    pub condition_code: Option<i64>,
    pub description: Option<Seq<char>>,
    pub city_name: Option<Seq<char>>,
}

impl View for Report {
    type V = ReportView;

    open spec fn view(&self) -> ReportView {
        ReportView {
            temperature: self.temperature,
            condition_code: self.condition_code,
            description: match self.description {
                Some(text) => Some(text@),
                None => None,
            },
            city_name: match self.city_name {
                Some(text) => Some(text@),
                None => None,
            },
        }
    }
}

/// The sample that a report gives: one that is made of its four parts, where
/// all four are there.
pub open spec fn sample_of_report(report: ReportView) -> Option<WeatherSampleView> {
    if report.temperature is Some && report.condition_code is Some && report.description is Some
        && report.city_name is Some {
        Some(
            WeatherSampleView {
                temperature: report.temperature->0,
                condition_code: report.condition_code->0,
                description: report.description->0,
                city_name: report.city_name->0,
            },
        )
    } else {
        None
    }
}

/// Whether a sample that may be missing holds what a view that may be
/// missing says.
pub open spec fn shows(sample: Option<WeatherSample>, view: Option<WeatherSampleView>) -> bool {
    match (sample, view) {
        (Some(s), Some(v)) => s@ == v,
        (None, None) => true,
        _ => false,
    }
}

/// Makes the sample of a report. A report that lacks one of the four parts
/// gives no sample.
pub fn sample_from_report(report: Report) -> (sample: Option<WeatherSample>)
    ensures
        shows(sample, sample_of_report(report@)),
{
    match (report.temperature, report.condition_code, report.description, report.city_name) {
        (Some(temperature), Some(condition_code), Some(description), Some(city_name)) => Some(
            WeatherSample::new(temperature, condition_code, description, city_name),
        ),
        _ => None,
    }
}

/// What is said on the console about a sample that was fetched.
pub open spec fn announcement_of(sample: WeatherSampleView) -> Seq<char> {
    "The temperature in "@ + sample.city_name + " is "@ + temperature_text_of(sample.temperature)
        + " degrees Celsius and the forecast is: "@ + sample.description
}

/// Writes what is said on the console about a sample that was fetched.
pub fn announcement(sample: &WeatherSample) -> (text: String)
    ensures
        text@ == announcement_of(sample@),
{
    let mut text = String::from_str("The temperature in ");
    text.append(sample.city_name());
    text.append(" is ");
    let reading = temperature_text(&sample.temperature());
    text.append(reading.as_str());
    text.append(" degrees Celsius and the forecast is: ");
    text.append(sample.description());
    text
}

/// Why no sample could be had for a city.
#[derive(Clone, Copy, Debug, PartialEq, Eq, Structural)]
pub enum FetchError {
    /// The weather service knows no city of that name.
    UnknownCity,
    /// The weather service could not be reached or did not answer the request.
    ServiceFailure,
}

/// The sample that stands in for a failed request: zero degrees, the fallback
/// code 0 and a description that says no data is available.
pub open spec fn sentinel_view(city_name: Seq<char>) -> WeatherSampleView {
    WeatherSampleView {
        temperature: Temperature::Hundredths(0),
        condition_code: 0,
        description: "No weather data available"@,
        city_name,
    }
}

/// The sample that stands in for a failed request.
pub fn sentinel(city_name: &str) -> (sample: WeatherSample)
    ensures
        sample@ == sentinel_view(city_name@),
{
    WeatherSample::new(
        Temperature::Hundredths(0),
        0,
        String::from_str("No weather data available"),
        String::from_str(city_name),
    )
}

/// Settles the outcome of a request for a city's weather: a sample that was
/// fetched is kept as it is, and any failure is replaced by the sentinel
/// sample. A failure is never handed on to the caller.
pub fn sample_or_sentinel(city_name: &str, outcome: Result<WeatherSample, FetchError>) -> (sample:
    WeatherSample)
    ensures
        outcome matches Ok(fetched) ==> sample == fetched,
        outcome is Err ==> sample@ == sentinel_view(city_name@),
{
    match outcome {
        Ok(fetched) => fetched,
        Err(_) => sentinel(city_name),
    }
}

/// The address that is asked for the current weather of a city, in metric units.
pub open spec fn weather_url_of(city: Seq<char>, api_key: Seq<char>) -> Seq<char> {
    "https://api.openweathermap.org/data/2.5/weather?q="@ + city + "&appid="@ + api_key
        + "&units=metric"@
}

/// Writes the address that is asked for the current weather of a city.
pub fn weather_url(city: &str, api_key: &str) -> (url: String)
    ensures
        url@ == weather_url_of(city@, api_key@),
{
    let mut url = String::from_str("https://api.openweathermap.org/data/2.5/weather?q=");
    url.append(city);
    url.append("&appid=");
    url.append(api_key);
    url.append("&units=metric");
    url
}

/// The size of a number, whatever its sign.
pub open spec fn magnitude(h: int) -> nat {
    if h < 0 {
        (-h) as nat
    } else {
        h as nat
    }
}

/// The decimal places of a reading: none for whole degrees, one where the
/// hundredths end in zero, else two.
pub open spec fn fraction_text(hundredths: nat) -> Seq<char>
    recommends
        hundredths < 100,
{
    if hundredths == 0 {
        Seq::empty()
    } else if hundredths % 10 == 0 {
        seq!['.', digit_char((hundredths / 10) as int)]
    } else {
        seq!['.', digit_char((hundredths / 10) as int), digit_char((hundredths % 10) as int)]
    }
}

/// A temperature in degrees as it is shown: a minus sign below zero, the
/// whole degrees, and the decimal places that are not zero.
pub open spec fn temperature_text_of(t: Temperature) -> Seq<char> {
    match t {
        Temperature::NotANumber => "NaN"@,
        Temperature::Hundredths(h) => {
            let sign = if h < 0 {
                seq!['-']
            } else {
                Seq::<char>::empty()
            };
            sign + decimal(magnitude(h as int) / 100) + fraction_text(magnitude(h as int) % 100)
        },
    }
}

/// Writes a temperature in degrees as it is shown.
pub fn temperature_text(t: &Temperature) -> (text: String)
    ensures
        text@ == temperature_text_of(*t),
{
    match *t {
        Temperature::NotANumber => String::from_str("NaN"),
        Temperature::Hundredths(h) => {
            let mut text = String::new();
            let size: u64 = if h < 0 {
                push_char(&mut text, '-');
                ((-(h + 1)) as u64) + 1
            } else {
                h as u64
            };
            assert(size == magnitude(h as int));
            push_decimal(&mut text, size / 100);
            let rest: u64 = size % 100;
            if rest != 0 {
                push_char(&mut text, '.');
                push_char(&mut text, digit(rest / 10));
                if rest % 10 != 0 {
                    push_char(&mut text, digit(rest % 10));
                }
            }
            assert(text@ =~= temperature_text_of(*t));
            text
        },
    }
}

} // verus!
