//! The image that is shown for a city.

use vstd::prelude::*;
use vstd::string::*;
use crate::text::{lowercase_of, same_text, to_lowercase};

verus! {

/// The image shown behind a scene: one for each supported city, and an empty
/// one for every other place.
#[derive(Clone, Copy, Debug, PartialEq, Eq, Structural)]
pub enum CityImage {
    Kyoto,
    Tokyo,
    London,
    Madrid,
    Nashville,
    NewYork,
    Empty,
}

/// The image of a city whose name is already in lowercase.
pub open spec fn image_of_lowercase(name: Seq<char>) -> CityImage {
    if name == "kyoto"@ {
        CityImage::Kyoto
    } else if name == "tokyo"@ {
        CityImage::Tokyo
    } else if name == "london"@ {
        CityImage::London
    } else if name == "madrid"@ {
        CityImage::Madrid
    } else if name == "nashville"@ {
        CityImage::Nashville
    } else if name == "new york"@ {
        CityImage::NewYork
    } else {
        CityImage::Empty
    }
}

impl CityImage {
    /// Where the image file lies.
    pub open spec fn path(self) -> Seq<char> {
        match self {
            CityImage::Kyoto => "src/assets/kyoto.png"@,
            CityImage::Tokyo => "src/assets/tokyo.png"@,
            CityImage::London => "src/assets/london.png"@,
            CityImage::Madrid => "src/assets/madrid.png"@,
            CityImage::Nashville => "src/assets/nashville.png"@,
            CityImage::NewYork => "src/assets/newyork.png"@,
            CityImage::Empty => "src/assets/Empty.png"@,
        }
    }

    /// Where the image file lies.
    pub fn filepath(self) -> (path: &'static str)
        ensures
            path@ == self.path(),
    {
        match self {
            CityImage::Kyoto => "src/assets/kyoto.png",
            CityImage::Tokyo => "src/assets/tokyo.png",
            CityImage::London => "src/assets/london.png",
            CityImage::Madrid => "src/assets/madrid.png",
            CityImage::Nashville => "src/assets/nashville.png",
            CityImage::NewYork => "src/assets/newyork.png",
            CityImage::Empty => "src/assets/Empty.png",
        }
    }
}

/// Finds the image of a city by its lowercase name. Any name but the six
/// supported ones gets the empty image.
pub fn resolve_lowercase(name: &str) -> (image: CityImage)
    ensures
        image == image_of_lowercase(name@),
{
    if same_text(name, "kyoto") {
        CityImage::Kyoto
    } else if same_text(name, "tokyo") {
        CityImage::Tokyo
    } else if same_text(name, "london") {
        CityImage::London
    } else if same_text(name, "madrid") {
        CityImage::Madrid
    } else if same_text(name, "nashville") {
        CityImage::Nashville
    } else if same_text(name, "new york") {
        CityImage::NewYork
    } else {
        CityImage::Empty
    }
}

/// Finds the image of a city, whatever the case its name is written in.
pub fn resolve(city: &str) -> (image: CityImage)
    ensures
        image == image_of_lowercase(lowercase_of(city@)),
{
    let lowered = to_lowercase(city);
    resolve_lowercase(lowered.as_str())
}

/// The path of the image file of a city, whatever the case its name is
/// written in.
pub fn get_city_filepath(city: &String) -> (filepath: String)
    ensures
        filepath@ == image_of_lowercase(lowercase_of(city@)).path(),
{
    String::from_str(resolve(city.as_str()).filepath())
}

} // verus!
