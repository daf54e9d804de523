//! The address at which the upstream weather service is asked.

use crate::percent::{push_query_value, query_value};
use vstd::prelude::*;

verus! {

/// Where the upstream service answers questions about the current weather.
pub const ENDPOINT: &'static str = "https://api.openweathermap.org/data/2.5/weather";

/// The address that asks the upstream service for the weather in `city`, in
/// metric units, on the credential `key`. The city goes in as a query value,
/// so that whatever it holds reaches the service as the name of a city and
/// as nothing else; the credential goes in as it is.
pub open spec fn weather_url(city: Seq<char>, key: Seq<char>) -> Seq<char> {
    ENDPOINT@ + "?q="@ + query_value(city) + "&appid="@ + key + "&units=metric"@
}

/// Builds the address that `weather_url` describes.
pub fn to_weather_url(city: &str, key: &str) -> (url: String)
    ensures
        url@ == weather_url(city@, key@),
{
    let mut url = ENDPOINT.to_owned();
    url.append("?q=");
    push_query_value(&mut url, city);
    url.append("&appid=");
    url.append(key);
    url.append("&units=metric");
    url
}

} // verus!
