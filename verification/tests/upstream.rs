use url::Url;
use weather_gateway::upstream::{to_weather_url, ENDPOINT};

#[test]
fn the_endpoint_is_the_current_weather_service() {
    assert_eq!(ENDPOINT, "https://api.openweathermap.org/data/2.5/weather");
}

#[test]
fn address_for_a_plain_city() {
    assert_eq!(
        to_weather_url("London", "secret"),
        "https://api.openweathermap.org/data/2.5/weather?q=London&appid=secret&units=metric"
    );
}

#[test]
fn address_for_a_city_with_a_space() {
    assert_eq!(
        to_weather_url("New York", "0123456789abcdef"),
        "https://api.openweathermap.org/data/2.5/weather?q=New%20York&appid=0123456789abcdef&units=metric"
    );
}

#[test]
fn address_for_an_empty_city_and_an_empty_key() {
    assert_eq!(
        to_weather_url("", ""),
        "https://api.openweathermap.org/data/2.5/weather?q=&appid=&units=metric"
    );
}

#[test]
fn the_city_cannot_add_a_parameter() {
    assert_eq!(
        to_weather_url("x&appid=other#", "secret"),
        "https://api.openweathermap.org/data/2.5/weather?q=x%26appid%3Dother%23&appid=secret&units=metric"
    );
}

#[test]
fn the_key_goes_in_as_it_is() {
    assert_eq!(
        to_weather_url("Oslo", "k-1_2.3~4"),
        "https://api.openweathermap.org/data/2.5/weather?q=Oslo&appid=k-1_2.3~4&units=metric"
    );
    assert_eq!(
        to_weather_url("Oslo", "a b"),
        "https://api.openweathermap.org/data/2.5/weather?q=Oslo&appid=a b&units=metric"
    );
}

#[test]
fn a_url_parser_reads_the_city_back() {
    let cities = [
        "London",
        "New York",
        "London,uk",
        "São Paulo",
        "東京",
        "a&b=c#d",
        "100% + more",
        "x&appid=other",
        "",
        "\"<>'`{}|\\^",
        "tab\tand\nnewline",
    ];
    for city in cities {
        let address = to_weather_url(city, "secret");
        let parsed = Url::parse(&address).unwrap();
        assert_eq!(parsed.as_str(), address, "the parser leaves the address as it is");
        assert_eq!(parsed.scheme(), "https");
        assert_eq!(parsed.host_str(), Some("api.openweathermap.org"));
        assert_eq!(parsed.path(), "/data/2.5/weather");
        assert_eq!(parsed.fragment(), None);
        let pairs: Vec<(String, String)> = parsed.query_pairs().into_owned().collect();
        assert_eq!(
            pairs,
            vec![
                ("q".to_string(), city.to_string()),
                ("appid".to_string(), "secret".to_string()),
                ("units".to_string(), "metric".to_string()),
            ]
        );
    }
}
