use chat_router::types::Request;
use chat_router::types::RequestError;

fn parsed(text: &str) -> Request {
    Request::from_str(text).expect("should parse")
}

#[test]
fn parses_dictionary_short_form() {
    assert_eq!(
        parsed("d hello"),
        Request::Dictionary(String::from("hello"))
    );
}

#[test]
fn parses_dictionary_long_form() {
    assert_eq!(
        parsed("dic hello world"),
        Request::Dictionary(String::from("hello world"))
    );
}

#[test]
fn parses_dictionary_capital_letter() {
    assert_eq!(parsed("D word"), Request::Dictionary(String::from("word")));
    assert_eq!(
        parsed("Dic word"),
        Request::Dictionary(String::from("word"))
    );
}

#[test]
fn rejects_bare_pm2() {
    assert_eq!(
        Request::from_str("pm2"),
        Err(RequestError::CannotParseRequest(String::from("pm2")))
    );
}

#[test]
fn rejects_unknown_air_command_with_query() {
    assert_eq!(
        Request::from_str("pm2 Seoul"),
        Err(RequestError::CannotParseRequest(String::from("pm2 Seoul")))
    );
}

#[test]
fn parses_air_and_pm10_commands() {
    assert_eq!(
        parsed("air Seoul"),
        Request::AirPollution(String::from("air"), String::from("Seoul"))
    );
    assert_eq!(
        parsed("pm10 Busan"),
        Request::AirPollution(String::from("pm10"), String::from("Busan"))
    );
}

#[test]
fn parses_every_air_command() {
    for cmd in ["air", "pm", "pm10", "pm25", "o3", "so2", "no2", "co"] {
        let text = format!("{} Daejeon", cmd);
        assert_eq!(
            Request::from_str(&text),
            Ok(Request::AirPollution(
                String::from(cmd),
                String::from("Daejeon")
            ))
        );
    }
}

#[test]
fn parses_howto_both_forms() {
    assert_eq!(
        parsed("howto boil an egg"),
        Request::HowTo(String::from("boil an egg"))
    );
    assert_eq!(
        parsed("h boil an egg"),
        Request::HowTo(String::from("boil an egg"))
    );
}

#[test]
fn rejects_lines_without_query() {
    for text in ["", "d", "d ", "dic", "dic ", "air", "air ", "h", "howto ", "pm"] {
        assert_eq!(
            Request::from_str(text),
            Err(RequestError::CannotParseRequest(String::from(text))),
            "text: {:?}",
            text
        );
    }
}

#[test]
fn rejects_unrelated_text() {
    assert_eq!(
        Request::from_str("weather tomorrow"),
        Err(RequestError::CannotParseRequest(String::from(
            "weather tomorrow"
        )))
    );
}

#[test]
fn dictionary_prefix_wins_over_air_lookalikes() {
    // A dictionary query may itself start like an air command.
    assert_eq!(
        parsed("d pm10 Busan"),
        Request::Dictionary(String::from("pm10 Busan"))
    );
}

#[test]
fn formats_round_trip_through_parser() {
    let requests = vec![
        Request::Dictionary(String::from("hello world")),
        Request::AirPollution(String::from("pm25"), String::from("Seoul")),
        Request::AirPollution(String::from("air"), String::from("Jeju")),
        Request::HowTo(String::from("boil an egg")),
    ];
    for req in requests {
        let line = req.to_command();
        assert_eq!(Request::from_str(&line), Ok(req));
    }
}
