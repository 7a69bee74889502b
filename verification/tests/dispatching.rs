use chat_router::dispatch::dictionary_response;
use chat_router::dispatch::howto_response;
use chat_router::dispatch::Route;
use chat_router::types::Config;
use chat_router::types::Request;
use chat_router::types::RequestError;
use chat_router::types::Response;

fn config() -> Config {
    Config {
        daummap_app_key: String::from("test-app-key"),
    }
}

#[test]
fn dictionary_request_routes_to_dictionary_lookup() {
    let route = Request::Dictionary(String::from("hello")).route(&config());
    assert_eq!(route, Route::Dictionary(String::from("hello")));
}

#[test]
fn air_request_routes_with_the_credential() {
    let route = Request::AirPollution(String::from("pm10"), String::from("Busan"))
        .route(&config());
    assert_eq!(
        route,
        Route::Air(
            String::from("pm10"),
            String::from("Busan"),
            String::from("test-app-key")
        )
    );
}

#[test]
fn howto_request_routes_to_howto_lookup() {
    let route = Request::HowTo(String::from("boil an egg")).route(&config());
    assert_eq!(route, Route::HowTo(String::from("boil an egg")));
}

#[test]
fn dictionary_result_passes_through() {
    let response: Response<&str, u32, &str> = dictionary_response("a word entry");
    assert_eq!(response, Response::Dictionary("a word entry"));
}

#[test]
fn howto_answer_passes_through() {
    let response: Result<Response<u32, u32, &str>, RequestError> =
        howto_response(Some("crack it first"), "boil an egg");
    assert_eq!(response, Ok(Response::HowTo("crack it first")));
}

#[test]
fn missing_howto_answer_becomes_not_found() {
    let response: Result<Response<u32, u32, String>, RequestError> =
        howto_response(None, "boil an egg");
    assert_eq!(
        response,
        Err(RequestError::HowtoNotFound(String::from("boil an egg")))
    );
}
