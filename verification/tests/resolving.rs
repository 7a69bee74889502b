use chat_router::air::filter_pollutants;
use chat_router::air::filter_status;
use chat_router::air::resolve_air;
use chat_router::coord::find_address_coord;
use chat_router::coord::get_coord_from_address;
use chat_router::coord::get_coord_from_place;
use chat_router::coord::join;
use chat_router::types::Address;
use chat_router::types::AirStatus;
use chat_router::types::LandLot;
use chat_router::types::Place;
use chat_router::types::Pollutant;
use chat_router::types::RequestError;
use chat_router::types::ResolveError;

fn reading(name: &str) -> Pollutant<u32> {
    Pollutant {
        name: String::from(name),
        reading: 0,
    }
}

fn names<P>(ps: &[Pollutant<P>]) -> Vec<&str> {
    ps.iter().map(|p| p.name.as_str()).collect()
}

fn station(names: &[&str]) -> AirStatus<u32> {
    AirStatus {
        station_address: String::from("1 Station Road"),
        pollutants: names.iter().map(|n| reading(n)).collect(),
    }
}

#[test]
fn join_is_both_or_nothing() {
    assert_eq!(join((Some(1), Some(2))), Some((1, 2)));
    assert_eq!(join((Some(1), None::<i32>)), None);
    assert_eq!(join((None::<i32>, Some(2))), None);
    assert_eq!(join((None::<i32>, None::<i32>)), None);
}

#[test]
fn address_with_only_longitude_yields_no_coordinate() {
    let address = Address {
        land_lot: Some(LandLot {
            longitude: Some(127.0_f32),
            latitude: None,
        }),
    };
    assert_eq!(get_coord_from_address(&address), None);
}

#[test]
fn address_without_land_lot_yields_no_coordinate() {
    let address: Address<f32> = Address { land_lot: None };
    assert_eq!(get_coord_from_address(&address), None);
}

#[test]
fn address_with_both_components_yields_coordinate() {
    let address = Address {
        land_lot: Some(LandLot {
            longitude: Some(127.0_f32),
            latitude: Some(37.5_f32),
        }),
    };
    assert_eq!(get_coord_from_address(&address), Some((127.0, 37.5)));
}

#[test]
fn place_extraction_is_both_or_nothing() {
    let whole = Place {
        longitude: Some(127.0_f32),
        latitude: Some(37.5_f32),
    };
    let partial = Place {
        longitude: None,
        latitude: Some(37.5_f32),
    };
    assert_eq!(get_coord_from_place(&whole), Some((127.0, 37.5)));
    assert_eq!(get_coord_from_place(&partial), None);
}

#[test]
fn first_coordinate_bearing_candidate_wins() {
    let addresses = vec![
        Address::<u32> { land_lot: None },
        Address {
            land_lot: Some(LandLot {
                longitude: Some(1),
                latitude: None,
            }),
        },
        Address {
            land_lot: Some(LandLot {
                longitude: Some(2),
                latitude: Some(3),
            }),
        },
        Address {
            land_lot: Some(LandLot {
                longitude: Some(4),
                latitude: Some(5),
            }),
        },
    ];
    assert_eq!(find_address_coord(&addresses), Some((2, 3)));
}

#[test]
fn pm_command_keeps_names_containing_pm() {
    let filtered = filter_pollutants(station(&["PM10", "PM25", "O3"]).pollutants, "pm");
    assert_eq!(names(&filtered), vec!["PM10", "PM25"]);
}

#[test]
fn o3_command_keeps_o3_by_lowercased_name() {
    let filtered = filter_pollutants(station(&["PM10", "PM25", "O3"]).pollutants, "o3");
    assert_eq!(names(&filtered), vec!["O3"]);
}

#[test]
fn air_command_keeps_everything() {
    let filtered = filter_pollutants(station(&["PM10", "PM25", "O3"]).pollutants, "air");
    assert_eq!(names(&filtered), vec!["PM10", "PM25", "O3"]);
}

#[test]
fn unknown_command_empties_the_list_and_fails() {
    assert_eq!(
        filter_status(station(&["PM10", "PM25", "O3"]), "xyz"),
        Err(RequestError::InvalidAirkoreaCommand(String::from("xyz")))
    );
}

#[test]
fn filtering_keeps_the_station_address() {
    let result = filter_status(station(&["PM10", "O3"]), "pm").expect("kept");
    assert_eq!(result.station_address, "1 Station Road");
    assert_eq!(names(&result.pollutants), vec!["PM10"]);
}

fn coordless_address() -> Address<u32> {
    Address {
        land_lot: Some(LandLot {
            longitude: Some(9),
            latitude: None,
        }),
    }
}

fn located_place() -> Place<u32> {
    Place {
        longitude: Some(1),
        latitude: Some(2),
    }
}

#[test]
fn fallback_reaches_keyword_stage_before_failing() {
    // The address stage yields no coordinate, so the keyword stage decides.
    let outcome = resolve_air::<u32, u32, String>(
        "pm",
        "Seoul",
        Ok(vec![coordless_address()]),
        Ok(vec![located_place()]),
        Ok(station(&["PM10", "O3"])),
    );
    let status = outcome.expect("keyword fallback should succeed");
    assert_eq!(names(&status.pollutants), vec!["PM10"]);
}

#[test]
fn address_not_found_only_after_both_stages_yield_nothing() {
    let outcome = resolve_air::<u32, u32, String>(
        "pm",
        "Nowhere",
        Ok(vec![coordless_address()]),
        Ok(vec![]),
        Ok(station(&["PM10"])),
    );
    assert_eq!(
        outcome,
        Err(ResolveError::Request(RequestError::AddressNotFound(
            String::from("Nowhere")
        )))
    );
}

#[test]
fn address_stage_error_is_swallowed_by_the_fallback() {
    let outcome = resolve_air::<u32, u32, String>(
        "air",
        "Seoul",
        Err(String::from("geocoder down")),
        Ok(vec![located_place()]),
        Ok(station(&["PM10", "O3"])),
    );
    let status = outcome.expect("fallback should succeed");
    assert_eq!(names(&status.pollutants), vec!["PM10", "O3"]);
}

#[test]
fn keyword_stage_error_passes_through() {
    let outcome = resolve_air::<u32, u32, String>(
        "air",
        "Seoul",
        Ok(vec![]),
        Err(String::from("keyword search down")),
        Ok(station(&["PM10"])),
    );
    assert_eq!(
        outcome,
        Err(ResolveError::Upstream(String::from("keyword search down")))
    );
}

#[test]
fn station_error_passes_through() {
    let outcome = resolve_air::<u32, u32, String>(
        "air",
        "Seoul",
        Ok(vec![]),
        Ok(vec![located_place()]),
        Err(String::from("station down")),
    );
    assert_eq!(
        outcome,
        Err(ResolveError::Upstream(String::from("station down")))
    );
}

#[test]
fn invalid_command_is_reported_after_geocoding() {
    let outcome = resolve_air::<u32, u32, String>(
        "xyz",
        "Seoul",
        Ok(vec![]),
        Ok(vec![located_place()]),
        Ok(station(&["PM10", "PM25", "O3"])),
    );
    assert_eq!(
        outcome,
        Err(ResolveError::Request(RequestError::InvalidAirkoreaCommand(
            String::from("xyz")
        )))
    );
}

#[test]
fn resolving_twice_gives_the_same_outcome() {
    let addresses = || Ok::<_, String>(vec![coordless_address()]);
    let places = || Ok::<_, String>(vec![located_place()]);
    let status = || Ok::<_, String>(station(&["PM10", "PM25", "O3"]));
    let first = resolve_air("pm", "Seoul", addresses(), places(), status());
    let second = resolve_air("pm", "Seoul", addresses(), places(), status());
    assert_eq!(first, second);
}
