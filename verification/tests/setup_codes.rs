use war_v2::setup::{Location, Setup, Weather};

#[test]
fn location_codes_select_theatres() {
    assert_eq!(Location::parse("ypres"), Location::Ypres);
    assert_eq!(Location::parse("gallipoli"), Location::Gallipoli);
    assert_eq!(Location::parse("sinai"), Location::Sinai);
    assert_eq!(Location::parse("verdun"), Location::Verdun);
    assert_eq!(Location::parse("somme"), Location::Somme);
}

#[test]
fn unknown_location_code_is_the_somme() {
    assert_eq!(Location::parse(""), Location::Somme);
    assert_eq!(Location::parse("Ypres"), Location::Somme);
    assert_eq!(Location::parse("ypres "), Location::Somme);
    assert_eq!(Location::parse("ypresx"), Location::Somme);
}

#[test]
fn weather_codes_select_weather() {
    assert_eq!(Weather::parse("clear"), Weather::Clear);
    assert_eq!(Weather::parse("rain"), Weather::Rain);
    assert_eq!(Weather::parse("fog"), Weather::Fog);
    assert_eq!(Weather::parse("snow"), Weather::Snow);
    assert_eq!(Weather::parse("overcast"), Weather::Overcast);
    assert_eq!(Weather::parse("hail"), Weather::Overcast);
    assert_eq!(Weather::parse(""), Weather::Overcast);
}

#[test]
fn names_shown_in_the_interface() {
    assert_eq!(Location::Somme.name(), "The Somme");
    assert_eq!(Location::Ypres.name(), "Ypres / Flanders");
    assert_eq!(Location::Gallipoli.name(), "Gallipoli");
    assert_eq!(Location::Sinai.name(), "Sinai & Palestine");
    assert_eq!(Location::Verdun.name(), "Verdun");
    assert_eq!(Weather::Clear.name(), "Clear");
    assert_eq!(Weather::Overcast.name(), "Overcast");
    assert_eq!(Weather::Rain.name(), "Rain");
    assert_eq!(Weather::Fog.name(), "Fog");
    assert_eq!(Weather::Snow.name(), "Snow");
}

#[test]
fn crater_density_per_theatre() {
    assert_eq!(Location::Somme.crater_count(), 80);
    assert_eq!(Location::Ypres.crater_count(), 95);
    assert_eq!(Location::Gallipoli.crater_count(), 45);
    assert_eq!(Location::Sinai.crater_count(), 25);
    assert_eq!(Location::Verdun.crater_count(), 90);
}

#[test]
fn shadows_and_fog_per_weather() {
    assert!(Weather::Clear.casts_shadows());
    assert!(Weather::Overcast.casts_shadows());
    assert!(!Weather::Rain.casts_shadows());
    assert!(!Weather::Fog.casts_shadows());
    assert!(Weather::Snow.casts_shadows());
    assert!(!Weather::Clear.has_fog());
    assert!(Weather::Overcast.has_fog());
    assert!(Weather::Rain.has_fog());
    assert!(Weather::Fog.has_fog());
    assert!(Weather::Snow.has_fog());
}

#[test]
fn missing_codes_give_the_default_battle() {
    let s = Setup::from_codes(None, None);
    assert_eq!(s.location, Location::Somme);
    assert_eq!(s.weather, Weather::Overcast);
}

#[test]
fn codes_from_the_page_pick_the_battle() {
    let s = Setup::from_codes(Some("verdun".to_string()), Some("snow".to_string()));
    assert_eq!(s, Setup { location: Location::Verdun, weather: Weather::Snow });
    let s = Setup::from_codes(Some("gallipoli".to_string()), None);
    assert_eq!(s, Setup { location: Location::Gallipoli, weather: Weather::Overcast });
}

#[test]
fn subtitle_names_theatre_weather_and_sides() {
    let s = Setup { location: Location::Sinai, weather: Weather::Fog };
    assert_eq!(
        s.subtitle(),
        "Sinai & Palestine  -  Fog   |   British (khaki, south)  vs  Central Powers (grey, north)"
    );
}
