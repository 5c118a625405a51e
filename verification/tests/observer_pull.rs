use design_patterns::observer_pull::{
    CurrentConditionsDisplay, Measurements, Observer, Subject, WeatherDate,
};

#[test]
fn observers_take_what_they_want() {
    let mut weather_data = WeatherDate::new();
    let _ = CurrentConditionsDisplay::new(&mut weather_data);
    weather_data.set_musurements(800, 650, 304);
    assert_eq!(weather_data.temperature(), 800);
    assert_eq!(weather_data.humidity(), 650);
    assert_eq!(weather_data.pressure(), 304);
    assert_eq!(
        weather_data.notify_observers(),
        "Current conditions: 80 F degrees and 65 % humidity\n"
    );
    assert_eq!(
        weather_data.observer(0),
        Some(&CurrentConditionsDisplay {
            temperature: 800,
            humidity: 650
        })
    );
}

#[test]
fn pulled_observer_is_removed() {
    let mut station = WeatherDate::new();
    let shown = Measurements {
        temperature: 10,
        humidity: 20,
        pressure: 30,
    };
    let mut display = CurrentConditionsDisplay {
        temperature: 0,
        humidity: 0,
    };
    assert_eq!(
        display.update(&shown),
        "Current conditions: 1 F degrees and 2 % humidity\n"
    );
    assert_eq!(shown.pressure(), 30);
    station.register_observer(display);
    assert_eq!(
        station.remove_observer(&CurrentConditionsDisplay {
            temperature: 0,
            humidity: 0
        }),
        None
    );
    assert_eq!(station.remove_observer(&display), Some(display));
    assert_eq!(station.notify_observers(), "");
}
