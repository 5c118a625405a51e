use design_patterns::observer::{CurrentConditionsDisplay, Observer, Subject, WeatherDate};

#[test]
fn test_observer() {
    let mut weather_data = WeatherDate::new();
    let _ = CurrentConditionsDisplay::new(&mut weather_data);

    weather_data.set_musurements(800, 650, 304);
    let said = weather_data.notify_observers();
    println!("{}", said);
    assert_eq!(said, "Current conditions: 80 F degrees and 65 % humidity\n");
    weather_data.set_musurements(820, 700, 292);
    let said = weather_data.notify_observers();
    println!("{}", said);
    assert_eq!(said, "Current conditions: 82 F degrees and 70 % humidity\n");
    weather_data.set_musurements(780, 900, 292);
    let said = weather_data.notify_observers();
    println!("{}", said);
    assert_eq!(said, "Current conditions: 78 F degrees and 90 % humidity\n");
}

#[test]
fn every_observer_is_told_in_order() {
    let mut station = WeatherDate::new();
    assert_eq!(CurrentConditionsDisplay::new(&mut station), 0);
    assert_eq!(CurrentConditionsDisplay::new(&mut station), 1);
    station.set_musurements(215, -5, 0);
    assert_eq!(
        station.notify_observers(),
        "Current conditions: 21.5 F degrees and -0.5 % humidity\n".repeat(2)
    );
    assert_eq!(
        station.observer(1),
        Some(&CurrentConditionsDisplay {
            temperature: 215,
            humidity: -5
        })
    );
    assert_eq!(station.observer(2), None);
}

#[test]
fn first_equal_observer_is_removed() {
    let mut station = WeatherDate::new();
    station.register_observer(CurrentConditionsDisplay {
        temperature: 1,
        humidity: 1,
    });
    station.register_observer(CurrentConditionsDisplay {
        temperature: 2,
        humidity: 2,
    });
    station.register_observer(CurrentConditionsDisplay {
        temperature: 1,
        humidity: 1,
    });
    let wanted = CurrentConditionsDisplay {
        temperature: 1,
        humidity: 1,
    };
    assert_eq!(station.remove_observer(&wanted), Some(wanted));
    assert_eq!(
        station.observer(0),
        Some(&CurrentConditionsDisplay {
            temperature: 2,
            humidity: 2
        })
    );
    assert_eq!(station.observer(1), Some(&wanted));
    assert_eq!(station.remove_observer(&wanted), Some(wanted));
    assert_eq!(station.remove_observer(&wanted), None);
    assert_eq!(station.observer(1), None);
}

#[test]
fn display_shows_what_it_was_told() {
    let mut display = CurrentConditionsDisplay {
        temperature: 0,
        humidity: 0,
    };
    assert_eq!(
        display.to_string(),
        "Current conditions: 0 F degrees and 0 % humidity"
    );
    assert_eq!(
        display.update(-123, 1000, 7),
        "Current conditions: -12.3 F degrees and 100 % humidity\n"
    );
    assert_eq!(display.temperature, -123);
    assert_eq!(display.humidity, 1000);
}
