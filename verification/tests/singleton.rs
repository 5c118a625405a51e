use design_patterns::singleton::ChocolateBoiler;

#[test]
fn boiler_goes_round() {
    let mut boiler = ChocolateBoiler::new();
    assert!(boiler.is_empty());
    assert!(!boiler.is_boiled());
    boiler.fill();
    assert!(!boiler.is_empty());
    assert!(!boiler.is_boiled());
    boiler.boil();
    assert!(boiler.is_boiled());
    boiler.drain();
    assert!(boiler.is_empty());
    assert!(boiler.is_boiled());
    boiler.fill();
    assert!(!boiler.is_empty());
    assert!(!boiler.is_boiled());
}

#[test]
fn boiler_refuses_out_of_order() {
    let mut boiler = ChocolateBoiler::new();
    boiler.boil();
    assert!(!boiler.is_boiled());
    boiler.drain();
    assert!(boiler.is_empty());
    boiler.fill();
    boiler.drain();
    assert!(!boiler.is_empty());
    boiler.boil();
    boiler.fill();
    assert!(boiler.is_boiled());
}
