use design_patterns::decorator::{
    Beverage, DarkRost, Decat, Espresso, HouseBlend, Mocha, Soy, Whip,
};
use design_patterns::text::amount_string;

fn dollars(cents: u64) -> String {
    amount_string(cents as usize)
}

#[test]
fn test_decorator() {
    let beravage = Espresso::new();
    println!("{} ${}", beravage.description(), dollars(beravage.cost()));

    let beravage2 = DarkRost::new();
    let beravage2 = Mocha::new(beravage2);
    let beravage2 = Mocha::new(beravage2);
    let beravage2 = Whip::new(beravage2);
    println!("{} ${}", beravage2.description(), dollars(beravage2.cost()));

    let beravage3 = HouseBlend::new();
    let beravage3 = Soy::new(beravage3);
    let beravage3 = Mocha::new(beravage3);
    let beravage3 = Whip::new(beravage3);
    println!("{} ${}", beravage3.description(), dollars(beravage3.cost()));
}

#[test]
fn plain_beverages() {
    assert_eq!(Espresso::new().description(), "Espresso");
    assert_eq!(Espresso::new().cost(), 199);
    assert_eq!(HouseBlend::new().description(), "House Blend Coffee");
    assert_eq!(HouseBlend::new().cost(), 89);
    assert_eq!(DarkRost::new().description(), "DarkRost Coffee");
    assert_eq!(DarkRost::new().cost(), 99);
    assert_eq!(Decat::new().description(), "Decat Coffee");
    assert_eq!(Decat::new().cost(), 105);
}

#[test]
fn condiments_add_up() {
    let order = Whip::new(Mocha::new(Mocha::new(DarkRost::new())));
    assert_eq!(order.description(), "DarkRost Coffee, Mocha, Mocha, Whip");
    assert_eq!(order.cost(), 149);
    assert_eq!(dollars(order.cost()), "1.49");

    let order = Whip::new(Mocha::new(Soy::new(HouseBlend::new())));
    assert_eq!(order.description(), "House Blend Coffee, Soy, Mocha, Whip");
    assert_eq!(order.cost(), 134);

    assert_eq!(Soy::new(Decat::new()).cost(), 120);
    assert_eq!(Soy::new(Decat::new()).description(), "Decat Coffee, Soy");
}

#[test]
fn order_of_condiments_keeps_the_price() {
    let one = Whip::new(Mocha::new(Espresso::new()));
    let other = Mocha::new(Whip::new(Espresso::new()));
    assert_eq!(one.cost(), other.cost());
    assert_eq!(one.cost(), 229);
}
