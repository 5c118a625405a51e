use design_patterns::factory_abstracted::{
    CheesePizza, ChicagoPizzaIngredientFactory, NYPizzaIngredientFactory, NYPizzaStore, Pizza,
    PizzaIngredientFactory, PizzaStore, Vegetable,
};

#[test]
fn cheese_pizza_is_ordered() {
    let store = NYPizzaStore::new(NYPizzaIngredientFactory);
    let (pizza, said) = store.order_pizza("cheese".to_string());
    assert_eq!(pizza.name(), "Cheese Pizza");
    assert_eq!(
        said,
        "peparing Cheese Pizza\n\
         Bake for 25 minutes at 350\n\
         Cutting the pizza into diagonal slices\n\
         Place pizza in official PizzaStore box\n"
    );
}

#[test]
fn store_makes_cheese_only() {
    let store = NYPizzaStore::new(ChicagoPizzaIngredientFactory);
    assert!(store.create_pizza("cheese".to_string()).is_some());
    assert!(store.create_pizza("clam".to_string()).is_none());
}

#[test]
fn pizza_can_be_renamed() {
    let mut pizza = CheesePizza::new(NYPizzaIngredientFactory);
    assert_eq!(pizza.name(), "Cheese Pizza");
    pizza.set_name("Sunday Special");
    assert_eq!(pizza.name(), "Sunday Special");
    assert_eq!(pizza.prepare(), "peparing Sunday Special\n");
    assert_eq!(pizza.name(), "Sunday Special");
}

#[test]
fn factories_lay_out_four_vegetables() {
    let veggies = NYPizzaIngredientFactory.create_veggies();
    assert_eq!(veggies.len(), 4);
    assert!(matches!(veggies[0], Vegetable::Garlic(_)));
    assert!(matches!(veggies[1], Vegetable::Onion(_)));
    assert!(matches!(veggies[2], Vegetable::Mushroom(_)));
    assert!(matches!(veggies[3], Vegetable::RedPepper(_)));
    assert_eq!(ChicagoPizzaIngredientFactory.create_veggies().len(), 4);
}
