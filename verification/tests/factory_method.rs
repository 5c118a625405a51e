use design_patterns::factory_method::{
    ChicagoPizzaStore, ChicagoStyleCheesePizza, NYPizzaStore, NYStyleCheesePizza, Pizza,
    PizzaStore,
};

#[test]
fn test_factory_method() {
    let ny_store = NYPizzaStore::new();
    let chicago_store = ChicagoPizzaStore::new();

    let (pizza, said) = ny_store.order_pizza("cheese");
    println!("{}", said);
    println!("Ethan ordered a {}\n", pizza.name());
    assert_eq!(pizza.name(), "NY Style Sauce and Cheese Pizza");

    let (pizza, said) = chicago_store.order_pizza("cheese");
    println!("{}", said);
    println!("Joel ordered a {}", pizza.name());
    assert_eq!(pizza.name(), "Chicago Style Deep Dish Cheese Pizza");
}

#[test]
fn an_order_is_prepared_baked_cut_and_boxed() {
    let (_, said) = NYPizzaStore::new().order_pizza("cheese");
    assert_eq!(
        said,
        "Preparing NY Style Sauce and Cheese Pizza\n\
         Tossing dough...\n\
         Adding sauch...\n\
         Adding toppings: \n\
         \x20   Grated Reggiano Cheese\n\
         Bake for 25 minutes at 350\n\
         Cutting the pizza into diagonal slices\n\
         Place pizza in official PizzaStore box\n"
    );
    let (_, said) = ChicagoPizzaStore::new().order_pizza("cheese");
    assert_eq!(
        said,
        "Preparing Chicago Style Deep Dish Cheese Pizza\n\
         Tossing dough...\n\
         Adding sauch...\n\
         Adding toppings: \n\
         \x20   Shredded Mozzarella Cheese\n\
         Bake for 25 minutes at 350\n\
         Cutting the pizza into square slices\n\
         Place pizza in official PizzaStore box\n"
    );
}

#[test]
fn stores_make_cheese_only() {
    assert!(NYPizzaStore::new().create_pizza("cheese").is_some());
    assert!(NYPizzaStore::new().create_pizza("veggie").is_none());
    assert!(ChicagoPizzaStore::new().create_pizza("cheese").is_some());
    assert!(ChicagoPizzaStore::new().create_pizza("").is_none());
}

#[test]
fn pizzas_step_by_step() {
    let pizza = NYStyleCheesePizza::new();
    assert_eq!(pizza.bake(), "Bake for 25 minutes at 350\n");
    assert_eq!(pizza.cut(), "Cutting the pizza into diagonal slices\n");
    assert_eq!(pizza.box_(), "Place pizza in official PizzaStore box\n");
    let pizza = ChicagoStyleCheesePizza::new();
    assert_eq!(pizza.cut(), "Cutting the pizza into square slices\n");
    assert_eq!(
        pizza.prepare(),
        "Preparing Chicago Style Deep Dish Cheese Pizza\nTossing dough...\nAdding sauch...\nAdding toppings: \n    Shredded Mozzarella Cheese\n"
    );
}
