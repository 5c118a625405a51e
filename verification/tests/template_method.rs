use design_patterns::template_method::{
    answers_yes, means_yes, question, user_input, CaffeineBeverageWithHook, CoffeeWithHook,
};

#[test]
fn test_coffee() {
    let mut coffee = CoffeeWithHook::new(user_input(0, String::new()));
    println!("\nMaking coffee...");
    let said = coffee.prepare_recipe();
    println!("{}", said);
    assert_eq!(
        said,
        "Boiling water\nDripping Coffee through filter\nPouring into cup\n"
    );
}

#[test]
fn coffee_with_milk_and_sugar() {
    let mut coffee = CoffeeWithHook::new(user_input(4, "Yes\n".to_string()));
    assert_eq!(
        coffee.prepare_recipe(),
        "Boiling water\nDripping Coffee through filter\nPouring into cup\nAdding Sugar and Milk\n"
    );
    assert!(coffee.customer_wants_condiments());
    assert_eq!(coffee.brew(), "Dripping Coffee through filter\n");
    assert_eq!(coffee.add_condiments(), "Adding Sugar and Milk\n");
    assert_eq!(coffee.boil_water(), "Boiling water\n");
    assert_eq!(coffee.pour_in_cup(), "Pouring into cup\n");
}

#[test]
fn yes_in_any_case() {
    assert!(answers_yes("y"));
    assert!(answers_yes("Y"));
    assert!(answers_yes("YES please"));
    assert!(!answers_yes("no"));
    assert!(!answers_yes(""));
    assert!(!answers_yes(" yes"));
    assert!(means_yes("yes"));
    assert!(!means_yes("Yes"));
    assert!(!means_yes(""));
}

#[test]
fn nothing_read_means_no() {
    assert_eq!(user_input(0, String::new()), "no");
    assert_eq!(user_input(0, "yes".to_string()), "no");
    assert_eq!(user_input(2, "y\n".to_string()), "y\n");
    assert_eq!(
        question(),
        "Would you like milk and sugar with you coffee (y/n)"
    );
}
