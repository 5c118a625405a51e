use design_patterns::iterator::{print, DinerMenu, PancakeHouseMenu, Waitress};

#[test]
fn test_iterator() {
    let pancake_house_menu = PancakeHouseMenu::new();
    let diner_menu = DinerMenu::new();
    let waitress = Waitress::new(pancake_house_menu, diner_menu);
    let said = waitress.print_menu();
    println!("{}", said);
    assert_eq!(
        said,
        "MENU\n----BREAKFAST\n\
         K&B's Pancake Breakfast, 2.99 -- Pancakes with scrambled eggs, and toast\n\
         Regular Pancake Breakfast, 2.99 -- Pancakes with fried eggs, sausage\n\
         Blueberry Pancake Breakfast, 3.49 -- Pancakes with fresh blueberries or strawberries\n\
         Waffles, 3.59 -- Waffles, with your choice of blueberries or strawberries\n\
         MENU\n----LUNCH\n\
         Vegetarian BLT, 2.99 -- (Fakin') Bacon with lettuce & tomato on whole wheat\n\
         BLT, 2.99 -- Bacon with lettuce & tomato on whole wheat\n\
         Soup of the day, 3.29 -- Soup of the day, with a side of potato salad\n\
         Hotdog, 3.05 -- A hot dog, with saurkraut, relish, onions, topped with cheese\n\
         Steamed Veggies and Brown Rice, 3.99 -- Steamed vegetables over brown rice\n\
         Pasta, 3.89 -- Spaghetti with Marinara Sauce, and a slice of sourdough bread\n"
    );
}

#[test]
fn iterator_walks_first_to_last() {
    let mut menu = PancakeHouseMenu::new();
    menu.add_item("Toast", "Two slices", true, 150);
    assert_eq!(menu.menu_items().len(), 5);
    let mut walk = menu.into_iter();
    let mut seen = 0;
    while let Some(_) = walk.next() {
        seen += 1;
    }
    assert_eq!(seen, 5);
    assert!(walk.next().is_none());

    let mut walk = menu.into_iter();
    for _ in 0..4 {
        walk.next();
    }
    assert_eq!(print(walk), "Toast, 1.50 -- Two slices\n");
}

#[test]
fn diner_menu_is_full() {
    let mut menu = DinerMenu::new();
    let before = print(menu.into_iter());
    let refused = menu.add_item("Toast", "Two slices", true, 150);
    assert!(refused.is_err());
    if let Err(full) = refused {
        assert_eq!(
            full.message(),
            "Sorry, menu is full! Can't add item to menu\n"
        );
    }
    assert_eq!(print(menu.into_iter()), before);
}
