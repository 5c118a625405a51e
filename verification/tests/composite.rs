use design_patterns::composite::{Menu, MenuComponent, MenuComponentErr, MenuItem, Waitress};

#[test]
fn test_composite() {
    let pancake_house_menu = Menu::new("PANCAKE HOUSE MENU".to_string(), "Breakfast".to_string());
    let mut diner_menu = Menu::new("DINER MENU".to_string(), "Launch".to_string());
    diner_menu
        .add(MenuComponent::Item(MenuItem::new(
            "Pasta".to_string(),
            "Spaghetti with Marinara Sauce, and a slice of sourdough bread".to_string(),
            true,
            389,
        )))
        .unwrap();
    let mut all_menus = Menu::new("ALL MENUS".to_string(), "All menus combined".to_string());
    all_menus.add(MenuComponent::Menu(pancake_house_menu)).unwrap();
    all_menus.add(MenuComponent::Menu(diner_menu)).unwrap();
    let said = all_menus.print().unwrap();
    println!("{}", said);
    assert_eq!(
        said,
        "\nALL MENUS, All menus combined\n-----------------\n\
         \nPANCAKE HOUSE MENU, Breakfast\n-----------------\n\
         \nDINER MENU, Launch\n-----------------\n\
         Pasta(v), 3.89    -- Spaghetti with Marinara Sauce, and a slice of sourdough bread\n"
    );
    assert_eq!(
        Waitress::new(MenuComponent::Menu(all_menus)).print_menu(),
        said
    );
}

#[test]
fn items_refuse_what_menus_do() {
    let mut item = MenuComponent::Item(MenuItem::new(
        "Soup".to_string(),
        "Of the day".to_string(),
        false,
        329,
    ));
    let other = MenuComponent::Item(MenuItem::new(
        "Bread".to_string(),
        "A slice".to_string(),
        true,
        50,
    ));
    assert_eq!(item.add(other), Err(MenuComponentErr::UnSupportedOperation));
    assert!(matches!(
        item.child(0),
        Err(MenuComponentErr::UnSupportedOperation)
    ));
    assert_eq!(item.name(), Ok("Soup".to_string()));
    assert_eq!(item.description(), Ok("Of the day".to_string()));
    assert_eq!(item.price(), Ok(329));
    assert_eq!(item.is_vegetarian(), Ok(false));
    assert_eq!(item.print(), Ok("Soup, 3.29    -- Of the day\n".to_string()));
}

#[test]
fn menus_refuse_what_items_do() {
    let mut menu = MenuComponent::Menu(Menu::new("CAFE".to_string(), "Dinner".to_string()));
    assert_eq!(menu.price(), Err(MenuComponentErr::UnSupportedOperation));
    assert_eq!(
        menu.is_vegetarian(),
        Err(MenuComponentErr::UnSupportedOperation)
    );
    assert!(matches!(menu.child(0), Err(MenuComponentErr::NoChild)));
    let tea = MenuComponent::Item(MenuItem::new(
        "Tea".to_string(),
        "Green".to_string(),
        true,
        120,
    ));
    assert_eq!(
        menu.remove(MenuComponent::Item(MenuItem::new(
            "Tea".to_string(),
            "Green".to_string(),
            true,
            120,
        ))),
        Ok(())
    );
    assert_eq!(menu.add(tea), Ok(()));
    assert_eq!(
        menu.child(0).unwrap().name(),
        Ok("Tea".to_string())
    );
    assert_eq!(menu.name(), Ok("CAFE".to_string()));
    assert_eq!(menu.description(), Ok("Dinner".to_string()));
}

#[test]
fn errors_have_names() {
    assert_eq!(
        MenuComponentErr::UnSupportedOperation.to_string(),
        "UnSupportedOperation"
    );
    assert_eq!(MenuComponentErr::NoChild.to_string(), "NoChild");
}
