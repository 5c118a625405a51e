//! Iterator pattern: two menus that keep their items in different ways, and
//! one iterator that walks either of them, so that the waitress who reads the
//! menus out need not know how they are kept.

use crate::text::{amount, amount_string};
use vstd::prelude::*;

verus! {

/// What is on a menu.
pub struct MenuItem {
    name: String,
    description: String,
    vegetarian: bool,
    price: usize,
}

/// What a menu item is, seen from outside. The price is an amount of cents.
pub struct MenuItemView {
    pub name: Seq<char>,
    pub description: Seq<char>,
    pub vegetarian: bool,
    pub price: nat,
}

impl MenuItemView {
    /// The line that is read out for the item.
    pub open spec fn line(self) -> Seq<char> {
        self.name + ", "@ + amount(self.price) + " -- "@ + self.description + "\n"@
    }
}

impl View for MenuItem {
    type V = MenuItemView;

    closed spec fn view(&self) -> MenuItemView {
        MenuItemView {
            name: self.name@,
            description: self.description@,
            vegetarian: self.vegetarian,
            price: self.price as nat,
        }
    }
}

impl MenuItem {
    pub fn new(name: &str, description: &str, vegetarian: bool, price: usize) -> (item: Self)
        ensures
            item@ == (MenuItemView {
                name: name@,
                description: description@,
                vegetarian,
                price: price as nat,
            }),
    {
        MenuItem {
            name: String::from_str(name),
            description: String::from_str(description),
            vegetarian,
            price,
        }
    }

    /// The line that is read out for this item.
    fn line(&self) -> (said: String)
        ensures
            said@ == self@.line(),
    {
        let mut said = self.name.clone();
        said.append(", ");
        said.append(amount_string(self.price).as_str());
        said.append(" -- ");
        said.append(self.description.as_str());
        said.append("\n");
        said
    }
}

/// The views of a list of items.
pub open spec fn item_views(items: Seq<MenuItem>) -> Seq<MenuItemView> {
    Seq::new(items.len(), |i: int| items[i]@)
}

/// The breakfast menu as it is printed.
pub open spec fn pancake_house_items() -> Seq<MenuItemView> {
    seq![
        MenuItemView {
            name: "K&B's Pancake Breakfast"@,
            description: "Pancakes with scrambled eggs, and toast"@,
            vegetarian: true,
            price: 299,
        },
        MenuItemView {
            name: "Regular Pancake Breakfast"@,
            description: "Pancakes with fried eggs, sausage"@,
            vegetarian: false,
            price: 299,
        },
        MenuItemView {
            name: "Blueberry Pancake Breakfast"@,
            description: "Pancakes with fresh blueberries or strawberries"@,
            vegetarian: true,
            price: 349,
        },
        MenuItemView {
            name: "Waffles"@,
            description: "Waffles, with your choice of blueberries or strawberries"@,
            vegetarian: true,
            price: 359,
        },
    ]
}

/// A menu that keeps its items in a list that grows.
pub struct PancakeHouseMenu {
    menu_items: Vec<MenuItem>,
}

impl View for PancakeHouseMenu {
    type V = Seq<MenuItemView>;

    closed spec fn view(&self) -> Seq<MenuItemView> {
        item_views(self.menu_items@)
    }
}

impl PancakeHouseMenu {
    pub fn new() -> (menu: Self)
        ensures
            menu@ == pancake_house_items(),
    {
        let mut menu_items: Vec<MenuItem> = Vec::new();
        menu_items.push(
            MenuItem::new(
                "K&B's Pancake Breakfast",
                "Pancakes with scrambled eggs, and toast",
                true,
                299,
            ),
        );
        menu_items.push(
            MenuItem::new(
                "Regular Pancake Breakfast",
                "Pancakes with fried eggs, sausage",
                false,
                299,
            ),
        );
        menu_items.push(
            MenuItem::new(
                "Blueberry Pancake Breakfast",
                "Pancakes with fresh blueberries or strawberries",
                true,
                349,
            ),
        );
        menu_items.push(
            MenuItem::new(
                "Waffles",
                "Waffles, with your choice of blueberries or strawberries",
                true,
                359,
            ),
        );
        assert(item_views(menu_items@) =~= pancake_house_items());
        PancakeHouseMenu { menu_items }
    }

    /// Puts another item at the end of the menu.
    pub fn add_item(&mut self, name: &str, description: &str, vegetarian: bool, price: usize)
        ensures
            final(self)@ == old(self)@.push(
                MenuItemView { name: name@, description: description@, vegetarian, price: price as nat },
            ),
    {
        self.menu_items.push(MenuItem::new(name, description, vegetarian, price));
        assert(item_views(self.menu_items@) =~= item_views(old(self).menu_items@).push(
            MenuItemView { name: name@, description: description@, vegetarian, price: price as nat },
        ));
    }

    pub fn menu_items(&self) -> (items: &[MenuItem])
        ensures
            item_views(items@) == self@,
    {
        self.menu_items.as_slice()
    }

    /// An iterator over the items of the menu, first to last.
    pub fn into_iter(&self) -> (iterator: MenuIterator<'_>)
        ensures
            iterator.position() == 0,
            iterator.items() == self@,
    {
        MenuIterator { position: 0, items: self.menu_items.as_slice() }
    }
}

/// How many items the lunch menu has room for.
pub const MAX_ITEMS: usize = 6;

/// The lunch menu as it is printed.
pub open spec fn diner_items() -> Seq<MenuItemView> {
    seq![
        MenuItemView {
            name: "Vegetarian BLT"@,
            description: "(Fakin') Bacon with lettuce & tomato on whole wheat"@,
            vegetarian: true,
            price: 299,
        },
        MenuItemView {
            name: "BLT"@,
            description: "Bacon with lettuce & tomato on whole wheat"@,
            vegetarian: false,
            price: 299,
        },
        MenuItemView {
            name: "Soup of the day"@,
            description: "Soup of the day, with a side of potato salad"@,
            vegetarian: false,
            price: 329,
        },
        MenuItemView {
            name: "Hotdog"@,
            description: "A hot dog, with saurkraut, relish, onions, topped with cheese"@,
            vegetarian: false,
            price: 305,
        },
        MenuItemView {
            name: "Steamed Veggies and Brown Rice"@,
            description: "Steamed vegetables over brown rice"@,
            vegetarian: true,
            price: 399,
        },
        MenuItemView {
            name: "Pasta"@,
            description: "Spaghetti with Marinara Sauce, and a slice of sourdough bread"@,
            vegetarian: true,
            price: 389,
        },
    ]
}

/// The answer to an item for which the menu has no room.
pub struct MenuFull;

impl MenuFull {
    pub fn message(&self) -> (said: String)
        ensures
            said@ == "Sorry, menu is full! Can't add item to menu\n"@,
    {
        String::from_str("Sorry, menu is full! Can't add item to menu\n")
    }
}

/// A menu that keeps its items in a table of fixed size.
pub struct DinerMenu {
    number_of_items: usize,
    menu_items: [MenuItem; MAX_ITEMS],
}

/// What a diner menu is, seen from outside: the table, and how many of its
/// places are taken.
pub struct DinerMenuView {
    pub number_of_items: nat,
    pub menu_items: Seq<MenuItemView>,
}

impl View for DinerMenu {
    type V = DinerMenuView;

    closed spec fn view(&self) -> DinerMenuView {
        DinerMenuView {
            number_of_items: self.number_of_items as nat,
            menu_items: item_views(self.menu_items@),
        }
    }
}

impl DinerMenu {
    /// The lunch menu, with every place of the table taken.
    pub fn new() -> (menu: Self)
        ensures
            menu@.number_of_items == MAX_ITEMS,
            menu@.menu_items == diner_items(),
    {
        let menu_items = [
            MenuItem::new(
                "Vegetarian BLT",
                "(Fakin') Bacon with lettuce & tomato on whole wheat",
                true,
                299,
            ),
            MenuItem::new("BLT", "Bacon with lettuce & tomato on whole wheat", false, 299),
            MenuItem::new(
                "Soup of the day",
                "Soup of the day, with a side of potato salad",
                false,
                329,
            ),
            MenuItem::new(
                "Hotdog",
                "A hot dog, with saurkraut, relish, onions, topped with cheese",
                false,
                305,
            ),
            MenuItem::new(
                "Steamed Veggies and Brown Rice",
                "Steamed vegetables over brown rice",
                true,
                399,
            ),
            MenuItem::new(
                "Pasta",
                "Spaghetti with Marinara Sauce, and a slice of sourdough bread",
                true,
                389,
            ),
        ];
        assert(item_views(menu_items@) =~= diner_items());
        DinerMenu { number_of_items: MAX_ITEMS, menu_items }
    }

    /// Puts an item into the next free place of the table, if there is one.
    pub fn add_item(&mut self, name: &str, description: &str, vegetarian: bool, price: usize) -> (added:
        Result<(), MenuFull>)
        ensures
            added is Err <==> old(self)@.number_of_items >= MAX_ITEMS,
            added is Err ==> final(self)@ == old(self)@,
            added is Ok ==> final(self)@.number_of_items == old(self)@.number_of_items + 1,
            added is Ok ==> final(self)@.menu_items == old(self)@.menu_items.update(
                old(self)@.number_of_items as int,
                MenuItemView { name: name@, description: description@, vegetarian, price: price as nat },
            ),
    {
        let menu_item = MenuItem::new(name, description, vegetarian, price);
        if self.number_of_items >= MAX_ITEMS {
            Err(MenuFull {  })
        } else {
            self.menu_items[self.number_of_items] = menu_item;
            self.number_of_items += 1;
            assert(item_views(self.menu_items@) =~= item_views(old(self).menu_items@).update(
                old(self).number_of_items as int,
                MenuItemView { name: name@, description: description@, vegetarian, price: price as nat },
            ));
            Ok(())
        }
    }

    /// An iterator over the places of the table, first to last.
    pub fn into_iter(&self) -> (iterator: MenuIterator<'_>)
        ensures
            iterator.position() == 0,
            iterator.items() == self@.menu_items,
    {
        MenuIterator { position: 0, items: self.menu_items.as_slice() }
    }
}

/// A walk over the items of a menu.
pub struct MenuIterator<'a> {
    position: usize,
    items: &'a [MenuItem],
}

impl<'a> MenuIterator<'a> {
    /// How many items the walk has passed.
    pub closed spec fn position(&self) -> nat {
        self.position as nat
    }

    /// The items of the walk, passed or not.
    pub closed spec fn items(&self) -> Seq<MenuItemView> {
        item_views(self.items@)
    }

    /// The next item of the walk, if one is left.
    pub fn next(&mut self) -> (item: Option<&'a MenuItem>)
        ensures
            final(self).items() == old(self).items(),
            item is Some <==> old(self).position() < old(self).items().len(),
            item is Some ==> item->0@ == old(self).items()[old(self).position() as int],
            item is Some ==> final(self).position() == old(self).position() + 1,
            item is None ==> final(self).position() == old(self).position(),
    {
        if self.position < self.items.len() {
            self.position += 1;
            Some(&self.items[self.position - 1])
        } else {
            None
        }
    }
}

/// What is read out of a list of items, from the item at `from` on.
pub open spec fn lines(items: Seq<MenuItemView>, from: nat) -> Seq<char>
    decreases items.len() - from,
{
    if from >= items.len() {
        Seq::empty()
    } else {
        items[from as int].line() + lines(items, from + 1)
    }
}

/// Reads out what is left of a walk, one line for each item.
pub fn print(ite: MenuIterator<'_>) -> (said: String)
    ensures
        said@ == lines(ite.items(), ite.position()),
{
    let ghost start = ite.position();
    let ghost items = ite.items();
    let mut walk = ite;
    let mut said = String::new();
    loop
        invariant
            items == ite.items(),
            start == ite.position(),
            walk.items() == items,
            start <= walk.position(),
            said@ + lines(items, walk.position()) == lines(items, start),
        decreases items.len() - walk.position(),
    {
        match walk.next() {
            Some(item) => {
                said.append(item.line().as_str());
            },
            None => {
                assert(said@ + lines(items, walk.position()) =~= said@);
                return said;
            },
        }
    }
}

pub struct Waitress {
    pancake_house_menu: PancakeHouseMenu,
    diner_menu: DinerMenu,
}

impl Waitress {
    pub fn new(pancake_house_menu: PancakeHouseMenu, diner_menu: DinerMenu) -> (waitress: Self)
        ensures
            waitress.breakfast() == pancake_house_menu@,
            waitress.lunch() == diner_menu@.menu_items,
    {
        Waitress { pancake_house_menu, diner_menu }
    }

    /// The items of the breakfast menu.
    pub closed spec fn breakfast(&self) -> Seq<MenuItemView> {
        self.pancake_house_menu@
    }

    /// The items of the lunch menu.
    pub closed spec fn lunch(&self) -> Seq<MenuItemView> {
        self.diner_menu@.menu_items
    }

    /// Reads out both menus, breakfast first.
    pub fn print_menu(&self) -> (said: String)
        ensures
            said@ == "MENU\n----BREAKFAST\n"@ + lines(self.breakfast(), 0) + "MENU\n----LUNCH\n"@
                + lines(self.lunch(), 0),
    {
        let mut said = String::from_str("MENU\n----BREAKFAST\n");
        said.append(print(self.pancake_house_menu.into_iter()).as_str());
        said.append("MENU\n----LUNCH\n");
        said.append(print(self.diner_menu.into_iter()).as_str());
        said
    }
}

} // verus!
