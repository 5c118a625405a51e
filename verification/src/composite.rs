//! Composite pattern: a menu holds items and other menus, and whoever reads
//! a menu out treats an item and a whole menu alike. What an item or a menu
//! cannot do, it refuses.

use crate::text::{amount, amount_string};
use vstd::prelude::*;

verus! {

/// Why a component refused an operation.
#[derive(Debug, Clone, Copy, PartialEq, Eq, Structural)]
pub enum MenuComponentErr {
    /// The component is not of the kind that can do this.
    UnSupportedOperation,
    /// The menu has no children at all.
    NoChild,
}

impl MenuComponentErr {
    pub open spec fn text(self) -> Seq<char> {
        match self {
            MenuComponentErr::UnSupportedOperation => "UnSupportedOperation"@,
            MenuComponentErr::NoChild => "NoChild"@,
        }
    }

    /// The name of the error.
    pub fn to_string(&self) -> (name: String)
        ensures
            name@ == self.text(),
    {
        match self {
            MenuComponentErr::UnSupportedOperation => String::from_str("UnSupportedOperation"),
            MenuComponentErr::NoChild => String::from_str("NoChild"),
        }
    }
}

/// What a component is, seen from outside. The price of an item is an amount
/// of cents. A menu to which nothing was ever added has no list of children.
pub enum ComponentView {
    Item { name: Seq<char>, description: Seq<char>, vegetarian: bool, price: nat },
    Menu { name: Seq<char>, description: Seq<char>, children: Option<Seq<ComponentView>> },
}

/// What a list of components says when each is printed, first to last.
pub open spec fn print_texts(components: Seq<ComponentView>) -> Seq<char>
    decreases components, 0int,
{
    if components.len() == 0 {
        Seq::empty()
    } else {
        print_texts(components.drop_last()) + components.last().print_text()
    }
}

impl ComponentView {
    pub open spec fn name(self) -> Seq<char> {
        match self {
            ComponentView::Item { name, .. } => name,
            ComponentView::Menu { name, .. } => name,
        }
    }

    pub open spec fn description(self) -> Seq<char> {
        match self {
            ComponentView::Item { description, .. } => description,
            ComponentView::Menu { description, .. } => description,
        }
    }

    /// What is printed for the component: one line for an item, with a mark
    /// if it is vegetarian; for a menu an empty line, its heading, a rule, and
    /// what is printed for each child.
    pub open spec fn print_text(self) -> Seq<char>
        decreases self, 1int,
    {
        match self {
            ComponentView::Item { name, description, vegetarian, price } => name + if vegetarian {
                "(v)"@
            } else {
                Seq::empty()
            } + ", "@ + amount(price) + "    -- "@ + description + "\n"@,
            ComponentView::Menu { name, description, children } => "\n"@ + name + ", "@
                + description + "\n-----------------\n"@ + match children {
                Some(children) => print_texts(children),
                None => Seq::empty(),
            },
        }
    }

    /// The menu with one more child at the end.
    pub open spec fn with_child(self, child: ComponentView) -> ComponentView
        recommends
            self is Menu,
    {
        match self {
            ComponentView::Menu { name, description, children } => ComponentView::Menu {
                name,
                description,
                children: Some(
                    match children {
                        Some(children) => children.push(child),
                        None => seq![child],
                    },
                ),
            },
            _ => self,
        }
    }
}

/// A dish on a menu.
pub struct MenuItem {
    name: String,
    description: String,
    vegetarian: bool,
    price: usize,
}

impl View for MenuItem {
    type V = ComponentView;

    closed spec fn view(&self) -> ComponentView {
        ComponentView::Item {
            name: self.name@,
            description: self.description@,
            vegetarian: self.vegetarian,
            price: self.price as nat,
        }
    }
}

impl MenuItem {
    pub fn new(name: String, description: String, vegetarian: bool, price: usize) -> (item: Self)
        ensures
            item@ == (ComponentView::Item {
                name: name@,
                description: description@,
                vegetarian,
                price: price as nat,
            }),
    {
        MenuItem { name, description, vegetarian, price }
    }

    pub fn name(&self) -> (name: Result<String, MenuComponentErr>)
        ensures
            name is Ok,
            name->Ok_0@ == self@.name(),
    {
        Ok(self.name.clone())
    }

    pub fn description(&self) -> (description: Result<String, MenuComponentErr>)
        ensures
            description is Ok,
            description->Ok_0@ == self@.description(),
    {
        Ok(self.description.clone())
    }

    pub fn price(&self) -> (price: Result<usize, MenuComponentErr>)
        ensures
            price is Ok,
            price->Ok_0 == self@->price,
    {
        Ok(self.price)
    }

    pub fn is_vegetarian(&self) -> (vegetarian: Result<bool, MenuComponentErr>)
        ensures
            vegetarian is Ok,
            vegetarian->Ok_0 == self@->vegetarian,
    {
        Ok(self.vegetarian)
    }

    pub fn print(&self) -> (said: Result<String, MenuComponentErr>)
        ensures
            said is Ok,
            said->Ok_0@ == self@.print_text(),
    {
        let mut said = self.name.clone();
        if self.vegetarian {
            said.append("(v)");
        }
        said.append(", ");
        said.append(amount_string(self.price).as_str());
        said.append("    -- ");
        said.append(self.description.as_str());
        said.append("\n");
        Ok(said)
    }
}

/// A menu: a heading, and the items and menus under it.
pub struct Menu {
    menu_components: Option<Vec<MenuComponent>>,
    name: String,
    description: String,
}

/// Either an item or a menu.
pub enum MenuComponent {
    Item(MenuItem),
    Menu(Menu),
}

/// The views of a list of components.
pub open spec fn views(components: Seq<MenuComponent>) -> Seq<ComponentView>
    decreases components, 0int,
{
    if components.len() == 0 {
        Seq::empty()
    } else {
        views(components.drop_last()).push(components.last()@)
    }
}

impl View for Menu {
    type V = ComponentView;

    open spec fn view(&self) -> ComponentView
        decreases self, 1int,
    {
        ComponentView::Menu {
            name: self.name_text(),
            description: self.description_text(),
            children: match self.children() {
                Some(children) => Some(views(children)),
                None => None,
            },
        }
    }
}

impl View for MenuComponent {
    type V = ComponentView;

    open spec fn view(&self) -> ComponentView
        decreases self, 2int,
    {
        match self {
            MenuComponent::Item(item) => item@,
            MenuComponent::Menu(menu) => menu@,
        }
    }
}

/// The views of a list of components, one by one.
pub proof fn lemma_views(components: Seq<MenuComponent>)
    ensures
        views(components).len() == components.len(),
        forall|i: int|
            0 <= i < components.len() ==> (#[trigger] views(components)[i]) == components[i]@,
    decreases components.len(),
{
    if components.len() > 0 {
        lemma_views(components.drop_last());
        assert(views(components) == views(components.drop_last()).push(components.last()@));
    } else {
        assert(views(components) == Seq::<ComponentView>::empty());
    }
}

impl Menu {
    /// The heading of the menu.
    pub closed spec fn name_text(&self) -> Seq<char> {
        self.name@
    }

    /// The line under the heading.
    pub closed spec fn description_text(&self) -> Seq<char> {
        self.description@
    }

    /// The components under the menu, if it has a list of them.
    pub closed spec fn children(&self) -> Option<Seq<MenuComponent>> {
        match self.menu_components {
            Some(components) => Some(components@),
            None => None,
        }
    }

    /// A menu with nothing under it.
    pub fn new(name: String, description: String) -> (menu: Self)
        ensures
            menu@ == (ComponentView::Menu { name: name@, description: description@, children: None }),
    {
        Menu { menu_components: None, name, description }
    }

    /// Puts a component under the menu, after those that are there.
    pub fn add(&mut self, menu_component: MenuComponent) -> (added: Result<(), MenuComponentErr>)
        ensures
            added is Ok,
            final(self)@ == old(self)@.with_child(menu_component@),
    {
        proof {
            if self.children() is Some {
                lemma_views(self.children()->0);
            }
        }
        match &mut self.menu_components {
            None => {
                let mut components: Vec<MenuComponent> = Vec::new();
                components.push(menu_component);
                self.menu_components = Some(components);
            },
            Some(v) => {
                v.push(menu_component);
            },
        }
        proof {
            lemma_views(self.children()->0);
            if old(self).children() is Some {
                assert(views(self.children()->0) =~= views(old(self).children()->0).push(
                    menu_component@,
                ));
            } else {
                assert(views(self.children()->0) =~= seq![menu_component@]);
            }
        }
        Ok(())
    }

    /// Takes a component from under the menu. Only a menu that never had a
    /// list of children can be asked, and there is nothing to take from it.
    pub fn remove(&mut self, menu_component: MenuComponent) -> (removed: Result<
        (),
        MenuComponentErr,
    >)
        requires
            old(self)@->children is None,
        ensures
            removed is Ok,
            final(self)@ == old(self)@,
    {
        Ok(())
    }

    /// The child at place `i`. A menu without a list of children has none; a
    /// menu with a list must have a child at that place.
    pub fn child(&self, i: usize) -> (child: Result<&MenuComponent, MenuComponentErr>)
        requires
            self@->children is Some ==> i < self@->children->0.len(),
        ensures
            self@->children is None <==> child == Err::<&MenuComponent, _>(MenuComponentErr::NoChild),
            self@->children is Some ==> child is Ok && child->Ok_0@ == self@->children->0[i as int],
    {
        proof {
            if self.children() is Some {
                lemma_views(self.children()->0);
            }
        }
        if let Some(v) = &self.menu_components {
            return Ok(&v[i]);
        }
        Err(MenuComponentErr::NoChild)
    }

    pub fn name(&self) -> (name: Result<String, MenuComponentErr>)
        ensures
            name is Ok,
            name->Ok_0@ == self@.name(),
    {
        Ok(self.name.clone())
    }

    pub fn description(&self) -> (description: Result<String, MenuComponentErr>)
        ensures
            description is Ok,
            description->Ok_0@ == self@.description(),
    {
        Ok(self.description.clone())
    }

    pub fn print(&self) -> (said: Result<String, MenuComponentErr>)
        ensures
            said is Ok,
            said->Ok_0@ == self@.print_text(),
        decreases self@, 0int,
    {
        let mut said = String::from_str("\n");
        said.append(self.name.as_str());
        said.append(", ");
        said.append(self.description.as_str());
        said.append("\n-----------------\n");
        let ghost head = said@;
        if let Some(v) = &self.menu_components {
            let ghost children = views(v@);
            proof {
                lemma_views(v@);
            }
            let mut i: usize = 0;
            while i < v.len()
                invariant
                    i <= v.len(),
                    children == views(v@),
                    children.len() == v.len(),
                    self@->children == Some(children),
                    self@ is Menu,
                    said@ == head + print_texts(children.take(i as int)),
                decreases v.len() - i,
            {
                proof {
                    lemma_views(v@);
                    assert(children.take(i + 1).drop_last() =~= children.take(i as int));
                    assert(children.take(i + 1).last() == children[i as int]);
                    assert(decreases_to!(self@ => self@->children));
                    assert(decreases_to!(self@->children => self@->children->0));
                    assert(decreases_to!(self@->children->0 => self@->children->0[i as int]));
                }
                let text = v[i].print()?;
                said.append(text.as_str());
                i = i + 1;
            }
            proof {
                assert(children.take(i as int) =~= children);
            }
        }
        Ok(said)
    }
}

impl MenuComponent {
    pub fn add(&mut self, menu_component: MenuComponent) -> (added: Result<(), MenuComponentErr>)
        ensures
            old(self)@ is Item ==> added == Err::<(), _>(MenuComponentErr::UnSupportedOperation)
                && final(self)@ == old(self)@,
            old(self)@ is Menu ==> added is Ok && final(self)@ == old(self)@.with_child(
                menu_component@,
            ),
    {
        match self {
            MenuComponent::Item(_) => Err(MenuComponentErr::UnSupportedOperation),
            MenuComponent::Menu(menu) => menu.add(menu_component),
        }
    }

    pub fn remove(&mut self, menu_component: MenuComponent) -> (removed: Result<
        (),
        MenuComponentErr,
    >)
        requires
            old(self)@ is Menu ==> old(self)@->children is None,
        ensures
            old(self)@ is Item <==> removed == Err::<(), _>(MenuComponentErr::UnSupportedOperation),
            old(self)@ is Menu <==> removed is Ok,
            final(self)@ == old(self)@,
    {
        match self {
            MenuComponent::Item(_) => Err(MenuComponentErr::UnSupportedOperation),
            MenuComponent::Menu(menu) => menu.remove(menu_component),
        }
    }

    pub fn child(&self, i: usize) -> (child: Result<&MenuComponent, MenuComponentErr>)
        requires
            self@ is Menu && self@->children is Some ==> i < self@->children->0.len(),
        ensures
            self@ is Item <==> child == Err::<&MenuComponent, _>(
                MenuComponentErr::UnSupportedOperation,
            ),
            self@ is Menu && self@->children is None <==> child == Err::<&MenuComponent, _>(
                MenuComponentErr::NoChild,
            ),
            self@ is Menu && self@->children is Some ==> child is Ok && child->Ok_0@
                == self@->children->0[i as int],
    {
        match self {
            MenuComponent::Item(_) => Err(MenuComponentErr::UnSupportedOperation),
            MenuComponent::Menu(menu) => menu.child(i),
        }
    }

    pub fn name(&self) -> (name: Result<String, MenuComponentErr>)
        ensures
            name is Ok,
            name->Ok_0@ == self@.name(),
    {
        match self {
            MenuComponent::Item(item) => item.name(),
            MenuComponent::Menu(menu) => menu.name(),
        }
    }

    pub fn description(&self) -> (description: Result<String, MenuComponentErr>)
        ensures
            description is Ok,
            description->Ok_0@ == self@.description(),
    {
        match self {
            MenuComponent::Item(item) => item.description(),
            MenuComponent::Menu(menu) => menu.description(),
        }
    }

    pub fn price(&self) -> (price: Result<usize, MenuComponentErr>)
        ensures
            self@ is Item ==> price is Ok && price->Ok_0 == self@->price,
            self@ is Menu ==> price == Err::<usize, _>(MenuComponentErr::UnSupportedOperation),
    {
        match self {
            MenuComponent::Item(item) => item.price(),
            MenuComponent::Menu(_) => Err(MenuComponentErr::UnSupportedOperation),
        }
    }

    pub fn is_vegetarian(&self) -> (vegetarian: Result<bool, MenuComponentErr>)
        ensures
            self@ is Item ==> vegetarian is Ok && vegetarian->Ok_0 == self@->vegetarian,
            self@ is Menu ==> vegetarian == Err::<bool, _>(MenuComponentErr::UnSupportedOperation),
    {
        match self {
            MenuComponent::Item(item) => item.is_vegetarian(),
            MenuComponent::Menu(_) => Err(MenuComponentErr::UnSupportedOperation),
        }
    }

    pub fn print(&self) -> (said: Result<String, MenuComponentErr>)
        ensures
            said is Ok,
            said->Ok_0@ == self@.print_text(),
        decreases self@, 1int,
    {
        match self {
            MenuComponent::Item(item) => item.print(),
            MenuComponent::Menu(menu) => menu.print(),
        }
    }
}

/// The one who reads the menus out.
pub struct Waitress {
    all_menus: MenuComponent,
}

impl Waitress {
    pub fn new(all_menus: MenuComponent) -> (waitress: Self)
        ensures
            waitress.menus() == all_menus@,
    {
        Waitress { all_menus }
    }

    /// What the waitress reads from.
    pub closed spec fn menus(&self) -> ComponentView {
        self.all_menus@
    }

    pub fn print_menu(&self) -> (said: String)
        ensures
            said@ == self.menus().print_text(),
    {
        match self.all_menus.print() {
            Ok(said) => said,
            Err(_) => String::new(),
        }
    }
}

} // verus!
