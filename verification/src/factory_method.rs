//! Factory method pattern: a pizza store knows how an order is worked off;
//! which pizza is made is left to the store that takes the order.

use vstd::prelude::*;

verus! {

/// The listing of toppings, one indented line for each.
pub open spec fn toppings_text(toppings: Seq<Seq<char>>) -> Seq<char>
    decreases toppings.len(),
{
    if toppings.len() == 0 {
        Seq::empty()
    } else {
        toppings_text(toppings.drop_last()) + "    "@ + toppings.last() + "\n"@
    }
}

/// The texts of a list of strings.
pub open spec fn texts(strings: Seq<String>) -> Seq<Seq<char>> {
    Seq::new(strings.len(), |i: int| strings[i]@)
}

/// What is said while a pizza of that name and with those toppings is
/// prepared.
pub open spec fn preparation_text(name: Seq<char>, toppings: Seq<Seq<char>>) -> Seq<char> {
    "Preparing "@ + name + "\n"@ + "Tossing dough...\n"@ + "Adding sauch...\n"@
        + "Adding toppings: \n"@ + toppings_text(toppings)
}

/// Says what is done while a pizza of that name and with those toppings is
/// prepared.
fn preparation(name: &str, toppings: &Vec<String>) -> (said: String)
    ensures
        said@ == preparation_text(name@, texts(toppings@)),
{
    let mut said = String::from_str("Preparing ");
    said.append(name);
    said.append("\n");
    said.append("Tossing dough...\n");
    said.append("Adding sauch...\n");
    said.append("Adding toppings: \n");
    let ghost head = said@;
    let mut i: usize = 0;
    while i < toppings.len()
        invariant
            i <= toppings.len(),
            said@ == head + toppings_text(texts(toppings@).take(i as int)),
        decreases toppings.len() - i,
    {
        proof {
            assert(texts(toppings@).take(i + 1).drop_last() =~= texts(toppings@).take(i as int));
        }
        said.append("    ");
        said.append(toppings[i].as_str());
        said.append("\n");
        i = i + 1;
    }
    proof {
        assert(texts(toppings@).take(i as int) =~= texts(toppings@));
    }
    said
}

/// What a store sells.
pub trait Pizza {
    /// The name of the pizza.
    spec fn name_text(&self) -> Seq<char>;

    /// What is said while the pizza is prepared.
    spec fn prepare_text(&self) -> Seq<char>;

    /// What is said while the pizza is cut.
    spec fn cut_text(&self) -> Seq<char>;

    fn prepare(&self) -> (said: String)
        ensures
            said@ == self.prepare_text(),
    ;

    fn bake(&self) -> (said: String)
        ensures
            said@ == "Bake for 25 minutes at 350\n"@,
    {
        String::from_str("Bake for 25 minutes at 350\n")
    }

    fn cut(&self) -> (said: String)
        ensures
            said@ == self.cut_text(),
    ;

    fn box_(&self) -> (said: String)
        ensures
            said@ == "Place pizza in official PizzaStore box\n"@,
    {
        String::from_str("Place pizza in official PizzaStore box\n")
    }

    fn name(&self) -> (name: &str)
        ensures
            name@ == self.name_text(),
    ;
}

/// What is said while `pizza` goes through an order: prepared, baked, cut and
/// boxed.
pub open spec fn order_text<P: Pizza>(pizza: P) -> Seq<char> {
    pizza.prepare_text() + "Bake for 25 minutes at 350\n"@ + pizza.cut_text()
        + "Place pizza in official PizzaStore box\n"@
}

/// What a pizza is made of.
pub struct PizzaView {
    pub name: Seq<char>,
    pub dough: Seq<char>,
    pub sauce: Seq<char>,
    pub toppings: Seq<Seq<char>>,
}

/// The cheese pizza as New York makes it.
pub open spec fn ny_style_cheese_pizza() -> PizzaView {
    PizzaView {
        name: "NY Style Sauce and Cheese Pizza"@,
        dough: "Thin Crust Dough"@,
        sauce: "Marinara Sauce"@,
        toppings: seq!["Grated Reggiano Cheese"@],
    }
}

/// The cheese pizza as Chicago makes it.
pub open spec fn chicago_style_cheese_pizza() -> PizzaView {
    PizzaView {
        name: "Chicago Style Deep Dish Cheese Pizza"@,
        dough: "Extra Thick Crust Dough"@,
        sauce: "Plum Tomato Sauce"@,
        toppings: seq!["Shredded Mozzarella Cheese"@],
    }
}

pub struct NYStyleCheesePizza {
    name: String,
    dough: String,
    sauce: String,
    toppings: Vec<String>,
}

impl View for NYStyleCheesePizza {
    type V = PizzaView;

    closed spec fn view(&self) -> PizzaView {
        PizzaView {
            name: self.name@,
            dough: self.dough@,
            sauce: self.sauce@,
            toppings: texts(self.toppings@),
        }
    }
}

impl NYStyleCheesePizza {
    pub fn new() -> (pizza: Self)
        ensures
            pizza@ == ny_style_cheese_pizza(),
    {
        let mut toppings: Vec<String> = Vec::new();
        toppings.push(String::from_str("Grated Reggiano Cheese"));
        let pizza = NYStyleCheesePizza {
            name: String::from_str("NY Style Sauce and Cheese Pizza"),
            dough: String::from_str("Thin Crust Dough"),
            sauce: String::from_str("Marinara Sauce"),
            toppings,
        };
        assert(pizza@.toppings =~= ny_style_cheese_pizza().toppings);
        pizza
    }
}

impl Pizza for NYStyleCheesePizza {
    open spec fn name_text(&self) -> Seq<char> {
        self@.name
    }

    open spec fn prepare_text(&self) -> Seq<char> {
        preparation_text(self@.name, self@.toppings)
    }

    open spec fn cut_text(&self) -> Seq<char> {
        "Cutting the pizza into diagonal slices\n"@
    }

    fn name(&self) -> (name: &str) {
        self.name.as_str()
    }

    fn prepare(&self) -> (said: String) {
        preparation(self.name.as_str(), &self.toppings)
    }

    fn cut(&self) -> (said: String) {
        String::from_str("Cutting the pizza into diagonal slices\n")
    }
}

pub struct ChicagoStyleCheesePizza {
    name: String,
    dough: String,
    sauce: String,
    toppings: Vec<String>,
}

impl View for ChicagoStyleCheesePizza {
    type V = PizzaView;

    closed spec fn view(&self) -> PizzaView {
        PizzaView {
            name: self.name@,
            dough: self.dough@,
            sauce: self.sauce@,
            toppings: texts(self.toppings@),
        }
    }
}

impl ChicagoStyleCheesePizza {
    pub fn new() -> (pizza: Self)
        ensures
            pizza@ == chicago_style_cheese_pizza(),
    {
        let mut toppings: Vec<String> = Vec::new();
        toppings.push(String::from_str("Shredded Mozzarella Cheese"));
        let pizza = ChicagoStyleCheesePizza {
            name: String::from_str("Chicago Style Deep Dish Cheese Pizza"),
            dough: String::from_str("Extra Thick Crust Dough"),
            sauce: String::from_str("Plum Tomato Sauce"),
            toppings,
        };
        assert(pizza@.toppings =~= chicago_style_cheese_pizza().toppings);
        pizza
    }
}

impl Pizza for ChicagoStyleCheesePizza {
    open spec fn name_text(&self) -> Seq<char> {
        self@.name
    }

    open spec fn prepare_text(&self) -> Seq<char> {
        preparation_text(self@.name, self@.toppings)
    }

    open spec fn cut_text(&self) -> Seq<char> {
        "Cutting the pizza into square slices\n"@
    }

    fn name(&self) -> (name: &str) {
        self.name.as_str()
    }

    fn prepare(&self) -> (said: String) {
        preparation(self.name.as_str(), &self.toppings)
    }

    fn cut(&self) -> (said: String) {
        String::from_str("Cutting the pizza into square slices\n")
    }
}

/// Whether two texts are the same.
fn same_text(left: &str, right: &str) -> (same: bool)
    ensures
        same == (left@ == right@),
{
    String::from_str(left) == String::from_str(right)
}

/// A store: it takes an order by its type, has the pizza made, and works the
/// order off.
pub trait PizzaStore {
    /// The pizzas of this store.
    type Product: Pizza;

    /// Whether the store makes pizzas of that type.
    spec fn offers(&self, pizza_type: Seq<char>) -> bool;

    /// Whether `pizza` is what the store makes of that type.
    spec fn makes(&self, pizza_type: Seq<char>, pizza: Self::Product) -> bool;

    /// Takes an order, has the pizza made and prepares, bakes, cuts and boxes
    /// it. The result is the pizza and what was said meanwhile.
    fn order_pizza(&self, pizza_type: &str) -> (order: (Self::Product, String))
        requires
            self.offers(pizza_type@),
        ensures
            self.makes(pizza_type@, order.0),
            order.1@ == order_text(order.0),
    {
        let pizza = self.create_pizza(pizza_type).expect("Unknown pizza type");
        let mut said = pizza.prepare();
        let baked = pizza.bake();
        said.append(baked.as_str());
        let cut = pizza.cut();
        said.append(cut.as_str());
        let boxed = pizza.box_();
        said.append(boxed.as_str());
        (pizza, said)
    }

    /// Makes a pizza of that type, where the store offers it.
    fn create_pizza(&self, pizza_type: &str) -> (pizza: Option<Self::Product>)
        ensures
            pizza is Some <==> self.offers(pizza_type@),
            pizza is Some ==> self.makes(pizza_type@, pizza->0),
    ;
}

pub struct NYPizzaStore;

impl NYPizzaStore {
    pub fn new() -> (store: Self) {
        NYPizzaStore {  }
    }
}

impl PizzaStore for NYPizzaStore {
    type Product = NYStyleCheesePizza;

    open spec fn offers(&self, pizza_type: Seq<char>) -> bool {
        pizza_type == "cheese"@
    }

    open spec fn makes(&self, pizza_type: Seq<char>, pizza: NYStyleCheesePizza) -> bool {
        pizza@ == ny_style_cheese_pizza()
    }

    fn create_pizza(&self, pizza_type: &str) -> (pizza: Option<NYStyleCheesePizza>) {
        if same_text(pizza_type, "cheese") {
            Some(NYStyleCheesePizza::new())
        } else {
            None
        }
    }
}

pub struct ChicagoPizzaStore;

impl ChicagoPizzaStore {
    pub fn new() -> (store: Self) {
        ChicagoPizzaStore {  }
    }
}

impl PizzaStore for ChicagoPizzaStore {
    type Product = ChicagoStyleCheesePizza;

    open spec fn offers(&self, pizza_type: Seq<char>) -> bool {
        pizza_type == "cheese"@
    }

    open spec fn makes(&self, pizza_type: Seq<char>, pizza: ChicagoStyleCheesePizza) -> bool {
        pizza@ == chicago_style_cheese_pizza()
    }

    fn create_pizza(&self, pizza_type: &str) -> (pizza: Option<ChicagoStyleCheesePizza>) {
        if same_text(pizza_type, "cheese") {
            Some(ChicagoStyleCheesePizza::new())
        } else {
            None
        }
    }
}

} // verus!
