//! Abstract factory pattern: a pizza is put together from a family of
//! ingredients, and which family that is depends on the factory that the
//! store hands to the pizza.

use vstd::prelude::*;

verus! {

pub trait Dough {

}

pub struct ThinCrustDough;

pub struct ThickCrustDough;

impl Dough for ThinCrustDough {

}

impl Dough for ThickCrustDough {

}

pub trait Sauce {

}

pub struct MarinaraSauce;

pub struct PlumTomatoSauce;

impl Sauce for MarinaraSauce {

}

impl Sauce for PlumTomatoSauce {

}

pub trait Cheese {

}

pub struct ReggianoCheese;

impl Cheese for ReggianoCheese {

}

pub trait Veggy {

}

pub struct Garlic;

impl Veggy for Garlic {

}

pub struct Onion;

impl Veggy for Onion {

}

pub struct Mushroom;

impl Veggy for Mushroom {

}

pub struct RedPepper;

impl Veggy for RedPepper {

}

/// Any of the vegetables that go on a pizza.
pub enum Vegetable {
    Garlic(Garlic),
    Onion(Onion),
    Mushroom(Mushroom),
    RedPepper(RedPepper),
}

impl Veggy for Vegetable {

}

pub trait Pepper {

}

pub struct SlicedPepper;

impl Pepper for SlicedPepper {

}

pub trait Clam {

}

pub struct FreshClams;

pub struct FrozenClams;

impl Clam for FreshClams {

}

impl Clam for FrozenClams {

}

/// A family of ingredients: one kind of each, and a list of vegetables.
pub trait PizzaIngredientFactory: Clone {
    type Dough: Dough;

    type Sauce: Sauce;

    type Cheese: Cheese;

    type Veggy: Veggy;

    type Pepper: Pepper;

    type Clam: Clam;

    /// The vegetables of this family, in the order in which they are laid on.
    spec fn veggies(&self) -> Seq<Self::Veggy>;

    fn create_dough(&self) -> Self::Dough;

    fn create_sauce(&self) -> Self::Sauce;

    fn create_cheese(&self) -> Self::Cheese;

    fn create_veggies(&self) -> (veggies: Vec<Self::Veggy>)
        ensures
            veggies@ == self.veggies(),
    ;

    fn create_pepperoni(&self) -> Self::Pepper;

    fn create_clam(&self) -> Self::Clam;
}

/// Garlic, onion, mushroom and red pepper, in that order.
pub open spec fn four_vegetables() -> Seq<Vegetable> {
    seq![
        Vegetable::Garlic(Garlic),
        Vegetable::Onion(Onion),
        Vegetable::Mushroom(Mushroom),
        Vegetable::RedPepper(RedPepper),
    ]
}

/// Lays out garlic, onion, mushroom and red pepper.
fn lay_out_vegetables() -> (veggies: Vec<Vegetable>)
    ensures
        veggies@ == four_vegetables(),
{
    let mut veggies: Vec<Vegetable> = Vec::new();
    veggies.push(Vegetable::Garlic(Garlic {  }));
    veggies.push(Vegetable::Onion(Onion {  }));
    veggies.push(Vegetable::Mushroom(Mushroom {  }));
    veggies.push(Vegetable::RedPepper(RedPepper {  }));
    assert(veggies@ =~= four_vegetables());
    veggies
}

#[derive(Clone, Copy)]
pub struct NYPizzaIngredientFactory;

impl PizzaIngredientFactory for NYPizzaIngredientFactory {
    type Dough = ThinCrustDough;

    type Sauce = MarinaraSauce;

    type Cheese = ReggianoCheese;

    type Veggy = Vegetable;

    type Pepper = SlicedPepper;

    type Clam = FreshClams;

    open spec fn veggies(&self) -> Seq<Vegetable> {
        four_vegetables()
    }

    fn create_dough(&self) -> ThinCrustDough {
        ThinCrustDough {  }
    }

    fn create_sauce(&self) -> MarinaraSauce {
        MarinaraSauce {  }
    }

    fn create_cheese(&self) -> ReggianoCheese {
        ReggianoCheese {  }
    }

    fn create_veggies(&self) -> (veggies: Vec<Vegetable>) {
        lay_out_vegetables()
    }

    fn create_pepperoni(&self) -> SlicedPepper {
        SlicedPepper {  }
    }

    fn create_clam(&self) -> FreshClams {
        FreshClams {  }
    }
}

#[derive(Clone, Copy)]
pub struct ChicagoPizzaIngredientFactory;

impl PizzaIngredientFactory for ChicagoPizzaIngredientFactory {
    type Dough = ThickCrustDough;

    type Sauce = PlumTomatoSauce;

    type Cheese = ReggianoCheese;

    type Veggy = Vegetable;

    type Pepper = SlicedPepper;

    type Clam = FrozenClams;

    open spec fn veggies(&self) -> Seq<Vegetable> {
        four_vegetables()
    }

    fn create_dough(&self) -> ThickCrustDough {
        ThickCrustDough {  }
    }

    fn create_sauce(&self) -> PlumTomatoSauce {
        PlumTomatoSauce {  }
    }

    fn create_cheese(&self) -> ReggianoCheese {
        ReggianoCheese {  }
    }

    fn create_veggies(&self) -> (veggies: Vec<Vegetable>) {
        lay_out_vegetables()
    }

    fn create_pepperoni(&self) -> SlicedPepper {
        SlicedPepper {  }
    }

    fn create_clam(&self) -> FrozenClams {
        FrozenClams {  }
    }
}

/// What can be seen of a pizza: its name, and which of its ingredients are on
/// it already.
pub struct PizzaView {
    pub name: Seq<char>,
    pub dough: bool,
    pub sauce: bool,
    pub veggies: bool,
    pub cheese: bool,
    pub pepperoni: bool,
    pub clam: bool,
}

impl PizzaView {
    /// The same pizza under another name.
    pub open spec fn renamed(self, name: Seq<char>) -> PizzaView {
        PizzaView { name, ..self }
    }

    /// A pizza of that name with nothing on it yet.
    pub open spec fn bare(name: Seq<char>) -> PizzaView {
        PizzaView {
            name,
            dough: false,
            sauce: false,
            veggies: false,
            cheese: false,
            pepperoni: false,
            clam: false,
        }
    }
}

/// What a store sells.
pub trait Pizza {
    /// What can be seen of this pizza.
    spec fn model(&self) -> PizzaView;

    /// What preparing does to a pizza of this kind.
    spec fn prepared(model: PizzaView) -> PizzaView;

    /// What is said while a pizza of this kind is prepared.
    spec fn prepare_text(model: PizzaView) -> Seq<char>;

    fn prepare(&mut self) -> (said: String)
        ensures
            final(self).model() == Self::prepared(old(self).model()),
            said@ == Self::prepare_text(old(self).model()),
    ;

    fn bake(&self) -> (said: String)
        ensures
            said@ == "Bake for 25 minutes at 350\n"@,
    {
        String::from_str("Bake for 25 minutes at 350\n")
    }

    fn cut(&self) -> (said: String)
        ensures
            said@ == "Cutting the pizza into diagonal slices\n"@,
    {
        String::from_str("Cutting the pizza into diagonal slices\n")
    }

    fn box_(&self) -> (said: String)
        ensures
            said@ == "Place pizza in official PizzaStore box\n"@,
    {
        String::from_str("Place pizza in official PizzaStore box\n")
    }

    fn name(&self) -> (name: &str)
        ensures
            name@ == self.model().name,
    ;

    fn set_name(&mut self, name: &str)
        ensures
            final(self).model() == old(self).model().renamed(name@),
    ;
}

/// A cheese pizza, made of what the factory `F` supplies.
pub struct CheesePizza<F: PizzaIngredientFactory> {
    name: String,
    dough: Option<F::Dough>,
    sauce: Option<F::Sauce>,
    veggies: Option<Vec<F::Veggy>>,
    cheese: Option<F::Cheese>,
    pepperoni: Option<F::Pepper>,
    clam: Option<F::Clam>,
    ingredient_factory: F,
}

impl<F: PizzaIngredientFactory> CheesePizza<F> {
    /// The factory that supplies this pizza.
    pub closed spec fn factory(&self) -> F {
        self.ingredient_factory
    }

    /// A pizza named "Cheese Pizza" with nothing on it yet.
    pub fn new(f: F) -> (pizza: Self)
        ensures
            pizza.model() == PizzaView::bare("Cheese Pizza"@),
            pizza.factory() == f,
    {
        CheesePizza {
            name: String::from_str("Cheese Pizza"),
            dough: None,
            sauce: None,
            veggies: None,
            cheese: None,
            pepperoni: None,
            clam: None,
            ingredient_factory: f,
        }
    }
}

impl<F: PizzaIngredientFactory> Pizza for CheesePizza<F> {
    closed spec fn model(&self) -> PizzaView {
        PizzaView {
            name: self.name@,
            dough: self.dough is Some,
            sauce: self.sauce is Some,
            veggies: self.veggies is Some,
            cheese: self.cheese is Some,
            pepperoni: self.pepperoni is Some,
            clam: self.clam is Some,
        }
    }

    /// A cheese pizza takes dough, sauce and cheese.
    open spec fn prepared(model: PizzaView) -> PizzaView {
        PizzaView { dough: true, sauce: true, cheese: true, ..model }
    }

    open spec fn prepare_text(model: PizzaView) -> Seq<char> {
        "peparing "@ + model.name + "\n"@
    }

    fn name(&self) -> (name: &str) {
        self.name.as_str()
    }

    fn set_name(&mut self, name: &str) {
        self.name = String::from_str(name);
    }

    fn prepare(&mut self) -> (said: String) {
        let mut said = String::from_str("peparing ");
        said.append(self.name());
        said.append("\n");
        self.dough = Some(self.ingredient_factory.create_dough());
        self.sauce = Some(self.ingredient_factory.create_sauce());
        self.cheese = Some(self.ingredient_factory.create_cheese());
        said
    }
}

/// Whether two texts are the same.
fn same_text(left: &str, right: &str) -> (same: bool)
    ensures
        same == (left@ == right@),
{
    String::from_str(left) == String::from_str(right)
}

/// A store: it takes an order by its type, has the pizza made, and works the
/// order off.
pub trait PizzaStore {
    /// The pizzas of this store.
    type Product: Pizza;

    /// What the store makes of that type, fresh and unprepared, if it makes
    /// anything of it.
    spec fn fresh(&self, pizza_type: Seq<char>) -> Option<PizzaView>;

    /// Takes an order, has the pizza made and prepares, bakes, cuts and boxes
    /// it. The result is the pizza and what was said meanwhile.
    fn order_pizza(&self, pizza_type: String) -> (order: (Self::Product, String))
        requires
            self.fresh(pizza_type@) is Some,
        ensures
            order.0.model() == Self::Product::prepared(self.fresh(pizza_type@)->0),
            order.1@ == Self::Product::prepare_text(self.fresh(pizza_type@)->0)
                + "Bake for 25 minutes at 350\n"@ + "Cutting the pizza into diagonal slices\n"@
                + "Place pizza in official PizzaStore box\n"@,
    {
        let mut pizza = self.create_pizza(pizza_type).expect("Unknown pizza type");
        let mut said = pizza.prepare();
        let baked = pizza.bake();
        said.append(baked.as_str());
        let cut = pizza.cut();
        said.append(cut.as_str());
        let boxed = pizza.box_();
        said.append(boxed.as_str());
        (pizza, said)
    }

    /// Makes a pizza of that type, where the store offers it.
    fn create_pizza(&self, pizza_type: String) -> (pizza: Option<Self::Product>)
        ensures
            pizza is Some <==> self.fresh(pizza_type@) is Some,
            pizza is Some ==> pizza->0.model() == self.fresh(pizza_type@)->0,
    ;
}

/// The store in New York: it makes cheese pizzas of what its factory supplies.
pub struct NYPizzaStore<F: PizzaIngredientFactory> {
    ingredient_factory: F,
}

impl<F: PizzaIngredientFactory> NYPizzaStore<F> {
    /// The factory that supplies the pizzas of this store.
    pub closed spec fn factory(&self) -> F {
        self.ingredient_factory
    }

    pub fn new(f: F) -> (store: Self)
        ensures
            store.factory() == f,
    {
        NYPizzaStore { ingredient_factory: f }
    }
}

impl<F: PizzaIngredientFactory> PizzaStore for NYPizzaStore<F> {
    type Product = CheesePizza<F>;

    open spec fn fresh(&self, pizza_type: Seq<char>) -> Option<PizzaView> {
        if pizza_type == "cheese"@ {
            Some(PizzaView::bare("Cheese Pizza"@))
        } else {
            None
        }
    }

    fn create_pizza(&self, pizza_type: String) -> (pizza: Option<CheesePizza<F>>) {
        if same_text(pizza_type.as_str(), "cheese") {
            Some(CheesePizza::new(self.ingredient_factory.clone()))
        } else {
            None
        }
    }
}

} // verus!
