//! Decorator pattern: beverages, and condiments that wrap a beverage and are
//! beverages themselves. A wrapped beverage is described and priced by what it
//! wraps, plus what the condiment adds.
//!
//! Prices are amounts of cents. A price beyond what sixty-four bits hold is
//! reported as the largest amount they hold.

use vstd::prelude::*;

verus! {

/// The amount that is reported for a price of `price` cents.
pub open spec fn reported(price: nat) -> u64 {
    if price <= u64::MAX {
        price as u64
    } else {
        u64::MAX
    }
}

/// Anything that can be ordered: it has a description and a price.
pub trait Beverage {
    /// How the beverage reads on the bill.
    spec fn description_text(&self) -> Seq<char>;

    /// What the beverage costs, in cents.
    spec fn price(&self) -> nat;

    fn description(&self) -> (text: String)
        ensures
            text@ == self.description_text(),
    ;

    fn cost(&self) -> (cents: u64)
        ensures
            cents == reported(self.price()),
    ;
}

/// A beverage that is made by wrapping another one.
pub trait CondimentDecorator: Beverage {

}

pub struct Espresso {
    description: String,
}

impl Espresso {
    pub fn new() -> (beverage: Self)
        ensures
            beverage.description_text() == "Espresso"@,
            beverage.price() == 199,
    {
        Espresso { description: String::from_str("Espresso") }
    }
}

impl Beverage for Espresso {
    closed spec fn description_text(&self) -> Seq<char> {
        self.description@
    }

    open spec fn price(&self) -> nat {
        199
    }

    fn description(&self) -> (text: String) {
        self.description.clone()
    }

    fn cost(&self) -> (cents: u64) {
        199
    }
}

pub struct HouseBlend {
    description: String,
}

impl HouseBlend {
    pub fn new() -> (beverage: Self)
        ensures
            beverage.description_text() == "House Blend Coffee"@,
            beverage.price() == 89,
    {
        HouseBlend { description: String::from_str("House Blend Coffee") }
    }
}

impl Beverage for HouseBlend {
    closed spec fn description_text(&self) -> Seq<char> {
        self.description@
    }

    open spec fn price(&self) -> nat {
        89
    }

    fn description(&self) -> (text: String) {
        self.description.clone()
    }

    fn cost(&self) -> (cents: u64) {
        89
    }
}

pub struct DarkRost {
    description: String,
}

impl DarkRost {
    pub fn new() -> (beverage: Self)
        ensures
            beverage.description_text() == "DarkRost Coffee"@,
            beverage.price() == 99,
    {
        DarkRost { description: String::from_str("DarkRost Coffee") }
    }
}

impl Beverage for DarkRost {
    closed spec fn description_text(&self) -> Seq<char> {
        self.description@
    }

    open spec fn price(&self) -> nat {
        99
    }

    fn description(&self) -> (text: String) {
        self.description.clone()
    }

    fn cost(&self) -> (cents: u64) {
        99
    }
}

pub struct Decat {
    description: String,
}

impl Decat {
    pub fn new() -> (beverage: Self)
        ensures
            beverage.description_text() == "Decat Coffee"@,
            beverage.price() == 105,
    {
        Decat { description: String::from_str("Decat Coffee") }
    }
}

impl Beverage for Decat {
    closed spec fn description_text(&self) -> Seq<char> {
        self.description@
    }

    open spec fn price(&self) -> nat {
        105
    }

    fn description(&self) -> (text: String) {
        self.description.clone()
    }

    fn cost(&self) -> (cents: u64) {
        105
    }
}

/// Chocolate on top of a beverage.
pub struct Mocha<B: Beverage> {
    beverage: B,
}

impl<B: Beverage> Mocha<B> {
    pub fn new(b: B) -> (beverage: Self)
        ensures
            beverage.inner() == b,
    {
        Mocha { beverage: b }
    }

    /// The beverage under the chocolate.
    pub closed spec fn inner(&self) -> B {
        self.beverage
    }
}

impl<B: Beverage> Beverage for Mocha<B> {
    open spec fn description_text(&self) -> Seq<char> {
        self.inner().description_text() + ", Mocha"@
    }

    open spec fn price(&self) -> nat {
        20 + self.inner().price()
    }

    fn description(&self) -> (text: String) {
        let mut text = self.beverage.description();
        text.append(", Mocha");
        text
    }

    fn cost(&self) -> (cents: u64) {
        self.beverage.cost().saturating_add(20)
    }
}

impl<B: Beverage> CondimentDecorator for Mocha<B> {

}

/// Soy milk on top of a beverage.
pub struct Soy<B: Beverage> {
    beverage: B,
}

impl<B: Beverage> Soy<B> {
    pub fn new(b: B) -> (beverage: Self)
        ensures
            beverage.inner() == b,
    {
        Soy { beverage: b }
    }

    /// The beverage under the soy milk.
    pub closed spec fn inner(&self) -> B {
        self.beverage
    }
}

impl<B: Beverage> Beverage for Soy<B> {
    open spec fn description_text(&self) -> Seq<char> {
        self.inner().description_text() + ", Soy"@
    }

    open spec fn price(&self) -> nat {
        15 + self.inner().price()
    }

    fn description(&self) -> (text: String) {
        let mut text = self.beverage.description();
        text.append(", Soy");
        text
    }

    fn cost(&self) -> (cents: u64) {
        self.beverage.cost().saturating_add(15)
    }
}

impl<B: Beverage> CondimentDecorator for Soy<B> {

}

/// Whipped cream on top of a beverage.
pub struct Whip<B: Beverage> {
    beverage: B,
}

impl<B: Beverage> Whip<B> {
    pub fn new(b: B) -> (beverage: Self)
        ensures
            beverage.inner() == b,
    {
        Whip { beverage: b }
    }

    /// The beverage under the cream.
    pub closed spec fn inner(&self) -> B {
        self.beverage
    }
}

impl<B: Beverage> Beverage for Whip<B> {
    open spec fn description_text(&self) -> Seq<char> {
        self.inner().description_text() + ", Whip"@
    }

    open spec fn price(&self) -> nat {
        10 + self.inner().price()
    }

    fn description(&self) -> (text: String) {
        let mut text = self.beverage.description();
        text.append(", Whip");
        text
    }

    fn cost(&self) -> (cents: u64) {
        self.beverage.cost().saturating_add(10)
    }
}

impl<B: Beverage> CondimentDecorator for Whip<B> {

}

/// The order in which condiments are put on does not change the price.
pub proof fn lemma_price_ignores_order<B: Beverage>(
    mocha_first: Whip<Mocha<B>>,
    whip_first: Mocha<Whip<B>>,
)
    requires
        mocha_first.inner().inner() == whip_first.inner().inner(),
    ensures
        mocha_first.price() == whip_first.price(),
{
}

} // verus!
