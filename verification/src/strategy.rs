//! Strategy pattern: ducks that delegate how they quack and how they fly to
//! behaviours that can be exchanged while the program runs.

use vstd::prelude::*;

verus! {

/// A way to quack.
pub trait QuackBehavior {
    /// What this behaviour says when it quacks.
    spec fn quack_text(&self) -> Seq<char>;

    fn quack(&self) -> (said: String)
        ensures
            said@ == self.quack_text(),
    ;
}

/// A way to fly.
pub trait FlyBehavior {
    /// What this behaviour says when it flies.
    spec fn fly_text(&self) -> Seq<char>;

    fn fly(&self) -> (said: String)
        ensures
            said@ == self.fly_text(),
    ;
}

pub struct FlyWithWings;

impl FlyBehavior for FlyWithWings {
    open spec fn fly_text(&self) -> Seq<char> {
        "I'm flying\n"@
    }

    fn fly(&self) -> (said: String) {
        String::from_str("I'm flying\n")
    }
}

pub struct FlyNoWay;

impl FlyBehavior for FlyNoWay {
    open spec fn fly_text(&self) -> Seq<char> {
        "I can't fly\n"@
    }

    fn fly(&self) -> (said: String) {
        String::from_str("I can't fly\n")
    }
}

pub struct FlyRocketPowered;

impl FlyBehavior for FlyRocketPowered {
    open spec fn fly_text(&self) -> Seq<char> {
        "I'm flying with a rocket!\n"@
    }

    fn fly(&self) -> (said: String) {
        String::from_str("I'm flying with a rocket!\n")
    }
}

pub struct Quack;

impl QuackBehavior for Quack {
    open spec fn quack_text(&self) -> Seq<char> {
        "Quack\n"@
    }

    fn quack(&self) -> (said: String) {
        String::from_str("Quack\n")
    }
}

pub struct MuteQuack;

impl QuackBehavior for MuteQuack {
    open spec fn quack_text(&self) -> Seq<char> {
        "<< Silence >>\n"@
    }

    fn quack(&self) -> (said: String) {
        String::from_str("<< Silence >>\n")
    }
}

pub struct Squeak;

impl QuackBehavior for Squeak {
    open spec fn quack_text(&self) -> Seq<char> {
        "Squeak\n"@
    }

    fn quack(&self) -> (said: String) {
        String::from_str("Squeak\n")
    }
}

/// The fly behaviour that a duck holds at the moment: any of the known ones.
pub enum Flight {
    WithWings(FlyWithWings),
    NoWay(FlyNoWay),
    RocketPowered(FlyRocketPowered),
}

impl FlyBehavior for Flight {
    open spec fn fly_text(&self) -> Seq<char> {
        match self {
            Flight::WithWings(behavior) => behavior.fly_text(),
            Flight::NoWay(behavior) => behavior.fly_text(),
            Flight::RocketPowered(behavior) => behavior.fly_text(),
        }
    }

    fn fly(&self) -> (said: String) {
        match self {
            Flight::WithWings(behavior) => behavior.fly(),
            Flight::NoWay(behavior) => behavior.fly(),
            Flight::RocketPowered(behavior) => behavior.fly(),
        }
    }
}

/// The quack behaviour that a duck holds at the moment: any of the known
/// ones.
pub enum Voice {
    Quack(Quack),
    Mute(MuteQuack),
    Squeak(Squeak),
}

impl QuackBehavior for Voice {
    open spec fn quack_text(&self) -> Seq<char> {
        match self {
            Voice::Quack(behavior) => behavior.quack_text(),
            Voice::Mute(behavior) => behavior.quack_text(),
            Voice::Squeak(behavior) => behavior.quack_text(),
        }
    }

    fn quack(&self) -> (said: String) {
        match self {
            Voice::Quack(behavior) => behavior.quack(),
            Voice::Mute(behavior) => behavior.quack(),
            Voice::Squeak(behavior) => behavior.quack(),
        }
    }
}

/// A duck: it shows itself, and performs through the behaviours it holds.
pub trait Duck {
    /// The kind of quack behaviour that this duck can hold.
    type Quack: QuackBehavior;

    /// The kind of fly behaviour that this duck can hold.
    type Fly: FlyBehavior;

    /// The behaviour that this duck quacks with.
    spec fn voice(&self) -> Self::Quack;

    /// The behaviour that this duck flies with.
    spec fn flight(&self) -> Self::Fly;

    /// How this duck presents itself.
    spec fn display_text(&self) -> Seq<char>;

    fn display(&self) -> (said: String)
        ensures
            said@ == self.display_text(),
    ;

    fn quack_behavior(&self) -> (behavior: &Self::Quack)
        ensures
            *behavior == self.voice(),
    ;

    /// Quacks the way the current quack behaviour does.
    fn perform_quack(&self) -> (said: String)
        ensures
            said@ == self.voice().quack_text(),
    {
        self.quack_behavior().quack()
    }

    fn fly_behavior(&self) -> (behavior: &Self::Fly)
        ensures
            *behavior == self.flight(),
    ;

    /// Flies the way the current fly behaviour does.
    fn perform_fly(&self) -> (said: String)
        ensures
            said@ == self.flight().fly_text(),
    {
        self.fly_behavior().fly()
    }

    /// Exchanges the fly behaviour; everything else stays.
    fn set_fly_behavior(&mut self, fly_behavior: Self::Fly)
        ensures
            final(self).flight() == fly_behavior,
            final(self).voice() == old(self).voice(),
            final(self).display_text() == old(self).display_text(),
    ;

    fn swim(&self) -> (said: String)
        ensures
            said@ == "All ducks float, even decoys!\n"@,
    {
        String::from_str("All ducks float, even decoys!\n")
    }
}

/// A real duck: it quacks, and flies with its wings until told otherwise.
pub struct MallardDuck {
    quack_behavior: Voice,
    fly_behavior: Flight,
}

impl MallardDuck {
    pub fn new() -> (duck: Self)
        ensures
            duck.voice() == Voice::Quack(Quack),
            duck.flight() == Flight::WithWings(FlyWithWings),
    {
        MallardDuck {
            fly_behavior: Flight::WithWings(FlyWithWings),
            quack_behavior: Voice::Quack(Quack),
        }
    }
}

impl Duck for MallardDuck {
    type Quack = Voice;

    type Fly = Flight;

    closed spec fn voice(&self) -> Voice {
        self.quack_behavior
    }

    closed spec fn flight(&self) -> Flight {
        self.fly_behavior
    }

    open spec fn display_text(&self) -> Seq<char> {
        "I'm a real Mallard duck\n"@
    }

    fn display(&self) -> (said: String) {
        String::from_str("I'm a real Mallard duck\n")
    }

    fn quack_behavior(&self) -> (behavior: &Voice) {
        &self.quack_behavior
    }

    fn fly_behavior(&self) -> (behavior: &Flight) {
        &self.fly_behavior
    }

    fn set_fly_behavior(&mut self, fly_behavior: Flight) {
        self.fly_behavior = fly_behavior;
    }
}

/// A model duck: it quacks, and cannot fly until it is given the means.
pub struct ModelDuck {
    quack_behavior: Voice,
    fly_behavior: Flight,
}

impl ModelDuck {
    pub fn new() -> (duck: Self)
        ensures
            duck.voice() == Voice::Quack(Quack),
            duck.flight() == Flight::NoWay(FlyNoWay),
    {
        ModelDuck { fly_behavior: Flight::NoWay(FlyNoWay), quack_behavior: Voice::Quack(Quack) }
    }
}

impl Duck for ModelDuck {
    type Quack = Voice;

    type Fly = Flight;

    closed spec fn voice(&self) -> Voice {
        self.quack_behavior
    }

    closed spec fn flight(&self) -> Flight {
        self.fly_behavior
    }

    open spec fn display_text(&self) -> Seq<char> {
        "I'm a Model duck\n"@
    }

    fn display(&self) -> (said: String) {
        String::from_str("I'm a Model duck\n")
    }

    fn quack_behavior(&self) -> (behavior: &Voice) {
        &self.quack_behavior
    }

    fn fly_behavior(&self) -> (behavior: &Flight) {
        &self.fly_behavior
    }

    fn set_fly_behavior(&mut self, fly_behavior: Flight) {
        self.fly_behavior = fly_behavior;
    }
}

} // verus!
