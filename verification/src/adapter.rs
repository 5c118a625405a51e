//! Adapter pattern: a turkey dressed up as a duck. The adapter offers the
//! interface that the client expects and answers through the one it wraps.

use vstd::prelude::*;

verus! {

/// What a client expects of a duck.
pub trait Duck {
    /// What the duck says when it quacks.
    spec fn quack_text(&self) -> Seq<char>;

    /// What the duck says when it flies.
    spec fn fly_text(&self) -> Seq<char>;

    fn quack(&self) -> (said: String)
        ensures
            said@ == self.quack_text(),
    ;

    fn fly(&self) -> (said: String)
        ensures
            said@ == self.fly_text(),
    ;
}

pub struct MallardDuck;

impl Duck for MallardDuck {
    open spec fn quack_text(&self) -> Seq<char> {
        "Quack\n"@
    }

    open spec fn fly_text(&self) -> Seq<char> {
        "I'm flying\n"@
    }

    fn quack(&self) -> (said: String) {
        String::from_str("Quack\n")
    }

    fn fly(&self) -> (said: String) {
        String::from_str("I'm flying\n")
    }
}

/// What a turkey offers instead.
pub trait Turkey {
    /// What the turkey says when it gobbles.
    spec fn gobble_text(&self) -> Seq<char>;

    /// What the turkey says when it flies, which is never far.
    spec fn short_flight_text(&self) -> Seq<char>;

    fn gobble(&self) -> (said: String)
        ensures
            said@ == self.gobble_text(),
    ;

    fn fly(&self) -> (said: String)
        ensures
            said@ == self.short_flight_text(),
    ;
}

pub struct WildTurkey;

impl Turkey for WildTurkey {
    open spec fn gobble_text(&self) -> Seq<char> {
        "Gobble gobble\n"@
    }

    open spec fn short_flight_text(&self) -> Seq<char> {
        "I'm flying a short distance\n"@
    }

    fn gobble(&self) -> (said: String) {
        String::from_str("Gobble gobble\n")
    }

    fn fly(&self) -> (said: String) {
        String::from_str("I'm flying a short distance\n")
    }
}

/// `text`, `times` times in a row.
pub open spec fn repeated(text: Seq<char>, times: nat) -> Seq<char>
    decreases times,
{
    if times == 0 {
        Seq::empty()
    } else {
        repeated(text, (times - 1) as nat) + text
    }
}

/// How many short flights of a turkey make up for one flight of a duck.
pub const FLIGHTS: usize = 5;

/// A turkey behind the interface of a duck.
pub struct TurkeyAdapter<T: Turkey> {
    pub turkey: T,
}

impl<T: Turkey> Duck for TurkeyAdapter<T> {
    open spec fn quack_text(&self) -> Seq<char> {
        self.turkey.gobble_text()
    }

    open spec fn fly_text(&self) -> Seq<char> {
        repeated(self.turkey.short_flight_text(), FLIGHTS as nat)
    }

    fn quack(&self) -> (said: String) {
        self.turkey.gobble()
    }

    fn fly(&self) -> (said: String) {
        let mut said = String::new();
        let mut done: usize = 0;
        while done < FLIGHTS
            invariant
                done <= FLIGHTS,
                said@ == repeated(self.turkey.short_flight_text(), done as nat),
            decreases FLIGHTS - done,
        {
            let flight = self.turkey.fly();
            said.append(flight.as_str());
            done = done + 1;
        }
        said
    }
}

} // verus!
