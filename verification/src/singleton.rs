//! Singleton pattern: the chocolate boiler of which a plant has exactly one.
//!
//! The boiler itself is an ordinary value; the program that owns the plant
//! keeps the single instance. What the boiler guards is the order of work:
//! it is filled only when empty, boiled only when full and not yet boiled,
//! and drained only when full and boiled.

use vstd::prelude::*;

verus! {

/// What a boiler is, seen from outside.
pub struct BoilerView {
    pub empty: bool,
    pub boiled: bool,
}

impl BoilerView {
    /// The boiler after an attempt to fill it.
    pub open spec fn filled(self) -> BoilerView {
        if self.empty {
            BoilerView { empty: false, boiled: false }
        } else {
            self
        }
    }

    /// The boiler after an attempt to drain it.
    pub open spec fn drained(self) -> BoilerView {
        if !self.empty && self.boiled {
            BoilerView { empty: true, boiled: self.boiled }
        } else {
            self
        }
    }

    /// The boiler after an attempt to boil what it holds.
    pub open spec fn heated(self) -> BoilerView {
        if !self.empty && !self.boiled {
            BoilerView { empty: self.empty, boiled: true }
        } else {
            self
        }
    }
}

pub struct ChocolateBoiler {
    empty: bool,
    boiled: bool,
}

impl View for ChocolateBoiler {
    type V = BoilerView;

    closed spec fn view(&self) -> BoilerView {
        BoilerView { empty: self.empty, boiled: self.boiled }
    }
}

impl ChocolateBoiler {
    /// A boiler that is empty and has boiled nothing.
    pub fn new() -> (boiler: Self)
        ensures
            boiler@.empty,
            !boiler@.boiled,
    {
        ChocolateBoiler { empty: true, boiled: false }
    }

    /// Fills the boiler with milk and chocolate, if it is empty.
    pub fn fill(&mut self)
        ensures
            final(self)@ == old(self)@.filled(),
    {
        if self.is_empty() {
            self.empty = false;
            self.boiled = false;
        }
    }

    /// Drains the boiled mixture, if the boiler is full and has boiled.
    pub fn drain(&mut self)
        ensures
            final(self)@ == old(self)@.drained(),
    {
        if !self.is_empty() && self.is_boiled() {
            self.empty = true;
        }
    }

    /// Brings the contents to a boil, if the boiler is full and has not boiled
    /// yet.
    pub fn boil(&mut self)
        ensures
            final(self)@ == old(self)@.heated(),
    {
        if !self.is_empty() && !self.is_boiled() {
            self.boiled = true;
        }
    }

    pub fn is_empty(&self) -> (empty: bool)
        ensures
            empty == self@.empty,
    {
        self.empty
    }

    pub fn is_boiled(&self) -> (boiled: bool)
        ensures
            boiled == self@.boiled,
    {
        self.boiled
    }
}

/// A full round of work on a fresh or drained boiler: filled, boiled and
/// drained, it is empty again, and what it gave out had boiled.
pub proof fn lemma_full_round(boiler: BoilerView)
    requires
        boiler.empty,
    ensures
        !boiler.filled().empty,
        !boiler.filled().boiled,
        boiler.filled().heated().boiled,
        boiler.filled().heated().drained().empty,
{
}

/// Nothing leaves the boiler unboiled: draining changes a boiler only if its
/// contents have boiled.
pub proof fn lemma_unboiled_is_never_drained(boiler: BoilerView)
    requires
        !boiler.boiled,
    ensures
        boiler.drained() == boiler,
{
}

/// A full boiler is never filled over: filling changes a boiler only if it is
/// empty.
pub proof fn lemma_full_is_never_filled(boiler: BoilerView)
    requires
        !boiler.empty,
    ensures
        boiler.filled() == boiler,
{
}

} // verus!
