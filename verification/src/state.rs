//! State pattern: a gumball machine as a finite-state engine.
//!
//! The machine holds its current state as a plain tag and its inventory as a
//! count. Every event goes through one pure transition function, and the
//! machine applies what that function returns: the next state, the change of
//! the inventory and the message, always together.

use crate::text::{decimal, decimal_string};
use vstd::prelude::*;

verus! {

/// The behavioural modes of the machine.
#[derive(Clone, Copy, Debug, PartialEq, Eq, Structural)]
pub enum State {
    /// Waiting for payment.
    NoQuarter,
    /// Payment received, waiting for the crank.
    HasQuarter,
    /// Crank turned, a gumball is about to be released.
    Sold,
    /// Nothing left to sell.
    SoldOut,
}

/// What can happen to the machine. `Dispense` is raised by the machine itself,
/// right after a crank that was accepted.
#[derive(Clone, Copy, Debug, PartialEq, Eq, Structural)]
pub enum Event {
    InsertQuarter,
    EjectQuarter,
    TurnCrank,
    Dispense,
}

/// Whether `event` is valid in `state`. Every other pair is a rejected event.
pub open spec fn accepts(state: State, event: Event) -> bool {
    match (state, event) {
        (State::NoQuarter, Event::InsertQuarter) => true,
        (State::HasQuarter, Event::EjectQuarter) => true,
        (State::HasQuarter, Event::TurnCrank) => true,
        (State::Sold, Event::Dispense) => true,
        _ => false,
    }
}

/// The transition table: the state that follows `state` on `event`.
pub open spec fn next_state(state: State, event: Event, inventory: nat) -> State {
    match (state, event) {
        (State::NoQuarter, Event::InsertQuarter) => State::HasQuarter,
        (State::HasQuarter, Event::EjectQuarter) => State::NoQuarter,
        (State::HasQuarter, Event::TurnCrank) => State::Sold,
        (State::Sold, Event::Dispense) => if inventory > 1 {
            State::NoQuarter
        } else {
            State::SoldOut
        },
        _ => state,
    }
}

/// The change of the inventory on `event`: one unit less when a gumball is
/// released, nothing otherwise. An empty machine has nothing to release.
pub open spec fn inventory_delta(state: State, event: Event, inventory: nat) -> int {
    if state == State::Sold && event == Event::Dispense && inventory > 0 {
        -1
    } else {
        0
    }
}

/// The message that the machine emits on `event`, each line closed by a line
/// feed.
pub open spec fn message(state: State, event: Event, inventory: nat) -> Seq<char> {
    match (state, event) {
        (State::NoQuarter, Event::InsertQuarter) => "You inserted a quarter\n"@,
        (State::NoQuarter, Event::EjectQuarter) => "You have't inserted a quarter\n"@,
        (State::NoQuarter, Event::TurnCrank) => "You turned, but there's no quarter\n"@,
        (State::NoQuarter, Event::Dispense) => "You need to pay first\n"@,
        (State::HasQuarter, Event::InsertQuarter) => "You cant't insert another quarter\n"@,
        (State::HasQuarter, Event::EjectQuarter) => "Quarter returned\n"@,
        (State::HasQuarter, Event::TurnCrank) => "You turned...\n"@,
        (State::HasQuarter, Event::Dispense) => "No gumball dispensed\n"@,
        (State::Sold, Event::InsertQuarter) => "Please wait, we're already giving you gumball\n"@,
        (State::Sold, Event::EjectQuarter) => "Sorry, you already turned the crank\n"@,
        (State::Sold, Event::TurnCrank) => "Turning twice doesn't get you another gumball\n"@,
        (State::Sold, Event::Dispense) => if inventory > 1 {
            "A gumball comes rolling out the slot...\n"@
        } else {
            "A gumball comes rolling out the slot...\n"@ + "Oops, out of gumballs!\n"@
        },
        (State::SoldOut, Event::InsertQuarter) => "You can't insert quarter, the machine is sold out\n"@,
        (State::SoldOut, Event::EjectQuarter) => "You can't eject, you haven't inserted a quarter yet\n"@,
        (State::SoldOut, Event::TurnCrank) => "You turned, but there are no gumballs\n"@,
        (State::SoldOut, Event::Dispense) => "No gumball dispensed\n"@,
    }
}

/// What the transition function returns: the caller applies the three
/// together.
pub struct Transition {
    pub next_state: State,
    pub inventory_delta: i8,
    pub message: String,
}

impl Transition {
    /// Whether this is the entry of the transition table for `state`, `event`
    /// and `inventory`.
    pub open spec fn is_step(&self, state: State, event: Event, inventory: nat) -> bool {
        &&& self.next_state == next_state(state, event, inventory)
        &&& self.inventory_delta == inventory_delta(state, event, inventory)
        &&& self.message@ == message(state, event, inventory)
    }
}

/// A transition that leaves the state and the inventory as they are.
fn stay(state: State, text: &str) -> (t: Transition)
    ensures
        t.next_state == state,
        t.inventory_delta == 0,
        t.message@ == text@,
{
    Transition { next_state: state, inventory_delta: 0, message: String::from_str(text) }
}

/// A transition to `next` that leaves the inventory as it is.
fn go(next: State, text: &str) -> (t: Transition)
    ensures
        t.next_state == next,
        t.inventory_delta == 0,
        t.message@ == text@,
{
    Transition { next_state: next, inventory_delta: 0, message: String::from_str(text) }
}

impl State {
    /// The name under which a state is displayed.
    pub open spec fn name_text(self) -> Seq<char> {
        match self {
            State::NoQuarter => "NoQuarterState"@,
            State::HasQuarter => "HasQuarterState"@,
            State::Sold => "SoldState"@,
            State::SoldOut => "SoldOutState"@,
        }
    }

    /// The name under which this state is displayed.
    pub fn name(self) -> (s: String)
        ensures
            s@ == self.name_text(),
    {
        match self {
            State::NoQuarter => String::from_str("NoQuarterState"),
            State::HasQuarter => String::from_str("HasQuarterState"),
            State::Sold => String::from_str("SoldState"),
            State::SoldOut => String::from_str("SoldOutState"),
        }
    }

    /// Whether `event` is valid in this state.
    pub fn accepts(self, event: Event) -> (b: bool)
        ensures
            b == accepts(self, event),
    {
        match (self, event) {
            (State::NoQuarter, Event::InsertQuarter) => true,
            (State::HasQuarter, Event::EjectQuarter) => true,
            (State::HasQuarter, Event::TurnCrank) => true,
            (State::Sold, Event::Dispense) => true,
            _ => false,
        }
    }

    /// A quarter is offered: taken only while the machine waits for one.
    pub fn insert_quarter(self) -> (t: Transition)
        ensures
            forall|inventory: nat| t.is_step(self, Event::InsertQuarter, inventory),
    {
        match self {
            State::NoQuarter => go(State::HasQuarter, "You inserted a quarter\n"),
            State::HasQuarter => stay(self, "You cant't insert another quarter\n"),
            State::Sold => stay(self, "Please wait, we're already giving you gumball\n"),
            State::SoldOut => stay(self, "You can't insert quarter, the machine is sold out\n"),
        }
    }

    /// The quarter is asked back: returned only while the machine holds one.
    pub fn eject_quarter(self) -> (t: Transition)
        ensures
            forall|inventory: nat| t.is_step(self, Event::EjectQuarter, inventory),
    {
        match self {
            State::NoQuarter => stay(self, "You have't inserted a quarter\n"),
            State::HasQuarter => go(State::NoQuarter, "Quarter returned\n"),
            State::Sold => stay(self, "Sorry, you already turned the crank\n"),
            State::SoldOut => stay(self, "You can't eject, you haven't inserted a quarter yet\n"),
        }
    }

    /// The crank is turned: a sale starts only while the machine holds a
    /// quarter.
    pub fn turn_crank(self) -> (t: Transition)
        ensures
            forall|inventory: nat| t.is_step(self, Event::TurnCrank, inventory),
    {
        match self {
            State::NoQuarter => stay(self, "You turned, but there's no quarter\n"),
            State::HasQuarter => go(State::Sold, "You turned...\n"),
            State::Sold => stay(self, "Turning twice doesn't get you another gumball\n"),
            State::SoldOut => stay(self, "You turned, but there are no gumballs\n"),
        }
    }

    /// A gumball is due: released only during a sale, out of an inventory of
    /// `inventory` units.
    pub fn dispense(self, inventory: usize) -> (t: Transition)
        ensures
            t.is_step(self, Event::Dispense, inventory as nat),
    {
        match self {
            State::NoQuarter => stay(self, "You need to pay first\n"),
            State::HasQuarter => stay(self, "No gumball dispensed\n"),
            State::Sold => {
                let mut text = String::from_str("A gumball comes rolling out the slot...\n");
                if inventory > 1 {
                    Transition { next_state: State::NoQuarter, inventory_delta: -1, message: text }
                } else {
                    text.append("Oops, out of gumballs!\n");
                    let delta: i8 = if inventory == 1 {
                        -1
                    } else {
                        0
                    };
                    Transition { next_state: State::SoldOut, inventory_delta: delta, message: text }
                }
            },
            State::SoldOut => stay(self, "No gumball dispensed\n"),
        }
    }
}

/// The transition function: what `event` does in `state` with `inventory`
/// units in stock. It changes nothing itself.
pub fn transition(state: State, event: Event, inventory: usize) -> (t: Transition)
    ensures
        t.is_step(state, event, inventory as nat),
{
    match event {
        Event::InsertQuarter => state.insert_quarter(),
        Event::EjectQuarter => state.eject_quarter(),
        Event::TurnCrank => state.turn_crank(),
        Event::Dispense => state.dispense(inventory),
    }
}

/// What a machine is, seen from outside: its state and its inventory.
pub struct MachineView {
    pub state: State,
    pub inventory: nat,
}

impl MachineView {
    /// The states in which a machine rests between two calls: sold out exactly
    /// when the inventory is empty, and never in the middle of a sale.
    pub open spec fn wf(self) -> bool {
        &&& self.state != State::Sold
        &&& self.state == State::SoldOut <==> self.inventory == 0
    }

    /// One transition of the table, applied.
    pub open spec fn apply(self, event: Event) -> MachineView {
        MachineView {
            state: next_state(self.state, event, self.inventory),
            inventory: (self.inventory + inventory_delta(self.state, event, self.inventory)) as nat,
        }
    }

    /// Whether `event` starts a sale here, so that `Dispense` follows at once:
    /// a crank that is accepted.
    pub open spec fn chains_dispense(self, event: Event) -> bool {
        event == Event::TurnCrank && accepts(self.state, event)
    }

    /// The machine after it has handled `event`, the chained `Dispense`
    /// included.
    pub open spec fn after(self, event: Event) -> MachineView {
        if self.chains_dispense(event) {
            self.apply(event).apply(Event::Dispense)
        } else {
            self.apply(event)
        }
    }

    /// What the machine says while it handles `event`: the message of the
    /// event, then that of the chained `Dispense` where there is one.
    pub open spec fn reply(self, event: Event) -> Seq<char> {
        if self.chains_dispense(event) {
            message(self.state, event, self.inventory) + message(
                self.apply(event).state,
                Event::Dispense,
                self.apply(event).inventory,
            )
        } else {
            message(self.state, event, self.inventory)
        }
    }

    /// The machine after it has handled a series of events, first to last.
    pub open spec fn after_all(self, events: Seq<Event>) -> MachineView
        decreases events.len(),
    {
        if events.len() == 0 {
            self
        } else {
            self.after_all(events.drop_last()).after(events.last())
        }
    }

    /// The summary line of a machine: the name of its state, a colon, a
    /// space, and its inventory in decimal.
    pub open spec fn display(self) -> Seq<char> {
        self.state.name_text() + ": "@ + decimal(self.inventory)
    }
}

/// A machine fresh from the factory with `inventory` gumballs.
pub open spec fn initial(inventory: nat) -> MachineView {
    MachineView {
        state: if inventory > 0 {
            State::NoQuarter
        } else {
            State::SoldOut
        },
        inventory,
    }
}

/// The gumball machine: the owner of the current state and of the inventory,
/// and the only one to change them.
pub struct GumballMachine {
    state: State,
    count: usize,
}

impl View for GumballMachine {
    type V = MachineView;

    closed spec fn view(&self) -> MachineView {
        MachineView { state: self.state, inventory: self.count as nat }
    }
}

impl GumballMachine {
    #[verifier::type_invariant]
    spec fn resting(self) -> bool {
        self@.wf()
    }

    /// A machine stocked with `number_gumballs` gumballs.
    pub fn new(number_gumballs: usize) -> (machine: Self)
        ensures
            machine@ == initial(number_gumballs as nat),
            machine@.wf(),
    {
        let state = if number_gumballs > 0 {
            State::NoQuarter
        } else {
            State::SoldOut
        };
        GumballMachine { state, count: number_gumballs }
    }

    /// Handles one event: asks the transition function, applies what it
    /// returns and, where a crank started a sale, handles `Dispense` before it
    /// returns. The result is what the machine said meanwhile.
    fn handle(&mut self, event: Event) -> (said: String)
        ensures
            final(self)@ == old(self)@.after(event),
            said@ == old(self)@.reply(event),
            old(self)@.wf(),
            final(self)@.wf(),
    {
        proof {
            use_type_invariant(&*self);
        }
        let first = transition(self.state, event, self.count);
        let mut state = first.next_state;
        let mut count: usize = if first.inventory_delta < 0 {
            self.count - 1
        } else {
            self.count
        };
        let mut said = first.message;
        let chained = match event {
            Event::TurnCrank => self.state.accepts(event),
            _ => false,
        };
        if chained {
            let second = transition(state, Event::Dispense, count);
            state = second.next_state;
            if second.inventory_delta < 0 {
                count = count - 1;
            }
            said.append(second.message.as_str());
        }
        *self = GumballMachine { state, count };
        said
    }

    /// Offers a quarter to the machine.
    pub fn insert_quarter(&mut self) -> (said: String)
        ensures
            final(self)@ == old(self)@.after(Event::InsertQuarter),
            said@ == old(self)@.reply(Event::InsertQuarter),
            old(self)@.wf(),
            final(self)@.wf(),
    {
        self.handle(Event::InsertQuarter)
    }

    /// Asks the quarter back.
    pub fn eject_quarter(&mut self) -> (said: String)
        ensures
            final(self)@ == old(self)@.after(Event::EjectQuarter),
            said@ == old(self)@.reply(Event::EjectQuarter),
            old(self)@.wf(),
            final(self)@.wf(),
    {
        self.handle(Event::EjectQuarter)
    }

    /// Turns the crank. Where the machine holds a quarter, a gumball is
    /// dispensed within the same call.
    pub fn turn_crank(&mut self) -> (said: String)
        ensures
            final(self)@ == old(self)@.after(Event::TurnCrank),
            said@ == old(self)@.reply(Event::TurnCrank),
            old(self)@.wf(),
            final(self)@.wf(),
    {
        self.handle(Event::TurnCrank)
    }

    /// The current state.
    pub fn state(&self) -> (state: State)
        ensures
            state == self@.state,
            self@.wf(),
    {
        proof {
            use_type_invariant(self);
        }
        self.state
    }

    /// The number of gumballs in stock.
    pub fn inventory(&self) -> (count: usize)
        ensures
            count == self@.inventory,
            self@.wf(),
    {
        proof {
            use_type_invariant(self);
        }
        self.count
    }

    /// The display name of the current state.
    pub fn state_name(&self) -> (name: String)
        ensures
            name@ == self@.state.name_text(),
    {
        self.state.name()
    }

    /// The summary line of the machine.
    pub fn display(&self) -> (line: String)
        ensures
            line@ == self@.display(),
    {
        let mut line = self.state.name();
        line.append(": ");
        let count = decimal_string(self.count);
        line.append(count.as_str());
        line
    }
}

/// However the table is entered, what it takes from the inventory is there
/// to be taken: the inventory never falls below zero.
pub proof fn lemma_inventory_never_negative(machine: MachineView, event: Event)
    ensures
        machine.inventory + inventory_delta(machine.state, event, machine.inventory) >= 0,
        machine.apply(event).inventory == machine.inventory + inventory_delta(
            machine.state,
            event,
            machine.inventory,
        ),
{
}

/// A rejected event changes neither the state nor the inventory.
pub proof fn lemma_rejected_event_changes_nothing(machine: MachineView, event: Event)
    requires
        !accepts(machine.state, event),
    ensures
        next_state(machine.state, event, machine.inventory) == machine.state,
        inventory_delta(machine.state, event, machine.inventory) == 0,
        machine.apply(event) == machine,
{
}

/// A `Dispense` that is accepted takes exactly one unit from a stocked
/// machine, and leaves the machine sold out exactly when that unit was the
/// last.
pub proof fn lemma_dispense_releases_one(inventory: nat)
    requires
        inventory > 0,
    ensures
        inventory_delta(State::Sold, Event::Dispense, inventory) == -1,
        next_state(State::Sold, Event::Dispense, inventory) == State::SoldOut <==> inventory == 1,
        next_state(State::Sold, Event::Dispense, inventory) == State::NoQuarter <==> inventory > 1,
{
}

/// A new machine rests: it is sold out exactly when it was stocked with
/// nothing.
pub proof fn lemma_initial_rests(inventory: nat)
    ensures
        initial(inventory).wf(),
{
}

/// Whatever event a resting machine handles, it rests again afterwards: it is
/// sold out if and only if its inventory is empty, and never left in the
/// middle of a sale.
pub proof fn lemma_handling_keeps_resting(machine: MachineView, event: Event)
    requires
        machine.wf(),
    ensures
        machine.after(event).wf(),
{
}

/// No event adds to the inventory: there is no refill.
pub proof fn lemma_inventory_never_grows(machine: MachineView, event: Event)
    ensures
        machine.after(event).inventory <= machine.inventory,
{
}

/// Every machine that can be reached rests: whatever a new machine has
/// handled since it was made, it is sold out if and only if its inventory is
/// empty, it is not in the middle of a sale, and it holds no more than it was
/// stocked with.
pub proof fn lemma_reachable_machines_rest(inventory: nat, events: Seq<Event>)
    ensures
        initial(inventory).after_all(events).wf(),
        initial(inventory).after_all(events).inventory <= inventory,
    decreases events.len(),
{
    if events.len() > 0 {
        lemma_reachable_machines_rest(inventory, events.drop_last());
        let before = initial(inventory).after_all(events.drop_last());
        lemma_handling_keeps_resting(before, events.last());
        lemma_inventory_never_grows(before, events.last());
    }
}

/// Once sold out, a machine stays as it is whatever it is asked to handle.
pub proof fn lemma_sold_out_is_absorbing(machine: MachineView, event: Event)
    requires
        machine.wf(),
        machine.state == State::SoldOut,
    ensures
        machine.after(event) == machine,
{
}

/// The inventory of a resting machine changes on one occasion only: a crank
/// turned while the machine holds a quarter takes exactly one unit. Every
/// other event leaves it as it is.
pub proof fn lemma_inventory_changes_by_sale_only(machine: MachineView, event: Event)
    requires
        machine.wf(),
    ensures
        machine.state == State::HasQuarter && event == Event::TurnCrank
            ==> machine.after(event).inventory == machine.inventory - 1,
        !(machine.state == State::HasQuarter && event == Event::TurnCrank)
            ==> machine.after(event).inventory == machine.inventory,
{
}

/// Turning the crank changes the inventory only where the machine holds a
/// quarter.
pub proof fn lemma_crank_needs_quarter(machine: MachineView)
    requires
        machine.state != State::HasQuarter,
    ensures
        machine.after(Event::TurnCrank) == machine,
{
}

/// A rejected event may be repeated at will: each time the machine stays as
/// it is and gives the same answer.
pub proof fn lemma_rejected_event_repeats(machine: MachineView, event: Event)
    requires
        !accepts(machine.state, event),
    ensures
        machine.after(event) == machine,
        machine.after(event).reply(event) == machine.reply(event),
        machine.reply(event) == message(machine.state, event, machine.inventory),
{
}

/// A quarter inserted and ejected again leaves a stocked machine waiting for a
/// quarter, with the inventory it had.
pub proof fn lemma_insert_then_eject(machine: MachineView)
    requires
        machine.wf(),
        machine.state != State::SoldOut,
    ensures
        machine.after(Event::InsertQuarter).after(Event::EjectQuarter).state == State::NoQuarter,
        machine.after(Event::InsertQuarter).after(Event::EjectQuarter).inventory
            == machine.inventory,
{
}

/// A sale ends where the stock says: with the last gumball gone the machine
/// is sold out, with gumballs left it waits for the next quarter.
pub proof fn lemma_sale(machine: MachineView)
    requires
        machine.wf(),
        machine.state == State::HasQuarter,
    ensures
        machine.after(Event::TurnCrank).inventory == machine.inventory - 1,
        machine.inventory == 1 ==> machine.after(Event::TurnCrank).state == State::SoldOut,
        machine.inventory > 1 ==> machine.after(Event::TurnCrank).state == State::NoQuarter,
        machine.reply(Event::TurnCrank) == message(State::HasQuarter, Event::TurnCrank, machine.inventory)
            + message(State::Sold, Event::Dispense, machine.inventory),
{
}

} // verus!
