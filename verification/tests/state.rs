use design_patterns::state::{transition, Event, GumballMachine, State};

#[test]
fn test_state() {
    let mut gumball_machine = GumballMachine::new(5);
    println!("{}", gumball_machine.display());
    assert_eq!(gumball_machine.display(), "NoQuarterState: 5");

    let said = gumball_machine.insert_quarter();
    println!("{}", said);
    println!("{}", gumball_machine.display());
    assert_eq!(said, "You inserted a quarter\n");
    assert_eq!(gumball_machine.display(), "HasQuarterState: 5");
}

#[test]
fn five_gumballs_one_sale() {
    let mut machine = GumballMachine::new(5);
    assert_eq!(machine.state(), State::NoQuarter);
    assert_eq!(machine.inventory(), 5);
    assert_eq!(machine.insert_quarter(), "You inserted a quarter\n");
    assert_eq!(machine.state(), State::HasQuarter);
    assert_eq!(machine.inventory(), 5);
    assert_eq!(
        machine.turn_crank(),
        "You turned...\nA gumball comes rolling out the slot...\n"
    );
    assert_eq!(machine.state(), State::NoQuarter);
    assert_eq!(machine.inventory(), 4);
}

#[test]
fn last_gumball_sells_out() {
    let mut machine = GumballMachine::new(1);
    assert_eq!(machine.state(), State::NoQuarter);
    assert_eq!(machine.inventory(), 1);
    machine.insert_quarter();
    assert_eq!(
        machine.turn_crank(),
        "You turned...\nA gumball comes rolling out the slot...\nOops, out of gumballs!\n"
    );
    assert_eq!(machine.state(), State::SoldOut);
    assert_eq!(machine.inventory(), 0);
}

#[test]
fn empty_machine_starts_sold_out() {
    let mut machine = GumballMachine::new(0);
    assert_eq!(machine.state(), State::SoldOut);
    assert_eq!(machine.inventory(), 0);
    assert_eq!(
        machine.insert_quarter(),
        "You can't insert quarter, the machine is sold out\n"
    );
    assert_eq!(machine.state(), State::SoldOut);
    assert_eq!(machine.inventory(), 0);
    assert!(!State::SoldOut.accepts(Event::InsertQuarter));
}

#[test]
fn two_gumballs_two_sales() {
    let mut machine = GumballMachine::new(2);
    machine.insert_quarter();
    machine.turn_crank();
    assert_eq!(machine.state(), State::NoQuarter);
    assert_eq!(machine.inventory(), 1);
    machine.insert_quarter();
    machine.turn_crank();
    assert_eq!(machine.state(), State::SoldOut);
    assert_eq!(machine.inventory(), 0);
    assert_eq!(
        machine.insert_quarter(),
        "You can't insert quarter, the machine is sold out\n"
    );
    assert_eq!(machine.state(), State::SoldOut);
    assert_eq!(machine.inventory(), 0);
}

#[test]
fn crank_without_quarter_is_rejected() {
    let mut machine = GumballMachine::new(3);
    assert_eq!(machine.turn_crank(), "You turned, but there's no quarter\n");
    assert_eq!(machine.state(), State::NoQuarter);
    assert_eq!(machine.inventory(), 3);
    assert!(!State::NoQuarter.accepts(Event::TurnCrank));
}

#[test]
fn rejected_event_repeats() {
    let mut machine = GumballMachine::new(3);
    let first = machine.eject_quarter();
    let second = machine.eject_quarter();
    assert_eq!(first, "You have't inserted a quarter\n");
    assert_eq!(first, second);
    assert_eq!(machine.state(), State::NoQuarter);
    assert_eq!(machine.inventory(), 3);

    machine.insert_quarter();
    let first = machine.insert_quarter();
    let second = machine.insert_quarter();
    assert_eq!(first, "You cant't insert another quarter\n");
    assert_eq!(first, second);
    assert_eq!(machine.state(), State::HasQuarter);
    assert_eq!(machine.inventory(), 3);
}

#[test]
fn insert_then_eject_changes_nothing() {
    let mut machine = GumballMachine::new(4);
    machine.insert_quarter();
    assert_eq!(machine.eject_quarter(), "Quarter returned\n");
    assert_eq!(machine.state(), State::NoQuarter);
    assert_eq!(machine.inventory(), 4);
}

#[test]
fn sold_out_is_absorbing() {
    let mut machine = GumballMachine::new(0);
    assert_eq!(
        machine.eject_quarter(),
        "You can't eject, you haven't inserted a quarter yet\n"
    );
    assert_eq!(machine.turn_crank(), "You turned, but there are no gumballs\n");
    assert_eq!(machine.state(), State::SoldOut);
    assert_eq!(machine.inventory(), 0);
}

#[test]
fn sold_out_exactly_when_empty() {
    let mut machine = GumballMachine::new(3);
    for sold in 1..=3usize {
        assert_ne!(machine.state(), State::SoldOut);
        machine.insert_quarter();
        machine.turn_crank();
        assert_eq!(machine.inventory(), 3 - sold);
        assert_eq!(machine.state() == State::SoldOut, machine.inventory() == 0);
    }
    assert_eq!(machine.state(), State::SoldOut);
}

#[test]
fn dispense_outside_a_sale_is_rejected() {
    let t = transition(State::NoQuarter, Event::Dispense, 2);
    assert_eq!((t.next_state, t.inventory_delta), (State::NoQuarter, 0));
    assert_eq!(t.message, "You need to pay first\n");
    let t = transition(State::HasQuarter, Event::Dispense, 2);
    assert_eq!((t.next_state, t.inventory_delta), (State::HasQuarter, 0));
    assert_eq!(t.message, "No gumball dispensed\n");
    let t = transition(State::SoldOut, Event::Dispense, 0);
    assert_eq!((t.next_state, t.inventory_delta), (State::SoldOut, 0));
    assert_eq!(t.message, "No gumball dispensed\n");
}

#[test]
fn transition_table_accepted_entries() {
    let t = transition(State::NoQuarter, Event::InsertQuarter, 2);
    assert_eq!((t.next_state, t.inventory_delta), (State::HasQuarter, 0));
    let t = transition(State::HasQuarter, Event::EjectQuarter, 2);
    assert_eq!((t.next_state, t.inventory_delta), (State::NoQuarter, 0));
    let t = transition(State::HasQuarter, Event::TurnCrank, 2);
    assert_eq!((t.next_state, t.inventory_delta), (State::Sold, 0));
    assert_eq!(t.message, "You turned...\n");
    let t = transition(State::Sold, Event::Dispense, 2);
    assert_eq!((t.next_state, t.inventory_delta), (State::NoQuarter, -1));
    assert_eq!(t.message, "A gumball comes rolling out the slot...\n");
    let t = transition(State::Sold, Event::Dispense, 1);
    assert_eq!((t.next_state, t.inventory_delta), (State::SoldOut, -1));
    assert_eq!(
        t.message,
        "A gumball comes rolling out the slot...\nOops, out of gumballs!\n"
    );
}

#[test]
fn transition_table_rejected_entries() {
    let states = [State::NoQuarter, State::HasQuarter, State::Sold, State::SoldOut];
    let events = [
        Event::InsertQuarter,
        Event::EjectQuarter,
        Event::TurnCrank,
        Event::Dispense,
    ];
    let mut rejected = 0;
    for state in states {
        for event in events {
            if !state.accepts(event) {
                let t = transition(state, event, 3);
                assert_eq!(t.next_state, state);
                assert_eq!(t.inventory_delta, 0);
                assert!(!t.message.is_empty());
                rejected += 1;
            }
        }
    }
    assert_eq!(rejected, 12);
    assert_eq!(
        transition(State::Sold, Event::InsertQuarter, 3).message,
        "Please wait, we're already giving you gumball\n"
    );
    assert_eq!(
        transition(State::Sold, Event::EjectQuarter, 3).message,
        "Sorry, you already turned the crank\n"
    );
    assert_eq!(
        transition(State::Sold, Event::TurnCrank, 3).message,
        "Turning twice doesn't get you another gumball\n"
    );
}

#[test]
fn empty_machine_has_nothing_to_release() {
    let t = transition(State::Sold, Event::Dispense, 0);
    assert_eq!((t.next_state, t.inventory_delta), (State::SoldOut, 0));
}

#[test]
fn state_names_and_display() {
    assert_eq!(State::NoQuarter.name(), "NoQuarterState");
    assert_eq!(State::HasQuarter.name(), "HasQuarterState");
    assert_eq!(State::Sold.name(), "SoldState");
    assert_eq!(State::SoldOut.name(), "SoldOutState");
    assert_eq!(GumballMachine::new(0).display(), "SoldOutState: 0");
    assert_eq!(GumballMachine::new(120).display(), "NoQuarterState: 120");
    assert_eq!(GumballMachine::new(7).state_name(), "NoQuarterState");
}
