use design_patterns::adapter::{Duck, MallardDuck, Turkey, TurkeyAdapter, WildTurkey};

fn test_duct<D: Duck>(duck: D) -> String {
    let mut said = duck.quack();
    said.push_str(&duck.fly());
    said
}

#[test]
fn teset_turkey_adapter() {
    let duck = MallardDuck {};
    let turkey = WildTurkey {};
    let turkey_adapter = TurkeyAdapter {
        turkey: WildTurkey {},
    };

    println!("The Turkey says...");
    println!("{}", turkey.gobble());
    println!("{}", turkey.fly());

    println!("\nThe Duck says...");
    println!("{}", test_duct(duck));

    println!("\nThe TurkeyAdapter says...");
    println!("{}", test_duct(turkey_adapter));
}

#[test]
fn adapter_gobbles_and_flies_five_times() {
    let turkey = WildTurkey {};
    assert_eq!(turkey.gobble(), "Gobble gobble\n");
    assert_eq!(turkey.fly(), "I'm flying a short distance\n");
    assert_eq!(test_duct(MallardDuck {}), "Quack\nI'm flying\n");
    let adapter = TurkeyAdapter { turkey };
    assert_eq!(adapter.quack(), "Gobble gobble\n");
    assert_eq!(adapter.fly(), "I'm flying a short distance\n".repeat(5));
}
