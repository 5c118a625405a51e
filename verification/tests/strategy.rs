use design_patterns::strategy::{
    Duck, Flight, FlyBehavior, FlyNoWay, FlyRocketPowered, FlyWithWings, MallardDuck, ModelDuck,
    MuteQuack, Quack, QuackBehavior, Squeak, Voice,
};

#[test]
fn test_mallard_duck() {
    let mallard = MallardDuck::new();
    println!("{}", mallard.perform_quack());
    println!("{}", mallard.perform_fly());
    println!("\n");

    let mut model = ModelDuck::new();
    println!("{}", model.perform_fly());
    let r = Flight::RocketPowered(FlyRocketPowered);
    model.set_fly_behavior(r);
    println!("{}", model.perform_fly());
}

#[test]
fn ducks_perform_through_their_behaviours() {
    let mallard = MallardDuck::new();
    assert_eq!(mallard.display(), "I'm a real Mallard duck\n");
    assert_eq!(mallard.perform_quack(), "Quack\n");
    assert_eq!(mallard.perform_fly(), "I'm flying\n");
    assert_eq!(mallard.swim(), "All ducks float, even decoys!\n");

    let mut model = ModelDuck::new();
    assert_eq!(model.display(), "I'm a Model duck\n");
    assert_eq!(model.perform_fly(), "I can't fly\n");
    model.set_fly_behavior(Flight::RocketPowered(FlyRocketPowered));
    assert_eq!(model.perform_fly(), "I'm flying with a rocket!\n");
    assert_eq!(model.perform_quack(), "Quack\n");
    assert!(matches!(model.fly_behavior(), Flight::RocketPowered(_)));
    assert!(matches!(model.quack_behavior(), Voice::Quack(_)));
}

#[test]
fn behaviours_speak_for_themselves() {
    assert_eq!(FlyWithWings.fly(), "I'm flying\n");
    assert_eq!(FlyNoWay.fly(), "I can't fly\n");
    assert_eq!(FlyRocketPowered.fly(), "I'm flying with a rocket!\n");
    assert_eq!(Quack.quack(), "Quack\n");
    assert_eq!(MuteQuack.quack(), "<< Silence >>\n");
    assert_eq!(Squeak.quack(), "Squeak\n");
    assert_eq!(Voice::Mute(MuteQuack).quack(), "<< Silence >>\n");
    assert_eq!(Voice::Squeak(Squeak).quack(), "Squeak\n");
    assert_eq!(Flight::WithWings(FlyWithWings).fly(), "I'm flying\n");
    assert_eq!(Flight::NoWay(FlyNoWay).fly(), "I can't fly\n");
}
