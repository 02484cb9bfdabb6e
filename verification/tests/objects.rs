use rust_book::objects::{
    compile_time_trait_usage, holding_a_vector_of_pets_requires_dynamic_dispatch, polymorphism,
    runtime_trait_usage_dynamic_dispatch, use_the_above_functions, AnyPet, Cat, Dog, Encapsulated,
    HasImplementation, HelloBot, InvalidValue, NotEncapsulated, Pet,
};

#[test]
fn encapsulated_accepts_what_is_greater_than_minus_one() {
    assert_eq!(Encapsulated::new(0).ok().unwrap().value(), 0);
    assert_eq!(Encapsulated::new(i32::MAX).ok().unwrap().value(), i32::MAX);
    assert_eq!(Encapsulated::new(-1).err(), Some(InvalidValue { received: -1 }));
    assert_eq!(Encapsulated::new(i32::MIN).err(), Some(InvalidValue { received: i32::MIN }));
    assert!(Encapsulated::validate(0).is_ok());
    assert_eq!(Encapsulated::validate(-7), Err(InvalidValue { received: -7 }));
}

#[test]
fn the_error_says_what_was_received() {
    assert_eq!(
        Encapsulated::new(-1).err().unwrap().to_string(),
        "The value needs to be greater than -1, received '-1'"
    );
    assert_eq!(
        InvalidValue { received: -2147483648 }.to_string(),
        "The value needs to be greater than -1, received '-2147483648'"
    );
}

#[test]
fn a_refused_value_leaves_the_old_one() {
    let mut e = Encapsulated::new(3).ok().unwrap();
    assert_eq!(e.set_value(-5), Err(InvalidValue { received: -5 }));
    assert_eq!(e.value(), 3);
    assert_eq!(e.set_value(8), Ok(()));
    assert_eq!(e.value(), 8);
    assert_eq!(e.set_value(0), Ok(()));
    assert_eq!(e.value(), 0);
    let mut open = NotEncapsulated { public_data: 1 };
    open.public_data = -1;
    assert_eq!(open.public_data, -1);
}

#[test]
fn a_provided_method_is_shared() {
    assert_eq!(HelloBot::say_hello(), "Hello");
    assert_eq!(polymorphism(), "Hello");
}

#[test]
fn pets_dispatch_at_build_time_and_at_run_time() {
    assert_eq!(Cat.live(), "Cat");
    assert_eq!(Dog.live(), "Dog");
    assert_eq!(compile_time_trait_usage(Dog), "Dog");
    let cat: Box<dyn Pet> = Box::new(Cat);
    assert_eq!(runtime_trait_usage_dynamic_dispatch(&cat), "Cat");
    assert_eq!(use_the_above_functions(), ("Cat", "Dog"));
    let pets = holding_a_vector_of_pets_requires_dynamic_dispatch();
    let kinds: Vec<&str> = pets.iter().map(|pet| pet.0.live()).collect();
    assert_eq!(kinds, vec!["Cat", "Dog"]);
    assert_eq!(AnyPet::cat().0.live(), "Cat");
    assert_eq!(AnyPet::dog().0.live(), "Dog");
}
