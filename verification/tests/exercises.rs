use lazyseq::associated_function::TrafficLight;
use lazyseq::borrowing::calculate_length;
use lazyseq::closures::apply;
use lazyseq::closures::apply_to_3;
use lazyseq::dynamic_dispatch::random_animal;
use lazyseq::dynamic_dispatch::Animal;
use lazyseq::enums::move_coordinates;
use lazyseq::enums::Message;
use lazyseq::flow_control::loop_example;
use lazyseq::from_into_conversion::EvenNum;
use lazyseq::from_into_conversion::Number;
use lazyseq::generics::sum;
use lazyseq::generics::Point2;
use lazyseq::generics::Val;
use lazyseq::iterators::example_iterators_08;
use lazyseq::iterators::example_iterators_10;
use lazyseq::iterators::Counter;
use lazyseq::iterators::Iterator as LazyIterator;
use lazyseq::lifetimes::coerce_static;
use lazyseq::lifetimes::longest;
use lazyseq::lifetimes::valid_output;
use lazyseq::lifetimes::Owner;
use lazyseq::methods::Rectangle;
use lazyseq::methods::TrafficLightColorEnum;
use lazyseq::pattern_match::match_example_4;
use lazyseq::pattern_match::pattern_match_example;
use lazyseq::pattern_match::IdBand;
use lazyseq::pattern_match::Message as HelloMessage;
use lazyseq::pattern_match::Coin;
use lazyseq::structs::build_user;
use lazyseq::trait_object::return_animal;
use lazyseq::trait_object::reuturn_animal_2;
use lazyseq::trait_object::ActionsKind;
use lazyseq::trait_object::Animal2Kind;
use lazyseq::trait_object::Bird;
use lazyseq::trait_object::Duck;
use lazyseq::trait_object::Swan;
use lazyseq::traits::multiply;
use lazyseq::traits::my_function;
use lazyseq::traits::notify;
use lazyseq::traits::Cow;
use lazyseq::traits::Hello;
use lazyseq::traits::Student;
use lazyseq::traits::Teacher;
use lazyseq::tuples::sum_multiply;
use lazyseq::tuples::tuple_structs;

#[test]
fn traffic_light_states() {
    let light = TrafficLight::new();
    assert_eq!(light.get_state(), "red");

    let mut light2 = lazyseq::methods::TrafficLight {
        color: String::from("red"),
    };
    light2.change_state();
    assert_eq!(light2.color, "green");
}

#[test]
fn traffic_light_colors() {
    assert_eq!(TrafficLightColorEnum::Red.color(), "red");
    assert_eq!(TrafficLightColorEnum::Yellow.color(), "yellow");
    assert_eq!(TrafficLightColorEnum::Green.color(), "green");
}

#[test]
fn rectangle_area() {
    let rect = Rectangle {
        width: 30,
        height: 50,
    };
    assert_eq!(rect.area(), 1500);
}

#[test]
fn coin_values() {
    assert_eq!(pattern_match_example(Coin::Penny), 1);
    assert_eq!(pattern_match_example(Coin::Nickel), 5);
    assert_eq!(pattern_match_example(Coin::Dime), 10);
    assert_eq!(pattern_match_example(Coin::Quarter), 25);
}

#[test]
fn animals_by_number() {
    assert_eq!(random_animal(5).noise(), "Meow");
    assert_eq!(random_animal(9).noise(), "Meow");
    assert_eq!(random_animal(10).noise(), "woff");
    assert!(matches!(random_animal(0), Animal::Cat));
}

#[test]
fn animals_by_name() {
    match return_animal("dog") {
        ActionsKind::Dog(d) => {
            assert_eq!(d.info.name, "Dog");
            assert_eq!(d.info.age, 5);
        }
        ActionsKind::Cat(_) => panic!("expected the dog"),
    }
    match return_animal("cat") {
        ActionsKind::Cat(c) => {
            assert_eq!(c.info.name, "Cat");
            assert_eq!(c.info.age, 3);
        }
        ActionsKind::Dog(_) => panic!("expected the cat"),
    }
    assert!(matches!(reuturn_animal_2("dog"), Animal2Kind::Dog(_)));
    assert!(matches!(reuturn_animal_2("cat"), Animal2Kind::Cat(_)));
}

#[test]
fn birds_quack() {
    assert_eq!(Duck.quack(), "duck duck");
    assert_eq!(Swan.quack(), "swan swan");
    assert_eq!(Duck.fly(), "Look, the duck is flying!");
    assert_eq!(Swan.fly(), "Look, the duck... oh sorry, the swan is flying!");
}

#[test]
fn greetings() {
    assert_eq!(Student.say_hi(), "hi");
    assert_eq!(Student.say_something(), "I am a good student");
    assert_eq!(Teacher.say_hi(), "Hi, I'm your new teacher");
    assert_eq!(Teacher.say_something(), "I'm not a bad teacher");
}

#[test]
fn trait_sounds() {
    assert_eq!(notify(&Cow), "Breaking news! Moo");
    assert_eq!(
        lazyseq::traits::sound(&lazyseq::traits::Sheep, &Cow),
        "Animals sounds! Baa and Moo"
    );
    assert_eq!(
        lazyseq::traits::soudn(&lazyseq::traits::Sheep, &lazyseq::traits::Sheep),
        "Animals sounds! Baa and Baa"
    );
    assert_eq!(lazyseq::traits::Animal::sound(&lazyseq::traits::return_dog()), "Woof");
    assert_eq!(lazyseq::traits::Animal::sound(&lazyseq::traits::return_cat()), "Meow");
    assert_eq!(my_function(7u32), 42);
    assert_eq!(my_function(String::from("echo")), "echo");
    assert_eq!(lazyseq::traits::some_function(&1, &2), 0);
    assert_eq!(lazyseq::traits::some_function_where_clause(&1, &2), 0);
}

#[test]
fn summaries() {
    let post = lazyseq::traits::Post {
        title: String::from("A"),
        author: String::from("B"),
        content: String::from("C"),
    };
    assert_eq!(
        lazyseq::traits::Summary::summarize(&post),
        "The author of post A is B"
    );
    assert_eq!(
        lazyseq::traits::notify_parameters(&post),
        "Breaking news! The author of post A is B"
    );

    let weibo = lazyseq::traits::Weibo {
        username: String::from("sunface"),
        content: String::from("hot"),
    };
    assert_eq!(
        lazyseq::traits::Summary::summarize(&weibo),
        "sunface published a weibo hot"
    );
}

#[test]
fn arithmetic_helpers() {
    assert_eq!(sum(1, 2), 3);
    assert_eq!(multiply(6, 7), 42);
    assert_eq!(sum_multiply((2, 3)), (5, 6));
}

#[test]
fn generic_points() {
    let p1 = Point2 { x: 5, y: 10.0 };
    let p2 = Point2 { x: "Point", y: '#' };
    let mixed = Point2::mixup_associated(&p1, &p2);
    assert_eq!(mixed.x, 5);
    assert_eq!(mixed.y, '#');

    let mixed2 = p1.mixup(p2);
    assert_eq!(mixed2.x, 5);
    assert_eq!(mixed2.y, '#');

    let v = Val { val: 11 };
    assert_eq!(*v.value(), 11);
}

#[test]
fn counter_counts_to_five() {
    let mut counter = Counter::new();
    for expected in 1..=5 {
        assert_eq!(counter.next(), Some(expected));
    }
    assert_eq!(counter.next(), None);
    assert_eq!(counter.next(), None);
}

#[test]
fn vector_passes() {
    let doubled = example_iterators_10(&vec![1, 2, 3]);
    assert_eq!(doubled, vec![2, 3, 4]);

    let total = example_iterators_08(&vec![1u8, 2, 3]);
    assert_eq!(total, 6);
}

#[test]
fn lifetimes_exercises() {
    assert_eq!(longest("long", "longer"), "longer");
    // Byte lengths decide, as with str::len: two 2-byte characters beat
    // three 1-byte ones.
    assert_eq!(longest("\u{e9}\u{e9}", "abc"), "\u{e9}\u{e9}");
    assert_eq!(valid_output(), "foo");
    assert_eq!(*coerce_static(&5), 18);

    let mut owner = Owner(18);
    owner.add_one();
    assert_eq!(owner.0, 19);

    let mut owner1 = lazyseq::lifetimes::Owner1(3);
    owner1.add_one();
    owner1.add_one_elided();
    assert_eq!(owner1.0, 5);

    let excerpt = lazyseq::lifetimes::ImportantExcerpt { part: "call me" };
    assert_eq!(excerpt.level(), 3);
    assert_eq!(excerpt.part, "call me");

    assert_eq!(lazyseq::lifetimes::first_word("abc"), "abc");
    assert_eq!(lazyseq::lifetimes::first_word_2("abc"), "abc");
    assert_eq!(lazyseq::lifetimes::first_word_3("abc"), "abc");
    assert_eq!(lazyseq::lifetimes::longest_3("aa", "b"), "aa");
    assert_eq!(lazyseq::lifetimes::logest("aa", "b"), "aa");
    assert_eq!(*lazyseq::lifetimes::pass(&4), 4);
    assert_eq!(*lazyseq::lifetimes::pass_elided(&4), 4);
    lazyseq::lifetimes::need_static("hello");
    lazyseq::lifetimes::example_dangling_reference_01();
    lazyseq::lifetimes::example_static_lifetime_01();
    lazyseq::lifetimes::example_lifetime_annotating_04();
}

#[test]
fn loops_land_on_exact_counts() {
    assert_eq!(loop_example(), 20);
    lazyseq::flow_control::nested_loops_example();
    lazyseq::flow_control::continue_break_loop_example();
}

#[test]
fn users_and_structs() {
    let user = build_user(String::from("a@b.c"), String::from("ab"));
    assert!(user.active);
    assert_eq!(user.username, "ab");
    assert_eq!(user.email, "a@b.c");
    assert_eq!(user.sign_in_count, 1);
}

#[test]
fn conversions() {
    let num = Number::from(30);
    assert_eq!(num.value, 30);
    let num2: Number = 30i32.into();
    assert_eq!(num2.value, 30);

    assert_eq!(EvenNum::try_from(8), Ok(EvenNum(8)));
    assert_eq!(EvenNum::try_from(5), Err(()));
}

#[test]
fn id_bands() {
    assert_eq!(match_example_4(&HelloMessage::Hello { id: 5 }), IdBand::LowRange);
    assert_eq!(match_example_4(&HelloMessage::Hello { id: 3 }), IdBand::LowRange);
    assert_eq!(match_example_4(&HelloMessage::Hello { id: 7 }), IdBand::LowRange);
    assert_eq!(match_example_4(&HelloMessage::Hello { id: 11 }), IdBand::ListedTrio);
    assert_eq!(match_example_4(&HelloMessage::Hello { id: 8 }), IdBand::Other);
    assert_eq!(match_example_4(&HelloMessage::Hello { id: -2 }), IdBand::Other);
}

#[test]
fn messages() {
    let m = Message::Move { x: 10, y: 20 };
    assert_eq!(move_coordinates(&m), Some((10, 20)));
    assert_eq!(move_coordinates(&Message::Quit), None);
}

#[test]
fn closures_apply() {
    assert_eq!(apply(|x| x + 1), 4);
    assert_eq!(apply_to_3(|x| 2 * x), 6);
    lazyseq::closures::apply_1(|| {});
    lazyseq::closures::take(&7);

    let (on_three, on_four) = lazyseq::closures::fn_once_caller(|z| z == 3);
    assert!(on_three);
    assert!(!on_four);

    let add_five = lazyseq::closures::create_fn();
    assert_eq!(add_five(1), 6);
}

#[test]
fn borrowed_length() {
    let s = String::from("hello");
    assert_eq!(calculate_length(&s), 5);
    assert_eq!(s, "hello");

    // The count is in encoded bytes, not characters.
    let t = String::from("\u{e9}\u{e9}");
    assert_eq!(calculate_length(&t), 4);
}

#[test]
fn tuple_struct_values() {
    let (black, origin) = tuple_structs();
    assert_eq!((black.0, black.1, black.2), (0, 0, 0));
    assert_eq!((origin.0, origin.1, origin.2), (0, 0, 0));
}

#[test]
fn exercises_run() {
    lazyseq::ownership::ownership_vs_functions_2();
    lazyseq::tuples::tuples_01();
    lazyseq::tuples::tuples_02();
    lazyseq::tuples::long_tuples();
    lazyseq::tuples::destructuring_tuples();
    lazyseq::tuples::destructuring_assignments();
    lazyseq::tuples::tuples_as_function_arguments();
    lazyseq::pattern_match::matches_example();
    lazyseq::pattern_match::matches_example_2();
    lazyseq::pattern_match::match_guard_example();
    lazyseq::pattern_match::match_ignoring_remaining_parts();
    lazyseq::enums::enum_test();
    lazyseq::enums::enum_test2();
    lazyseq::slices::example_slice_01();
    lazyseq::slices::example_slice_03();
    lazyseq::vectors::vectors_exercise_1();
    lazyseq::vectors::vectors_exercise_2();
    lazyseq::vectors::vectors_exercise_4();
    lazyseq::vectors::vectors_exercise_5();
    lazyseq::iterators::example_iterators_01_3();
    lazyseq::iterators::example_iterators_06();
    lazyseq::iterators::example_iterators_07();
    lazyseq::hashmap::hashmap_exercise_1();
    lazyseq::hashmap::hashmap_exercise_2();
    lazyseq::structs::struct_test();
    lazyseq::structs::struct_update_syntax();
    lazyseq::debug_display::example_debug_01();
    lazyseq::borrowing::test_borrowing();
    lazyseq::closures::example_closures_01();
    lazyseq::closures::example_closures_03();
    lazyseq::closures::example_closures_04();
    lazyseq::closures::example_closures_06();
    lazyseq::closures::example_closures_08();
    lazyseq::closures::example_closures_09();
    lazyseq::lifetimes::example_static_lifetime_02();
    lazyseq::from_into_conversion::test_from_into();
    lazyseq::from_into_conversion::converting_string_slice_into_string();
    lazyseq::from_into_conversion::from_into_exercise_04();
}

#[test]
fn viking_fields() {
    let viking = lazyseq::hashmap::Viking::new("Einar", "Norway");
    assert_eq!(viking.name, "Einar");
    assert_eq!(viking.country, "Norway");
}
