use workpool::arith::{divide, divide_result, largest, MyError};
use workpool::art::{mix, PrimaryColor, SecondaryColor};
use workpool::birds::{Animal, Bird};
use workpool::boxed::{deref, MyBox};
use workpool::closures::{closures, do_twice, generate_workout, Cacher};
use workpool::coins::{value_in_cents, Coin};
use workpool::demos::macros;
use workpool::rect::Rectangle;
use workpool::restaurant::{cook_order, eat_at_restaurant, fix_incorrect_order};
use workpool::screen::{trait_objects, Button, Draw, Screen};
use workpool::summary::{NewsArticle, Summary, Tweet};
use workpool::text::{greeting, longest};

#[test]
fn mix_always_makes_orange() {
    assert_eq!(mix(PrimaryColor::Red, PrimaryColor::Blue), SecondaryColor::Orange);
    assert_eq!(mix(PrimaryColor::Yellow, PrimaryColor::Yellow), SecondaryColor::Orange);
}

#[test]
fn coin_values() {
    assert_eq!(value_in_cents(Coin::Penny), 1);
    assert_eq!(value_in_cents(Coin::Nickel), 5);
    assert_eq!(value_in_cents(Coin::Dime), 10);
    assert_eq!(value_in_cents(Coin::Quarter), 25);
}

#[test]
fn divide_exact_and_inexact() {
    assert_eq!(divide(4, 2), Some(2));
    assert_eq!(divide(2, 3), None);
    assert!(matches!(divide_result(4, 2), Ok(2)));
    assert!(matches!(divide_result(2, 3), Err(MyError::Error1)));
}

#[test]
fn largest_finds_the_maximum() {
    let number_list = vec![34, 50, 25, 100, 65];
    assert_eq!(largest(&number_list), 100);
    assert_eq!(largest(&[7]), 7);
}

#[test]
fn longest_picks_the_longer_slice() {
    assert_eq!(longest("abcd", "xy"), "abcd");
    assert_eq!(longest("x", "long string is long"), "long string is long");
    assert_eq!(longest("tie", "tie"), "tie");
}

#[test]
fn greeting_is_fixed() {
    assert_eq!(greeting("Carol"), "Hello!");
}

#[test]
fn summarize_article() {
    let article = NewsArticle {
        headline: String::from("Penguins win the Stanley Cup Championship!"),
        location: String::from("Pittsburgh, PA, USA"),
        author: String::from("Iceburgh"),
        content: String::from("The Pittsburgh Penguins once again are the best hockey team in the NHL."),
    };
    assert_eq!(
        article.summarize(),
        "Penguins win the Stanley Cup Championship!, by Iceburgh (Pittsburgh, PA, USA)"
    );
}

#[test]
fn summarize_tweet() {
    let tweet = Tweet {
        username: String::from("horse_ebooks"),
        content: String::from("of course, as you probably already know, people"),
        reply: false,
        retweet: false,
    };
    assert_eq!(tweet.summarize(), "horse_ebooks: of course, as you probably already know, people");
}

#[test]
fn button_draw_describes_itself() {
    let button = Button { width: 50, height: 10, label: String::from("OK") };
    assert_eq!(button.draw(), "Drawing a button with width: 50, height: 10, label: OK");
}

#[test]
fn screen_runs_every_component() {
    let screen = Screen {
        components: vec![
            Button { width: 1, height: 2, label: String::from("a") },
            Button { width: 3, height: 4, label: String::from("b") },
        ],
    };
    let out = screen.run();
    assert_eq!(
        out,
        vec![
            String::from("Drawing a button with width: 1, height: 2, label: a"),
            String::from("Drawing a button with width: 3, height: 4, label: b"),
        ]
    );
}

#[test]
fn trait_objects_draws_two_components() {
    let out = trait_objects();
    assert_eq!(out.len(), 2);
    assert_eq!(out[0], "Drawing a button with width: 75, height: 10, label: Cancel");
    assert_eq!(out[1], "Drawing a button with width: 50, height: 10, label: OK");
}

#[test]
fn cacher_memoizes() {
    let mut cacher = Cacher::new(|n: u32| n + 1);
    assert_eq!(cacher.value(5), 6);
    assert_eq!(cacher.value(5), 6);
    assert_eq!(cacher.value(0), 1);
}

#[test]
fn workout_advice() {
    assert_eq!(
        generate_workout(10, 7),
        vec![String::from("Today, do 10 pushups!"), String::from("Next, do 10 situps!")]
    );
    assert_eq!(
        generate_workout(30, 3),
        vec![String::from("Take a break today! Remember to stay hydrated!")]
    );
    assert_eq!(generate_workout(30, 7), vec![String::from("Today, run for 30 minutes!")]);
}

#[test]
fn do_twice_adds_both_results() {
    assert_eq!(do_twice(|x: i32| x + 1, 5), 12);
}

#[test]
fn rectangle_geometry() {
    let rect = Rectangle { width: 30, height: 50 };
    assert_eq!(rect.area(), 1500);
    let sq = Rectangle::square(3);
    assert_eq!(sq.area(), 9);
    assert!(rect.can_hold(&Rectangle { width: 10, height: 40 }));
}

#[test]
fn bird_traits() {
    let bird = Bird { name: String::from("Parrot"), age: 22 };
    assert!(bird.can_fly());
    assert!(!bird.is_animal());
    assert_eq!(bird.age, 22);
}

#[test]
fn my_box_dereferences() {
    let b = MyBox::new(5);
    assert_eq!(*b, 5);
    deref();
}

#[test]
fn demo_functions_run() {
    macros();
    closures();
    eat_at_restaurant();
    fix_incorrect_order();
    cook_order();
}
