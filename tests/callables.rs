use closures::capture::{Bumper, Owner, Reader};
use closures::decimal::render_int;
use closures::demo::demo_lines;
use closures::pure::{add_ints, append_text, apply, greeting};

#[test]
fn demo_yields_seven_lines_in_order() {
    let lines = demo_lines();
    let expected = vec![
        "Hello, World!",
        "5",
        "Hello, World!",
        "50",
        "101",
        "Hello",
        "20",
    ];
    assert_eq!(lines, expected);
}

#[test]
fn greeting_is_fixed() {
    assert_eq!(greeting(), "Hello, World!");
}

#[test]
fn add_two_and_three() {
    assert_eq!(add_ints(2, 3), 5);
    assert_eq!(add_ints(2, 3), 5);
}

#[test]
fn add_any_pair() {
    assert_eq!(add_ints(-7, 3), -4);
    assert_eq!(add_ints(3, -7), add_ints(-7, 3));
    assert_eq!(add_ints(add_ints(4, 5), 6), add_ints(4, add_ints(5, 6)));
    assert_eq!(add_ints(i32::MAX, 0), i32::MAX);
    assert_eq!(add_ints(i32::MIN, 0), i32::MIN);
}

#[test]
fn append_text_appends_borrowed_text() {
    let hello = String::from("Hello, ");
    let world = String::from("World!");
    assert_eq!(append_text(hello, &world), "Hello, World!");
    assert_eq!(world, "World!");
    assert_eq!(append_text(String::new(), ""), "");
}

#[test]
fn reader_yields_borrowed_value() {
    let x: i32 = 50;
    let print_x = Reader::new(&x);
    assert_eq!(print_x.call(), 50);
    assert_eq!(print_x.call(), 50);
}

#[test]
fn bumper_keeps_its_change_between_calls() {
    let mut y: i32 = 100;
    let mut print_y = Bumper::new(&mut y);
    assert_eq!(print_y.call(), 101);
    assert_eq!(print_y.call(), 102);
    assert_eq!(y, 102);
}

#[test]
fn owner_hands_out_its_text() {
    let z = String::from("Hello");
    let print_z = Owner::new(z);
    assert_eq!(print_z.call(), "Hello");
}

#[test]
fn apply_doubling_gives_twenty() {
    assert_eq!(apply(|x| x * 2), 20);
}

#[test]
fn apply_tripling_gives_thirty() {
    assert_eq!(apply(|x| x * 3), 30);
}

#[test]
fn apply_calls_with_ten() {
    assert_eq!(apply(|x| x), 10);
    assert_eq!(apply(|x| x - 11), -1);
}

#[test]
fn render_int_writes_decimal() {
    assert_eq!(render_int(0), "0");
    assert_eq!(render_int(7), "7");
    assert_eq!(render_int(1234), "1234");
    assert_eq!(render_int(-5), "-5");
    assert_eq!(render_int(-100), "-100");
    assert_eq!(render_int(i32::MAX), "2147483647");
    assert_eq!(render_int(i32::MIN), "-2147483648");
}
