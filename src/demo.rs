use vstd::prelude::*;
use vstd::string::*;

use crate::capture::{Bumper, Owner, Reader};
use crate::decimal::{decimal, digits_of, render_int};
use crate::pure::{add_ints, append_text, apply, greeting};

verus! {

/// The lines the walk-through yields, in order.
pub open spec fn expected_lines() -> Seq<Seq<char>> {
    seq![
        "Hello, World!"@,
        "5"@,
        "Hello, World!"@,
        "50"@,
        "101"@,
        "Hello"@,
        "20"@,
    ]
}

/// Runs the walk-through of callables in order and yields one line for each
/// step: a fixed greeting, a sum, a concatenation, a read through a shared
/// borrow, an increment through an exclusive borrow, a text moved into its
/// callable, and a doubling handed to `apply`.
pub fn demo_lines() -> (r: Vec<String>)
    ensures
        r@.len() == expected_lines().len(),
        forall|i: int| 0 <= i < r@.len() ==> #[trigger] r@[i]@ == expected_lines()[i],
{
    let mut lines: Vec<String> = Vec::new();

    let closure = || -> (r: &'static str)
        ensures
            r@ == "Hello, World!"@,
        { greeting() };
    lines.push(String::from_str(closure()));

    let sum = |a: i32, b: i32| -> (r: i32)
        requires
            i32::MIN <= a + b <= i32::MAX,
        ensures
            r == a + b,
        { add_ints(a, b) };
    lines.push(render_int(sum(2, 3)));

    let hello = String::from_str("Hello, ");
    let world = String::from_str("World!");
    lines.push(append_text(hello, world.as_str()));

    let x: i32 = 50;
    let print_x = Reader::new(&x);
    lines.push(render_int(print_x.call()));

    let mut y: i32 = 100;
    let mut print_y = Bumper::new(&mut y);
    lines.push(render_int(print_y.call()));

    let z = String::from_str("Hello");
    let print_z = Owner::new(z);
    lines.push(print_z.call());

    let double = |v: i32| -> (r: i32)
        requires
            -1000 <= v <= 1000,
        ensures
            r == v * 2,
        { v * 2 };
    lines.push(render_int(apply(double)));

    proof {
        reveal_strlit("Hello, World!");
        reveal_strlit("Hello, ");
        reveal_strlit("World!");
        reveal_strlit("Hello");
        reveal_strlit("5");
        reveal_strlit("50");
        reveal_strlit("101");
        reveal_strlit("20");
        reveal_with_fuel(digits_of, 4);
        assert(decimal(5) =~= "5"@);
        assert(decimal(50) =~= "50"@);
        assert(decimal(101) =~= "101"@);
        assert(decimal(20) =~= "20"@);
        assert(lines@.len() == 7);
        assert(lines@[0]@ == expected_lines()[0]);
        assert(lines@[1]@ == expected_lines()[1]);
        assert(lines@[2]@ == expected_lines()[2]);
        assert(lines@[3]@ == expected_lines()[3]);
        assert(lines@[4]@ == expected_lines()[4]);
        assert(lines@[5]@ == expected_lines()[5]);
        assert(lines@[6]@ == expected_lines()[6]);
    }
    lines
}

} // verus!
