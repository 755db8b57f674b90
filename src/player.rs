use vstd::prelude::*;

use crate::console::push_onto;

verus! {

/// A player's full name: the first name, one space, and the last name.
pub fn full_name(first_name: &str, last_name: &str) -> (r: String)
    ensures
        r@ == first_name@.push(' ') + last_name@,
{
    let mut name = String::from_str(first_name);
    push_onto(&mut name, ' ');
    name.append(last_name);
    name
}

} // verus!
