use vstd::prelude::*;

verus! {

/// The words of a greeting of `name` with `greet`.
pub open spec fn greeting_text(greet: Seq<char>, name: Seq<char>) -> Seq<char> {
    greet + " "@ + name + ", nice to meet you"@
}

/// Greets `name` with `greet`: "<greet> <name>, nice to meet you".
pub fn greeting(greet: &str, name: &str) -> (r: String)
    ensures
        r@ == greeting_text(greet@, name@),
{
    let mut r = String::from_str(greet);
    r.append(" ");
    r.append(name);
    r.append(", nice to meet you");
    r
}

/// The sum of two integers.
pub fn add(n1: i32, n2: i32) -> (r: i32)
    requires
        i32::MIN <= n1 + n2 <= i32::MAX,
    ensures
        r == n1 + n2,
{
    n1 + n2
}

} // verus!
