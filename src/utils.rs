use vstd::prelude::*;
use vstd::utf8::{encode_scalar, encode_utf8};

use crate::traits::Movable;

verus! {

/// A point on the plane with two coordinates of the same type.
#[derive(Debug, Clone, Copy, PartialEq, Eq)]
pub struct Point<T> {
    pub x: T,
    pub y: T,
}

/// The origin.
pub open spec fn origin() -> Point<i64> {
    Point { x: 0, y: 0 }
}

/// Whether `p` shifted by `(dx, dy)` still has coordinates that fit in `i64`.
pub open spec fn shift_fits(p: Point<i64>, dx: int, dy: int) -> bool {
    &&& i64::MIN <= p.x + dx <= i64::MAX
    &&& i64::MIN <= p.y + dy <= i64::MAX
}

/// `p` shifted by `(dx, dy)`; meaningful where `shift_fits(p, dx, dy)`.
pub open spec fn shifted(p: Point<i64>, dx: int, dy: int) -> Point<i64> {
    Point { x: (p.x + dx) as i64, y: (p.y + dy) as i64 }
}

impl Point<i64> {
    /// The origin.
    pub fn zero() -> (p: Self)
        ensures
            p == origin(),
    {
        Point { x: 0, y: 0 }
    }
}

/// The number of bytes that `s` takes in UTF-8.
pub open spec fn byte_len(s: Seq<char>) -> nat {
    encode_utf8(s).len()
}

/// Adding a character at the end adds its encoding at the end.
proof fn lemma_encode_push(s: Seq<char>, c: char)
    ensures
        encode_utf8(s.push(c)) == encode_utf8(s) + encode_scalar(c as u32),
    decreases s.len(),
{
    let t = s.push(c);
    if s.len() == 0 {
        assert(t.drop_first() =~= Seq::<char>::empty());
        assert(t[0] == c);
        assert(encode_utf8(t.drop_first()) =~= Seq::<u8>::empty());
        assert(encode_utf8(t) =~= encode_scalar(c as u32));
    } else {
        lemma_encode_push(s.drop_first(), c);
        assert(t.drop_first() =~= s.drop_first().push(c));
        assert(t[0] == s[0]);
        assert(encode_utf8(t) =~= encode_utf8(s) + encode_scalar(c as u32));
    }
}

/// Appends a question mark to `s` and returns the new length in bytes.
pub fn calc_length(s: &mut String) -> (len: usize)
    requires
        byte_len(old(s)@) < usize::MAX,
    ensures
        final(s)@ == old(s)@.push('?'),
        len == byte_len(old(s)@) + 1,
{
    proof {
        reveal_strlit("?");
    }
    s.append("?");
    assert(s@ =~= old(s)@.push('?'));
    proof {
        lemma_encode_push(old(s)@, '?');
        assert(('?' as u32) == 0x3F);
        assert(encode_scalar('?' as u32).len() == 1);
    }
    s.as_str().len()
}

/// The whole of `s` as a string slice.
pub fn get_slice(s: &String) -> (r: &str)
    ensures
        r@ == s@,
{
    s.as_str()
}

/// The longer of `x` and `y` in bytes; `y` when they are equally long.
pub fn longest<'a>(x: &'a str, y: &'a str) -> (r: &'a str)
    ensures
        r == (if x.len() > y.len() { x } else { y }),
{
    if x.len() > y.len() {
        return x;
    }
    y
}

/// Moves `movable` to the origin.
pub fn move_to_start<T: Movable>(movable: &mut T)
    ensures
        *final(movable) == old(movable).placed_at(origin()),
{
    movable.move_to(0, 0);
}

} // verus!
