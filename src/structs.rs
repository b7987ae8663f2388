use vstd::prelude::*;

verus! {

/// A person known by a first and a last name.
pub struct Person {
    first_name: String,
    last_name: String,
}

impl View for Person {
    type V = (Seq<char>, Seq<char>);

    /// The first and the last name.
    closed spec fn view(&self) -> (Seq<char>, Seq<char>) {
        (self.first_name@, self.last_name@)
    }
}

impl Person {
    /// A person named `first` `last`.
    pub fn new(first: &str, last: &str) -> (p: Person)
        ensures
            p@ == (first@, last@),
    {
        Person { first_name: first.to_owned(), last_name: last.to_owned() }
    }

    /// The first and the last name, separated by a space.
    pub fn full_name(&self) -> (r: String)
        ensures
            r@ == self@.0 + " "@ + self@.1,
    {
        let mut r = self.first_name.clone();
        r.append(" ");
        r.append(self.last_name.as_str());
        r
    }

    /// Replaces the last name with `last`.
    pub fn set_last_name(&mut self, last: &str)
        ensures
            final(self)@ == (old(self)@.0, last@),
    {
        self.last_name = last.to_owned();
    }

    /// The first and the last name as a pair.
    pub fn to_tuple(self) -> (r: (String, String))
        ensures
            (r.0@, r.1@) == self@,
    {
        (self.first_name, self.last_name)
    }
}

} // verus!
