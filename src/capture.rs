use vstd::prelude::*;

verus! {

/// A callable that holds a shared borrow of an integer. Each call reads the
/// integer through the borrow, so it sees the value as it stands at the call.
pub struct Reader<'a> {
    target: &'a i32,
}

impl<'a> Reader<'a> {
    /// The value behind the borrow.
    pub closed spec fn current(&self) -> int {
        *self.target as int
    }

    pub fn new(target: &'a i32) -> (r: Reader<'a>)
        ensures
            r.current() == *target,
    {
        Reader { target }
    }

    /// Yields the borrowed integer; the reader stays usable.
    pub fn call(&self) -> (r: i32)
        ensures
            r == self.current(),
    {
        *self.target
    }
}

/// A callable that holds an exclusive, writable borrow of an integer: each
/// call adds one to the borrowed integer and yields its new value.
pub struct Bumper<'a> {
    target: &'a mut i32,
}

impl<'a> Bumper<'a> {
    /// The value behind the borrow.
    pub closed spec fn current(&self) -> int {
        *self.target as int
    }

    pub fn new(target: &'a mut i32) -> (r: Bumper<'a>)
        ensures
            r.current() == *old(target),
    {
        Bumper { target }
    }

    /// Adds one to the borrowed integer and yields the result. The change
    /// stays in place for the next call.
    pub fn call(&mut self) -> (r: i32)
        requires
            old(self).current() < i32::MAX,
        ensures
            final(self).current() == old(self).current() + 1,
            r == final(self).current(),
    {
        *self.target = *self.target + 1;
        *self.target
    }
}

/// A callable that owns its text. Calling it consumes it: the text is handed
/// out once, and the callable is gone afterwards, so a second call does not
/// compile.
pub struct Owner {
    text: String,
}

impl Owner {
    /// The text the callable owns.
    pub closed spec fn text(&self) -> Seq<char> {
        self.text@
    }

    /// Moves `text` into the callable; the caller's binding is no longer usable.
    pub fn new(text: String) -> (r: Owner)
        ensures
            r.text() == text@,
    {
        Owner { text }
    }

    /// Hands out the owned text, consuming the callable.
    pub fn call(self) -> (r: String)
        ensures
            r@ == self.text(),
    {
        self.text
    }
}

} // verus!
