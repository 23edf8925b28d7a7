//! Type-erased payloads.

use vstd::prelude::*;

verus! {

/// What a payload has to be able to do: cross a thread boundary and be
/// destroyed on the other side. Every `Send` type can.
trait Disposable: Send {

}

impl<T: Send> Disposable for T {

}

/// One value of any type, owned, with its type forgotten. Nothing can be done
/// with it any more but to destroy it, by letting it go out of scope.
pub struct Trash {
    payload: Box<dyn Disposable>,
}

impl Trash {
    /// The trash that holds `value`.
    pub closed spec fn of<T: Send + 'static>(value: T) -> Trash {
        Trash { payload: Box::new(value) }
    }

    /// Moves `value` into a box and forgets its type.
    pub fn new<T: Send + 'static>(value: T) -> (trash: Trash)
        ensures
            trash == Trash::of(value),
    {
        Trash { payload: Box::new(value) }
    }
}

} // verus!
