use vstd::prelude::*;
use vstd::string::StringExecFns;

verus! {

/// A text label at a fixed pixel position.
#[derive(Clone)]
pub struct Label {
    pub id: String,
    pub text: String,
    pub x: i32,
    pub y: i32,
}

impl Label {
    /// A label with identifier `id` showing `text` at (`x`, `y`).
    pub fn new(id: &str, text: &str, x: i32, y: i32) -> (l: Self)
        ensures
            l.id@ == id@,
            l.text@ == text@,
            l.x == x,
            l.y == y,
    {
        Label { id: String::from_str(id), text: String::from_str(text), x, y }
    }
}

} // verus!
