use vstd::prelude::*;
use vstd::string::*;

verus! {

/// A point on the plane, made by default at the origin.
#[derive(Debug, Clone, Copy, PartialEq, Eq, Structural)]
pub struct Point {
    pub x: i32,
    pub y: i32,
}

impl Default for Point {
    /// The default point: the origin.
    fn default() -> (p: Self)
        ensures
            p == (Point { x: 0, y: 0 }),
    {
        Self { x: 0, y: 0 }
    }
}

/// A user record, made by default as the first user.
#[derive(Debug, PartialEq, Eq)]
pub struct User {
    pub no: usize,
    pub name: String,
}

impl Default for User {
    /// The default user: number 1, named "user1".
    fn default() -> (u: Self)
        ensures
            u.no == 1,
            u.name@ == "user1"@,
    {
        Self { no: 1, name: String::from_str("user1") }
    }
}

} // verus!
