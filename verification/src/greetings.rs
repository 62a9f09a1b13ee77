//! The two demonstration endpoints: each greets by name.

use vstd::prelude::*;
use vstd::string::*;
use crate::error::MyError;

verus! {

/// A greeting: `opening`, the name and an exclamation mark.
pub open spec fn greeting(opening: Seq<char>, name: Seq<char>) -> Seq<char> {
    opening + name + "!"@
}

/// Writes [`greeting`].
fn greet(opening: &str, name: &str) -> (text: String)
    ensures
        text@ == greeting(opening@, name@),
{
    let mut text = opening.to_owned();
    text.append(name);
    text.append("!");
    text
}

/// Greets the name in the path: `Hey`, a space, the name and an exclamation
/// mark.
pub fn hey(name: &str) -> (text: String)
    ensures
        text@ == greeting("Hey "@, name@),
{
    greet("Hey ", name)
}

/// Greets the name in the query in the same way with `Hello`, and fails
/// with `NotFound` where the query holds no name.
pub fn hello(name: Option<&str>) -> (outcome: Result<String, MyError>)
    ensures
        match name {
            Some(name) => outcome matches Ok(text) && text@ == greeting("Hello "@, name@),
            None => outcome == Err::<String, MyError>(MyError::NotFound),
        },
{
    match name {
        Some(name) => Ok(greet("Hello ", name)),
        None => Err(MyError::NotFound),
    }
}

} // verus!
