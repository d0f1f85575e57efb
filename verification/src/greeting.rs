//! The pages that the service greets with.

use vstd::prelude::*;
use vstd::string::StringExecFns;

verus! {

/// The page at the root of the service.
pub fn welcome() -> (text: String)
    ensures
        text@ == "<h1>Hello Axum</h1>"@,
{
    "<h1>Hello Axum</h1>".to_owned()
}

/// The greeting for a visitor: by name where one is given.
pub open spec fn greeting_text(name: Option<Seq<char>>) -> Seq<char> {
    match name {
        Some(name) => "<h1>Hello "@ + name + "</h1>"@,
        None => "<h1>Hello Unknown Visitor</h1>"@,
    }
}

/// Greets a visitor.
pub fn greeting(name: Option<&str>) -> (text: String)
    ensures
        text@ == greeting_text(
            match name {
                Some(name) => Some(name@),
                None => None,
            },
        ),
{
    match name {
        Some(name) => {
            let mut text = "<h1>Hello ".to_owned();
            text.append(name);
            text.append("</h1>");
            text
        },
        None => "<h1>Hello Unknown Visitor</h1>".to_owned(),
    }
}

} // verus!
