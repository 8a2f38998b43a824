//! The request methods that the upstream API takes.

use crate::error::RequestError;
use crate::text::same_text;
use vstd::prelude::*;

verus! {

/// A method of the upstream API.
#[derive(Clone, Copy, Debug, PartialEq, Eq, Structural)]
pub enum Method {
    Delete,
    Get,
    Patch,
    Post,
    Put,
}

impl Method {
    /// The name of the method as a request line writes it.
    pub open spec fn name(self) -> Seq<char> {
        match self {
            Method::Delete => "DELETE"@,
            Method::Get => "GET"@,
            Method::Patch => "PATCH"@,
            Method::Post => "POST"@,
            Method::Put => "PUT"@,
        }
    }

    /// The name of the method as a request line writes it.
    pub fn as_str(&self) -> (name: &'static str)
        ensures
            name@ == self.name(),
    {
        match self {
            Method::Delete => "DELETE",
            Method::Get => "GET",
            Method::Patch => "PATCH",
            Method::Post => "POST",
            Method::Put => "PUT",
        }
    }
}

/// The method that `name` names, letter for letter in upper case.
pub open spec fn method_named(name: Seq<char>) -> Option<Method> {
    if name == "DELETE"@ {
        Some(Method::Delete)
    } else if name == "GET"@ {
        Some(Method::Get)
    } else if name == "PATCH"@ {
        Some(Method::Patch)
    } else if name == "POST"@ {
        Some(Method::Post)
    } else if name == "PUT"@ {
        Some(Method::Put)
    } else {
        None
    }
}

/// Reads the method of an inbound request.
///
/// Any name but the five that the upstream API takes is refused, and the
/// refusal carries the name as it was sent.
pub fn convert_method(method: &str) -> (converted: Result<Method, RequestError>)
    ensures
        match converted {
            Ok(found) => method_named(method@) == Some(found),
            Err(RequestError::MethodNotAllowed { method: refused }) => method_named(method@)
                is None && refused@ == method@,
            Err(_) => false,
        },
{
    if same_text(method, "DELETE") {
        Ok(Method::Delete)
    } else if same_text(method, "GET") {
        Ok(Method::Get)
    } else if same_text(method, "PATCH") {
        Ok(Method::Patch)
    } else if same_text(method, "POST") {
        Ok(Method::Post)
    } else if same_text(method, "PUT") {
        Ok(Method::Put)
    } else {
        Err(RequestError::MethodNotAllowed { method: method.to_owned() })
    }
}

/// Every method is found again under its own name.
pub proof fn lemma_method_names_are_distinct(method: Method)
    ensures
        method_named(method.name()) == Some(method),
{
    reveal_strlit("DELETE");
    reveal_strlit("GET");
    reveal_strlit("PATCH");
    reveal_strlit("POST");
    reveal_strlit("PUT");
    assert("DELETE"@.len() == 6);
    assert("GET"@.len() == 3);
    assert("PATCH"@.len() == 5);
    assert("POST"@.len() == 4);
    assert("PUT"@.len() == 3);
    assert("PUT"@[0] == 'P');
    assert("GET"@[0] == 'G');
}

} // verus!
