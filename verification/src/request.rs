//! The incoming request as the pipeline sees it, and how its method is classified.

use vstd::prelude::*;
use crate::text::text_eq;

verus! {

/// The two classes every request method falls into.
#[derive(Clone, Copy, Debug, PartialEq, Eq, Structural)]
pub enum MethodClass {
    /// Read-only: `GET`, `HEAD` and `OPTIONS`.
    Safe,
    /// Every other method (`POST`, `PUT`, `DELETE`, `PATCH`, ...).
    Mutating,
}

/// Method, target and headers of a request. The body is not part of this value:
/// it arrives later, piece by piece, and only for mutating methods.
#[derive(Clone, Debug, PartialEq, Eq)]
pub struct IncomingRequest {
    /// The method token as sent, for example `GET`.
    pub method: String,
    /// The path of the request target.
    pub path: String,
    /// The raw query string, if the target has one.
    pub query: Option<String>,
    /// Header entries in the order they are iterated. A name may occur more than once.
    pub headers: Vec<(String, String)>,
}

/// Mathematical content of an [`IncomingRequest`].
pub ghost struct RequestView {
    pub method: Seq<char>,
    pub path: Seq<char>,
    pub query: Option<Seq<char>>,
    pub headers: Seq<(Seq<char>, Seq<char>)>,
}

impl View for IncomingRequest {
    type V = RequestView;

    open spec fn view(&self) -> RequestView {
        RequestView {
            method: self.method@,
            path: self.path@,
            query: self.query.deep_view(),
            headers: self.headers.deep_view(),
        }
    }
}

/// The method names that are treated as read-only. The comparison is exact:
/// `get` in lower case is not `GET`.
pub open spec fn is_safe_method(name: Seq<char>) -> bool {
    name == "GET"@ || name == "HEAD"@ || name == "OPTIONS"@
}

/// The class of a method name. Total: every name is in exactly one class.
pub open spec fn method_class(name: Seq<char>) -> MethodClass {
    if is_safe_method(name) {
        MethodClass::Safe
    } else {
        MethodClass::Mutating
    }
}

/// Classifies a method by its name alone.
pub fn classify(method: &str) -> (class: MethodClass)
    ensures
        class == method_class(method@),
{
    if text_eq(method, "GET") || text_eq(method, "HEAD") || text_eq(method, "OPTIONS") {
        MethodClass::Safe
    } else {
        MethodClass::Mutating
    }
}

impl IncomingRequest {
    /// The class of this request, derived from its method and nothing else.
    pub fn class(&self) -> (class: MethodClass)
        ensures
            class == method_class(self@.method),
    {
        classify(self.method.as_str())
    }
}

} // verus!
