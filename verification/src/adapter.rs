//! An adapter: a value with an incompatible interface is wrapped so that
//! clients written against the domain-specific interface can use it
//! unchanged.

use std::rc::Rc;
use vstd::prelude::*;
use vstd::string::StringExecFns;

verus! {

/// The domain-specific interface the client code works with.
pub trait Target: Sized {
    /// The text a request against this target yields.
    spec fn request_view(&self) -> Seq<char>;

    /// Serves a request.
    fn get_request(&self) -> (r: String)
        ensures
            r@ == self.request_view(),
    ;
}

/// A target with the default behavior.
pub struct DefaultTarget;

impl Target for DefaultTarget {
    open spec fn request_view(&self) -> Seq<char> {
        "Target: The default target's behavior."@
    }

    fn get_request(&self) -> (r: String) {
        String::from_str("Target: The default target's behavior.")
    }
}

/// The adaptee: useful behavior behind an interface the client code does
/// not understand.
pub struct Adaptee {
    req_str: String,
}

impl Adaptee {
    /// The text this adaptee was built around.
    pub closed spec fn spec_req(&self) -> Seq<char> {
        self.req_str@
    }

    pub fn new(s: String) -> (a: Adaptee)
        ensures
            a.spec_req() == s@,
    {
        Adaptee { req_str: s }
    }

    /// The adaptee's own, incompatible entry point.
    pub fn specific_request(&self) -> (r: String)
        ensures
            r@ == "specific request: "@ + self.spec_req(),
    {
        String::from_str("specific request: ").concat(self.req_str.as_str())
    }
}

/// The adapter: presents a shared adaptee through the [`Target`]
/// interface.
pub struct Adapter {
    adaptee: Rc<Adaptee>,
}

impl Adapter {
    pub fn new(a: Rc<Adaptee>) -> (adapter: Adapter)
        ensures
            adapter.request_view() == "Adapter: "@ + ("specific request: "@ + (*a).spec_req()),
    {
        Adapter { adaptee: a }
    }
}

impl Target for Adapter {
    closed spec fn request_view(&self) -> Seq<char> {
        "Adapter: "@ + ("specific request: "@ + (*self.adaptee).spec_req())
    }

    fn get_request(&self) -> (r: String) {
        String::from_str("Adapter: ").concat(self.adaptee.specific_request().as_str())
    }
}

/// The client code: works with every value that follows the [`Target`]
/// contract.
pub struct Client;

impl Client {
    pub fn client_code<T: Target>(target: &T) -> (r: String)
        ensures
            r@ == target.request_view(),
    {
        target.get_request()
    }
}

} // verus!
