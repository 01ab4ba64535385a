//! Decorators: a component's operation is wrapped by other components
//! that add their own text around the wrapped result, to any depth.

use std::rc::Rc;
use vstd::prelude::*;
use vstd::string::StringExecFns;

verus! {

/// An operation that decorators can alter.
pub trait Component: Sized {
    /// The text this component's operation yields.
    spec fn op_view(&self) -> Seq<char>;

    /// Performs the operation.
    fn operation(&self) -> (r: String)
        ensures
            r@ == self.op_view(),
    ;
}

/// The plain component at the bottom of every decorator stack.
pub struct ConcreteComponent {}

impl Component for ConcreteComponent {
    open spec fn op_view(&self) -> Seq<char> {
        "ConcreteComponent"@
    }

    fn operation(&self) -> (r: String) {
        String::from_str("ConcreteComponent")
    }
}

/// A decorator that prefixes its own tag to the wrapped component's
/// result.
pub struct ConcreteDecoratorA<C: Component> {
    component: Rc<C>,
}

impl<C: Component> ConcreteDecoratorA<C> {
    pub fn new(component: Rc<C>) -> (d: ConcreteDecoratorA<C>)
        ensures
            d.op_view() == "ConcreteDecoratorA: "@ + (*component).op_view(),
    {
        ConcreteDecoratorA { component }
    }
}

impl<C: Component> Component for ConcreteDecoratorA<C> {
    closed spec fn op_view(&self) -> Seq<char> {
        "ConcreteDecoratorA: "@ + (*self.component).op_view()
    }

    fn operation(&self) -> (r: String) {
        String::from_str("ConcreteDecoratorA: ").concat(self.component.operation().as_str())
    }
}

/// A second decorator with its own tag; decorators stack in any order.
pub struct ConcreteDecoratorB<C: Component> {
    component: Rc<C>,
}

impl<C: Component> ConcreteDecoratorB<C> {
    pub fn new(component: Rc<C>) -> (d: ConcreteDecoratorB<C>)
        ensures
            d.op_view() == "ConcreteDecoratorB: "@ + (*component).op_view(),
    {
        ConcreteDecoratorB { component }
    }
}

impl<C: Component> Component for ConcreteDecoratorB<C> {
    closed spec fn op_view(&self) -> Seq<char> {
        "ConcreteDecoratorB: "@ + (*self.component).op_view()
    }

    fn operation(&self) -> (r: String) {
        String::from_str("ConcreteDecoratorB: ").concat(self.component.operation().as_str())
    }
}

/// The client code: works with plain and decorated components alike.
pub struct Client;

impl Client {
    pub fn client_code<T: Component>(component: &T) -> (r: String)
        ensures
            r@ == component.op_view(),
    {
        component.operation()
    }
}

} // verus!
