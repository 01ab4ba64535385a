//! A factory-method store: the store orders knives without naming the
//! concrete kind of knife it sells; the factory it holds decides that.

use vstd::prelude::*;

verus! {

/// A knife: the product of a factory. A knife is made sellable before it
/// leaves the store.
pub trait Knife: Sized {
    /// Whether this knife is ready for sale.
    spec fn sellable(&self) -> bool;

    /// Marks the knife as ready for sale.
    fn make_sellable(&mut self)
        ensures
            final(self).sellable(),
    ;

    /// Whether this knife is ready for sale.
    fn is_sellable(&self) -> (r: bool)
        ensures
            r == self.sellable(),
    ;
}

/// A factory for one concrete kind of knife. A freshly created knife is
/// not yet sellable.
pub trait KnifeFactory: Sized {
    /// The concrete kind of knife this factory makes.
    type K: Knife;

    /// Creates a new, not yet sellable knife.
    fn create_knife(&self) -> (knife: Self::K)
        ensures
            !knife.sellable(),
    ;
}

/// The store: holds a factory and orders knives from it without knowing
/// the concrete kind of knife being made.
pub struct KnifeStore<'t, F: KnifeFactory> {
    factory: &'t F,
}

impl<'t, F: KnifeFactory> KnifeStore<'t, F> {
    /// The factory this store orders from.
    pub closed spec fn spec_factory(&self) -> F {
        *self.factory
    }

    /// Orders a knife: has the factory create one, then makes it sellable.
    /// Every knife that leaves the store is sellable.
    pub fn order_knife(&self) -> (knife: F::K)
        ensures
            knife.sellable(),
    {
        let mut knife = self.factory.create_knife();
        knife.make_sellable();
        knife
    }

    pub fn new(factory: &'t F) -> (store: Self)
        ensures
            store.spec_factory() == *factory,
    {
        Self { factory }
    }
}

/// The one concrete product here: a steak knife.
pub struct SteakKnife {
    is_sellable: bool,
}

impl Knife for SteakKnife {
    closed spec fn sellable(&self) -> bool {
        self.is_sellable
    }

    fn make_sellable(&mut self) {
        self.is_sellable = true;
    }

    fn is_sellable(&self) -> (r: bool) {
        self.is_sellable
    }
}

/// The factory that makes steak knives.
pub struct SteakFactory {}

impl KnifeFactory for SteakFactory {
    type K = SteakKnife;

    fn create_knife(&self) -> (knife: SteakKnife) {
        SteakKnife { is_sellable: false }
    }
}

impl SteakFactory {
    pub fn new() -> (factory: SteakFactory) {
        SteakFactory {}
    }
}

} // verus!
