//! A builder: a product is assembled step by step, and a director runs the
//! building steps in a fixed order against any builder. Taking the
//! finished product out of a builder resets the builder to empty.

use vstd::prelude::*;
use vstd::string::StringExecFns;

verus! {

broadcast use vstd::prelude::Seq::lemma_push_map_commute;

/// The product: an ordered list of parts.
pub struct Product {
    parts: Vec<String>,
}

impl Product {
    /// The parts assembled so far, in order.
    pub closed spec fn spec_parts(&self) -> Seq<Seq<char>> {
        crate::string_views(self.parts@)
    }

    /// A product with no parts yet.
    pub fn new() -> (product: Product)
        ensures
            product.spec_parts() == Seq::<Seq<char>>::empty(),
    {
        let product = Product { parts: Vec::new() };
        proof {
            assert(product.spec_parts() =~= Seq::<Seq<char>>::empty());
        }
        product
    }

    /// The listing of the product's parts, in assembly order.
    pub fn list_parts(&self) -> (parts: &Vec<String>)
        ensures
            crate::string_views(parts@) == self.spec_parts(),
    {
        &self.parts
    }
}

/// A builder assembles the parts of a product; each concrete builder uses
/// its own texts for the three parts.
pub trait Builder: Sized {
    /// The parts assembled so far.
    spec fn parts(&self) -> Seq<Seq<char>>;

    /// The text this builder uses for the first part.
    spec fn part_a_text() -> Seq<char>;

    /// The text this builder uses for the second part.
    spec fn part_b_text() -> Seq<char>;

    /// The text this builder uses for the third part.
    spec fn part_c_text() -> Seq<char>;

    /// Appends this builder's first part.
    fn produce_part_a(&mut self)
        ensures
            final(self).parts() == old(self).parts().push(Self::part_a_text()),
    ;

    /// Appends this builder's second part.
    fn produce_part_b(&mut self)
        ensures
            final(self).parts() == old(self).parts().push(Self::part_b_text()),
    ;

    /// Appends this builder's third part.
    fn produce_part_c(&mut self)
        ensures
            final(self).parts() == old(self).parts().push(Self::part_c_text()),
    ;

    /// Takes the assembled product out and leaves the builder empty, ready
    /// to assemble the next product.
    fn get_product(&mut self) -> (product: Product)
        ensures
            product.spec_parts() == old(self).parts(),
            final(self).parts() == Seq::<Seq<char>>::empty(),
    ;
}

/// The first concrete builder.
pub struct ContreteBuilder1 {
    product: Product,
}

impl ContreteBuilder1 {
    pub fn new() -> (builder: ContreteBuilder1)
        ensures
            builder.parts() == Seq::<Seq<char>>::empty(),
    {
        ContreteBuilder1 { product: Product::new() }
    }
}

impl Builder for ContreteBuilder1 {
    closed spec fn parts(&self) -> Seq<Seq<char>> {
        self.product.spec_parts()
    }

    open spec fn part_a_text() -> Seq<char> {
        "part a1"@
    }

    open spec fn part_b_text() -> Seq<char> {
        "part b1"@
    }

    open spec fn part_c_text() -> Seq<char> {
        "part c1"@
    }

    fn produce_part_a(&mut self) {
        self.product.parts.push(String::from_str("part a1"));
    }

    fn produce_part_b(&mut self) {
        self.product.parts.push(String::from_str("part b1"));
    }

    fn produce_part_c(&mut self) {
        self.product.parts.push(String::from_str("part c1"));
    }

    fn get_product(&mut self) -> (product: Product) {
        let mut product = Product::new();
        core::mem::swap(&mut product, &mut self.product);
        product
    }
}

/// The second concrete builder: same steps, different part texts.
pub struct ContreteBuilder2 {
    product: Product,
}

impl ContreteBuilder2 {
    pub fn new() -> (builder: ContreteBuilder2)
        ensures
            builder.parts() == Seq::<Seq<char>>::empty(),
    {
        ContreteBuilder2 { product: Product::new() }
    }
}

impl Builder for ContreteBuilder2 {
    closed spec fn parts(&self) -> Seq<Seq<char>> {
        self.product.spec_parts()
    }

    open spec fn part_a_text() -> Seq<char> {
        "part a ~~~~ 2"@
    }

    open spec fn part_b_text() -> Seq<char> {
        "part b ~~~~ 2"@
    }

    open spec fn part_c_text() -> Seq<char> {
        "part c ~~~~ 2"@
    }

    fn produce_part_a(&mut self) {
        self.product.parts.push(String::from_str("part a ~~~~ 2"));
    }

    fn produce_part_b(&mut self) {
        self.product.parts.push(String::from_str("part b ~~~~ 2"));
    }

    fn produce_part_c(&mut self) {
        self.product.parts.push(String::from_str("part c ~~~~ 2"));
    }

    fn get_product(&mut self) -> (product: Product) {
        let parts = self.product.parts.clone();
        let product = Product { parts };
        proof {
            let pre = self.product.parts@;
            assert forall|i: int| 0 <= i < pre.len() implies product.parts@[i]@ == pre[i]@ by {
                assert(cloned::<String>(pre[i], product.parts@[i]));
            }
            assert(product.spec_parts() =~= self.product.spec_parts());
        }
        self.product = Product::new();
        product
    }
}

/// The director runs the building steps in one fixed order against any
/// builder; it does not know which concrete builder it drives.
pub struct Director<B: Builder> {
    pub builder: B,
}

impl<B: Builder> Director<B> {
    pub fn new(builder: B) -> (director: Director<B>)
        ensures
            director.builder == builder,
    {
        Director { builder }
    }

    /// Executes the three building steps in order: the builder gains its
    /// three parts, in that order, after whatever it already held.
    pub fn construct(&mut self)
        ensures
            final(self).builder.parts() == old(self).builder.parts().push(B::part_a_text()).push(
                B::part_b_text(),
            ).push(B::part_c_text()),
    {
        self.builder.produce_part_a();
        self.builder.produce_part_b();
        self.builder.produce_part_c();
    }
}

} // verus!
