//! A strategy slot: a duck owns exactly one interchangeable flying
//! behavior, chosen and replaceable at runtime. Swapping in a new behavior
//! takes ownership of it and releases the previous one; invoking the slot
//! delegates to whatever behavior is currently active.

use vstd::prelude::*;

verus! {

/// A behavior object: the one capability the slot delegates to.
pub trait FlyBehaviour: Sized {
    /// The effect this behavior produces when invoked.
    spec fn effect(&self) -> Seq<char>;

    /// Produces the behavior's effect.
    fn fly(&self) -> (r: &'static str)
        ensures
            r@ == self.effect(),
    ;
}

/// The behavior of a duck that can fly.
pub struct FlyWithWings;

impl FlyBehaviour for FlyWithWings {
    open spec fn effect(&self) -> Seq<char> {
        "i can fly!"@
    }

    fn fly(&self) -> (r: &'static str) {
        "i can fly!"
    }
}

/// The behavior of a duck that cannot fly.
pub struct FlyNoWay;

impl FlyBehaviour for FlyNoWay {
    open spec fn effect(&self) -> Seq<char> {
        "i can't fly!~~"@
    }

    fn fly(&self) -> (r: &'static str) {
        "i can't fly!~~"
    }
}

/// The closed set of behaviors a slot can hold, selected at runtime
/// without the holder knowing which one is active.
pub enum Behaviour {
    WithWings(FlyWithWings),
    NoWay(FlyNoWay),
}

impl FlyBehaviour for Behaviour {
    open spec fn effect(&self) -> Seq<char> {
        match self {
            Behaviour::WithWings(b) => b.effect(),
            Behaviour::NoWay(b) => b.effect(),
        }
    }

    fn fly(&self) -> (r: &'static str) {
        match self {
            Behaviour::WithWings(b) => b.fly(),
            Behaviour::NoWay(b) => b.fly(),
        }
    }
}

/// A holder of one behavior slot. `fly` always delegates to the currently
/// active behavior, so after a swap the old behavior's effect can no
/// longer be produced.
pub trait Duck: Sized {
    /// The type of behavior this duck's slot holds.
    type B: FlyBehaviour;

    /// The behavior currently in the slot.
    spec fn behaviour(&self) -> Self::B;

    /// Exposes the slot's current behavior.
    fn get_fly_behaviour(&self) -> (b: &Self::B)
        ensures
            *b == self.behaviour(),
    ;

    /// Delegates to the currently active behavior's effect.
    fn fly(&self) -> (r: &'static str)
        ensures
            r@ == self.behaviour().effect(),
    {
        let s = self.get_fly_behaviour();
        s.fly()
    }
}

/// A duck whose slot can hold any behavior of the closed set and swap it
/// at runtime.
pub struct MallardDuck {
    fly_behaviour: Behaviour,
}

impl Duck for MallardDuck {
    type B = Behaviour;

    closed spec fn behaviour(&self) -> Behaviour {
        self.fly_behaviour
    }

    fn get_fly_behaviour(&self) -> (b: &Behaviour) {
        &self.fly_behaviour
    }
}

impl MallardDuck {
    pub fn new(fly_behaviour: Behaviour) -> (duck: MallardDuck)
        ensures
            duck.behaviour() == fly_behaviour,
    {
        MallardDuck { fly_behaviour }
    }

    /// Replaces the active behavior: takes ownership of the new one and
    /// releases the previous one. The slot never holds two behaviors at
    /// once.
    pub fn set_fly_behaviour(&mut self, fly_behaviour: Behaviour)
        ensures
            final(self).behaviour() == fly_behaviour,
    {
        self.fly_behaviour = fly_behaviour;
    }
}

/// Law: the two behaviors of the closed set produce distinct effects.
/// With the contracts of [`MallardDuck::set_fly_behaviour`] and
/// [`Duck::fly`], once a new behavior is set the slot produces the new
/// behavior's effect and can no longer produce the old one's.
pub proof fn lemma_behaviour_effects_distinct(with_wings: FlyWithWings, no_way: FlyNoWay)
    ensures
        with_wings.effect() != no_way.effect(),
{
    reveal_strlit("i can fly!");
    reveal_strlit("i can't fly!~~");
    assert(with_wings.effect().len() != no_way.effect().len());
}

/// A duck whose slot is fixed to the flightless behavior.
pub struct ModelDuck {
    fly_behaviour: FlyNoWay,
}

impl Duck for ModelDuck {
    type B = FlyNoWay;

    closed spec fn behaviour(&self) -> FlyNoWay {
        self.fly_behaviour
    }

    fn get_fly_behaviour(&self) -> (b: &FlyNoWay) {
        &self.fly_behaviour
    }
}

impl ModelDuck {
    pub fn new(fly_behaviour: FlyNoWay) -> (duck: ModelDuck)
        ensures
            duck.behaviour() == fly_behaviour,
    {
        ModelDuck { fly_behaviour }
    }
}

} // verus!
