//! A command registry: opaque integer keys are bound to invocable,
//! revocable actions, each action bound at registration time to its
//! receiver and a specific effect.
//!
//! Rebinding a key overwrites the old binding (last write wins), and
//! dispatching an unbound key is a defined no-op outcome, distinguishable
//! from a successful dispatch.

use std::collections::HashMap;
use vstd::prelude::*;

verus! {

broadcast use vstd::std_specs::hash::group_hash_axioms;

/// The externally visible effect of executing a command on its receiver.
#[derive(Clone, Copy, PartialEq, Eq, Structural, Debug)]
pub enum TVEffect {
    SwitchedOn,
    SwitchedOff,
}

/// The receiver that the commands act on.
#[derive(Clone, Copy, PartialEq, Eq, Structural, Debug)]
pub struct TV;

impl TV {
    pub fn new() -> (tv: TV) {
        TV
    }

    /// Turns the receiver on.
    pub fn on(&self) -> (effect: TVEffect)
        ensures
            effect == TVEffect::SwitchedOn,
    {
        TVEffect::SwitchedOn
    }

    /// Turns the receiver off.
    pub fn off(&self) -> (effect: TVEffect)
        ensures
            effect == TVEffect::SwitchedOff,
    {
        TVEffect::SwitchedOff
    }
}

/// The action that turns its receiver on.
#[derive(Clone, Copy)]
pub struct TVOnCommand {
    pub tv: TV,
}

impl TVOnCommand {
    pub fn new(tv: TV) -> (cmd: TVOnCommand)
        ensures
            cmd.tv == tv,
    {
        TVOnCommand { tv }
    }
}

/// The action that turns its receiver off.
#[derive(Clone, Copy)]
pub struct TVOffCommand {
    pub tv: TV,
}

impl TVOffCommand {
    pub fn new(tv: TV) -> (cmd: TVOffCommand)
        ensures
            cmd.tv == tv,
    {
        TVOffCommand { tv }
    }
}

/// A zero-argument invocable action: one of the closed set of commands,
/// each carrying its receiver. A command is immutable once bound; changing
/// the behavior behind a key requires rebinding, not mutating the command.
#[derive(Clone, Copy)]
pub enum Command {
    On(TVOnCommand),
    Off(TVOffCommand),
}

impl Command {
    /// The effect this command produces when executed.
    pub open spec fn spec_effect(&self) -> TVEffect {
        match self {
            Command::On(_) => TVEffect::SwitchedOn,
            Command::Off(_) => TVEffect::SwitchedOff,
        }
    }

    /// Executes the bound action on its receiver, exactly once.
    pub fn execute(&self) -> (effect: TVEffect)
        ensures
            effect == self.spec_effect(),
    {
        match self {
            Command::On(cmd) => cmd.tv.on(),
            Command::Off(cmd) => cmd.tv.off(),
        }
    }
}

/// The registry: a mapping from integer keys to bound commands.
pub struct TVRemoteControl {
    commands: HashMap<i32, Command>,
}

impl View for TVRemoteControl {
    type V = Map<i32, Command>;

    closed spec fn view(&self) -> Map<i32, Command> {
        self.commands@
    }
}

impl TVRemoteControl {
    /// A fresh registry with no bindings.
    pub fn new() -> (rc: TVRemoteControl)
        ensures
            rc@ == Map::<i32, Command>::empty(),
    {
        TVRemoteControl { commands: HashMap::new() }
    }

    /// Binds `cmd` to `idx`, overwriting any existing binding at that key
    /// with no warning: the last write wins.
    pub fn set_command(&mut self, idx: i32, cmd: Command)
        ensures
            final(self)@ == old(self)@.insert(idx, cmd),
    {
        self.commands.insert(idx, cmd);
    }

    /// Dispatches the command bound to `idx`: executes its effect exactly
    /// once if the key is bound, and returns `None` — a defined "no
    /// operation performed" outcome, not a failure — if and only if the key
    /// is unbound.
    pub fn press_button(&self, idx: i32) -> (outcome: Option<TVEffect>)
        ensures
            self@.contains_key(idx) ==> outcome == Some(self@[idx].spec_effect()),
            !self@.contains_key(idx) ==> outcome is None,
    {
        match self.commands.get(&idx) {
            Some(cmd) => Some(cmd.execute()),
            None => None,
        }
    }
}

} // verus!
