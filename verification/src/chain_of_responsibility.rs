//! A chain of responsibility: an ordered link of handlers, each with at
//! most one successor. A handler services the request and forwards it to
//! its successor in the same call stack; the absence of a successor ends
//! the chain silently. The handlers own their successors, so a cycle
//! cannot be built.
//!
//! Each handler contributes one trace entry for the request it saw; the
//! trace of a whole chain lists the handlers in exactly the order they
//! were linked, each once.

use vstd::prelude::*;
use vstd::string::StringExecFns;

verus! {

/// The entry a handler with label `label` contributes for `request`.
pub open spec fn entry_text(label: Seq<char>, request: Seq<char>) -> Seq<char> {
    label + " handle the request: "@ + request
}

/// The trace of an optional successor: empty where the chain ends.
pub open spec fn opt_trace(next: &Option<Box<Chain>>, request: Seq<char>) -> Seq<Seq<char>>
    decreases next,
{
    match next {
        Some(n) => n.trace(request),
        None => Seq::<Seq<char>>::empty(),
    }
}

/// A handler: it can process a request and pass it along the chain.
pub trait Handler: Sized {
    /// The entries this handler and its successors contribute, in order.
    spec fn trace(&self, request: Seq<char>) -> Seq<Seq<char>>;

    /// Processes `request`, then forwards it to the successor, if any, in
    /// the same call stack. The result is the full trace, in link order.
    fn handle(&self, request: &str) -> (entries: Vec<String>)
        ensures
            crate::string_views(entries@) == self.trace(request@),
    ;
}

/// A handler with a configurable name.
pub struct AHandler {
    pub name: String,
    pub next: Option<Box<Chain>>,
}

/// A handler with a fixed name.
pub struct BHandler {
    pub next: Option<Box<Chain>>,
}

/// A link of the chain: one of the closed set of handlers.
pub enum Chain {
    A(AHandler),
    B(BHandler),
}

impl AHandler {
    pub fn new(name: String) -> (h: AHandler)
        ensures
            h.name == name,
            h.next is None,
    {
        AHandler { name, next: None }
    }

    /// Installs or replaces this handler's single successor.
    pub fn set_next(&mut self, next: Box<Chain>)
        ensures
            final(self).next == Some(next),
            final(self).name == old(self).name,
    {
        self.next = Some(next);
    }

    fn entry(&self, request: &str) -> (e: String)
        ensures
            e@ == entry_text(self.name@, request@),
    {
        self.name.clone().concat(" handle the request: ").concat(request)
    }
}

impl Handler for AHandler {
    open spec fn trace(&self, request: Seq<char>) -> Seq<Seq<char>>
        decreases self,
    {
        seq![entry_text(self.name@, request)] + opt_trace(&self.next, request)
    }

    fn handle(&self, request: &str) -> (entries: Vec<String>)
        decreases self,
    {
        let mut entries: Vec<String> = Vec::new();
        entries.push(self.entry(request));
        if let Some(n) = &self.next {
            let mut rest = n.handle(request);
            entries.append(&mut rest);
        }
        proof {
            assert(crate::string_views(entries@) =~= self.trace(request@));
        }
        entries
    }
}

impl BHandler {
    pub fn new() -> (h: BHandler)
        ensures
            h.next is None,
    {
        BHandler { next: None }
    }

    /// Installs or replaces this handler's single successor.
    pub fn set_next(&mut self, next: Box<Chain>)
        ensures
            final(self).next == Some(next),
    {
        self.next = Some(next);
    }

    fn entry(&self, request: &str) -> (e: String)
        ensures
            e@ == entry_text("BHandler"@, request@),
    {
        String::from_str("BHandler").concat(" handle the request: ").concat(request)
    }
}

impl Handler for BHandler {
    open spec fn trace(&self, request: Seq<char>) -> Seq<Seq<char>>
        decreases self,
    {
        seq![entry_text("BHandler"@, request)] + opt_trace(&self.next, request)
    }

    fn handle(&self, request: &str) -> (entries: Vec<String>)
        decreases self,
    {
        let mut entries: Vec<String> = Vec::new();
        entries.push(self.entry(request));
        if let Some(n) = &self.next {
            let mut rest = n.handle(request);
            entries.append(&mut rest);
        }
        proof {
            assert(crate::string_views(entries@) =~= self.trace(request@));
        }
        entries
    }
}

impl Handler for Chain {
    open spec fn trace(&self, request: Seq<char>) -> Seq<Seq<char>>
        decreases self,
    {
        match self {
            Chain::A(h) => h.trace(request),
            Chain::B(h) => h.trace(request),
        }
    }

    fn handle(&self, request: &str) -> (entries: Vec<String>)
        decreases self,
    {
        match self {
            Chain::A(h) => h.handle(request),
            Chain::B(h) => h.handle(request),
        }
    }
}

/// Law: three handlers linked in the order first -> second -> third are
/// visited in exactly that order, once each, for any request. Together
/// with the contract of [`Handler::handle`], the entries a run returns are
/// exactly these, in this order.
pub proof fn lemma_linked_handlers_visited_in_order(
    h1: AHandler,
    h2: AHandler,
    h3: AHandler,
    request: Seq<char>,
)
    requires
        h1.next matches Some(c) && *c == Chain::A(h2),
        h2.next matches Some(c) && *c == Chain::A(h3),
        h3.next is None,
    ensures
        h1.trace(request) == seq![
            entry_text(h1.name@, request),
            entry_text(h2.name@, request),
            entry_text(h3.name@, request),
        ],
{
    assert(h3.trace(request) =~= seq![entry_text(h3.name@, request)]);
    assert(h2.trace(request) =~= seq![
        entry_text(h2.name@, request),
        entry_text(h3.name@, request),
    ]);
    assert(h1.trace(request) =~= seq![
        entry_text(h1.name@, request),
        entry_text(h2.name@, request),
        entry_text(h3.name@, request),
    ]);
}

/// The client: works with any handler through the [`Handler`] contract.
pub struct Client;

impl Client {
    /// Hands a fixed request to the front of a chain.
    pub fn handle<T: Handler>(h: &T) -> (entries: Vec<String>)
        ensures
            crate::string_views(entries@) == h.trace("do something..."@),
    {
        h.handle("do something...")
    }
}

} // verus!
