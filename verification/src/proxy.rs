//! A proxy: a stand-in that controls access to a real subject, checking
//! access before the request goes through and logging it afterwards.

use vstd::prelude::*;
use vstd::string::StringExecFns;

verus! {

/// Common interface of the real subject and its proxies; a request yields
/// the trace of what was done to serve it, in order.
pub trait Subject: Sized {
    /// The trace a request against this subject yields.
    spec fn request_trace(&self) -> Seq<Seq<char>>;

    /// Serves a request.
    fn request(&self) -> (trace: Vec<String>)
        ensures
            crate::string_views(trace@) == self.request_trace(),
    ;
}

/// The subject with the core behavior.
pub struct RealSubject {}

impl Subject for RealSubject {
    open spec fn request_trace(&self) -> Seq<Seq<char>> {
        seq!["RealSubject: handling request."@]
    }

    fn request(&self) -> (trace: Vec<String>) {
        let mut trace: Vec<String> = Vec::new();
        trace.push(String::from_str("RealSubject: handling request."));
        proof {
            assert(crate::string_views(trace@) =~= self.request_trace());
        }
        trace
    }
}

/// The proxy: checks access, passes the request to the real subject it
/// borrows, and logs the access.
pub struct Proxy<'a> {
    real_subject: &'a RealSubject,
}

impl<'a> Proxy<'a> {
    pub fn new(real_subject: &'a RealSubject) -> (proxy: Proxy<'a>)
        ensures
            proxy.request_trace() == seq![
                "Proxy: checking access prior to firing a real request."@,
                "RealSubject: handling request."@,
                "Proxy: logging the request."@,
            ],
    {
        Proxy { real_subject }
    }

    /// Decides whether the request may go through; here every request may.
    fn check_access(&self) -> (ok: bool)
        ensures
            ok,
    {
        true
    }

    /// The log entry written after a served request.
    fn log_access(&self) -> (entry: String)
        ensures
            entry@ == "Proxy: logging the request."@,
    {
        String::from_str("Proxy: logging the request.")
    }
}

impl<'a> Subject for Proxy<'a> {
    open spec fn request_trace(&self) -> Seq<Seq<char>> {
        seq![
            "Proxy: checking access prior to firing a real request."@,
            "RealSubject: handling request."@,
            "Proxy: logging the request."@,
        ]
    }

    fn request(&self) -> (trace: Vec<String>) {
        let mut trace: Vec<String> = Vec::new();
        if self.check_access() {
            trace.push(String::from_str("Proxy: checking access prior to firing a real request."));
            let mut rest = self.real_subject.request();
            proof {
                let inner = (*self.real_subject).request_trace();
                assert(crate::string_views(rest@).len() == rest@.len());
                assert(rest@[0]@ == inner[0]) by {
                    assert(crate::string_views(rest@)[0] == rest@[0]@);
                }
            }
            trace.append(&mut rest);
            trace.push(self.log_access());
        }
        proof {
            assert(crate::string_views(trace@) =~= self.request_trace());
        }
        trace
    }
}

/// The client code: works with real subjects and proxies alike.
pub struct Client;

impl Client {
    pub fn client_code<T: Subject>(subject: &T) -> (trace: Vec<String>)
        ensures
            crate::string_views(trace@) == subject.request_trace(),
    {
        subject.request()
    }
}

} // verus!
