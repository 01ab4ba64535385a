use std::rc::Rc;

use design_patterns::adapter::{Adaptee, Adapter, Client, DefaultTarget, Target};
use design_patterns::decorator::{Component, ConcreteComponent, ConcreteDecoratorA, ConcreteDecoratorB};
use design_patterns::proxy::{Proxy, RealSubject, Subject};

#[test]
fn adapter_translates_the_specific_request() {
    assert_eq!(
        DefaultTarget.get_request(),
        "Target: The default target's behavior.".to_string()
    );

    let adaptee = Rc::new(Adaptee::new("hello world".to_string()));
    assert_eq!(adaptee.specific_request(), "specific request: hello world".to_string());

    let adapter = Adapter::new(adaptee);
    assert_eq!(
        Client::client_code(&adapter),
        "Adapter: specific request: hello world".to_string()
    );
}

#[test]
fn decorators_wrap_the_component_to_any_depth() {
    let component = Rc::new(ConcreteComponent {});
    assert_eq!(component.operation(), "ConcreteComponent".to_string());

    let decorator_a = ConcreteDecoratorA::new(component.clone());
    assert_eq!(
        decorator_a.operation(),
        "ConcreteDecoratorA: ConcreteComponent".to_string()
    );

    let decorator_b = ConcreteDecoratorB::new(Rc::new(decorator_a));
    assert_eq!(
        decorator_b.operation(),
        "ConcreteDecoratorB: ConcreteDecoratorA: ConcreteComponent".to_string()
    );
}

#[test]
fn proxy_checks_serves_and_logs() {
    let real_subject = RealSubject {};
    assert_eq!(real_subject.request(), vec!["RealSubject: handling request.".to_string()]);

    let proxy = Proxy::new(&real_subject);
    assert_eq!(proxy.request(), vec![
        "Proxy: checking access prior to firing a real request.".to_string(),
        "RealSubject: handling request.".to_string(),
        "Proxy: logging the request.".to_string(),
    ]);
}
