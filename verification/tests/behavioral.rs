use design_patterns::chain_of_responsibility::{AHandler, BHandler, Chain, Client, Handler};
use design_patterns::command::{Command, TVEffect, TVOffCommand, TVOnCommand, TVRemoteControl, TV};
use design_patterns::iterator::Container;
use design_patterns::observer::{ConcreteObserver, Subject};
use design_patterns::state::Post;
use design_patterns::strategy::{Behaviour, Duck, FlyNoWay, FlyWithWings, MallardDuck, ModelDuck};

#[test]
fn broadcast_reaches_attached_observers_in_order() {
    let mut subject = Subject::new();
    subject.attach(ConcreteObserver { id: 1 });
    subject.attach(ConcreteObserver { id: 2 });
    assert_eq!(subject.notify_observers(), vec![1, 2]);

    subject.detach(ConcreteObserver { id: 2 });
    assert_eq!(subject.notify_observers(), vec![1]);
}

#[test]
fn attach_is_idempotent_and_detach_of_absent_is_a_noop() {
    let mut subject = Subject::new();
    subject.attach(ConcreteObserver { id: 1 });
    subject.attach(ConcreteObserver { id: 2 });
    subject.attach(ConcreteObserver { id: 1 });
    assert_eq!(subject.notify_observers(), vec![1, 2]);

    subject.detach(ConcreteObserver { id: 9 });
    assert_eq!(subject.notify_observers(), vec![1, 2]);

    subject.detach(ConcreteObserver { id: 1 });
    subject.attach(ConcreteObserver { id: 1 });
    assert_eq!(subject.notify_observers(), vec![2, 1]);
}

#[test]
fn chain_visits_handlers_in_link_order() {
    let h3 = AHandler::new("third".to_string());
    let mut h2 = AHandler::new("second".to_string());
    h2.set_next(Box::new(Chain::A(h3)));
    let mut h1 = AHandler::new("first".to_string());
    h1.set_next(Box::new(Chain::A(h2)));

    assert_eq!(h1.handle("r"), vec![
        "first handle the request: r".to_string(),
        "second handle the request: r".to_string(),
        "third handle the request: r".to_string(),
    ]);
}

#[test]
fn chain_without_successor_ends_silently() {
    let a1 = AHandler::new("dog".to_string());
    assert_eq!(Client::handle(&a1), vec!["dog handle the request: do something...".to_string()]);

    let mut b = BHandler::new();
    b.set_next(Box::new(Chain::A(a1)));
    let mut a2 = AHandler::new("cat".to_string());
    a2.set_next(Box::new(Chain::B(b)));
    assert_eq!(Client::handle(&a2), vec![
        "cat handle the request: do something...".to_string(),
        "BHandler handle the request: do something...".to_string(),
        "dog handle the request: do something...".to_string(),
    ]);
}

#[test]
fn dispatch_runs_the_bound_command_once() {
    let tv = TV::new();
    let mut remote_control = TVRemoteControl::new();
    assert_eq!(remote_control.press_button(0), None);

    remote_control.set_command(1, Command::On(TVOnCommand::new(tv)));
    remote_control.set_command(2, Command::Off(TVOffCommand::new(tv)));

    assert_eq!(remote_control.press_button(1), Some(TVEffect::SwitchedOn));
    assert_eq!(remote_control.press_button(2), Some(TVEffect::SwitchedOff));
    assert_eq!(remote_control.press_button(99), None);
}

#[test]
fn rebinding_a_key_overwrites_the_old_command() {
    let tv = TV::new();
    let mut remote_control = TVRemoteControl::new();
    remote_control.set_command(1, Command::On(TVOnCommand::new(tv)));
    remote_control.set_command(1, Command::Off(TVOffCommand::new(tv)));
    assert_eq!(remote_control.press_button(1), Some(TVEffect::SwitchedOff));
}

#[test]
fn post_shows_content_only_once_published() {
    let mut post = Post::new();
    post.add_text("X");
    assert_eq!(post.content(), "");

    post.request_review();
    assert_eq!(post.content(), "");

    post.approve();
    assert_eq!(post.content(), "X");
}

#[test]
fn approving_a_draft_directly_is_a_noop() {
    let mut post = Post::new();
    post.add_text("X");
    post.approve();
    assert_eq!(post.content(), "");

    post.request_review();
    post.approve();
    assert_eq!(post.content(), "X");
}

#[test]
fn published_post_ignores_further_triggers() {
    let mut post = Post::new();
    post.add_text("State is a behavioral design pattern.");
    post.request_review();
    post.approve();
    assert_eq!(post.content(), "State is a behavioral design pattern.");

    post.request_review();
    assert_eq!(post.content(), "State is a behavioral design pattern.");
    post.approve();
    assert_eq!(post.content(), "State is a behavioral design pattern.");
}

#[test]
fn swapping_the_behaviour_swaps_the_effect() {
    let mut mallard_duck = MallardDuck::new(Behaviour::WithWings(FlyWithWings));
    assert_eq!(mallard_duck.fly(), "i can fly!");

    mallard_duck.set_fly_behaviour(Behaviour::NoWay(FlyNoWay));
    assert_eq!(mallard_duck.fly(), "i can't fly!~~");

    let model_duck = ModelDuck::new(FlyNoWay);
    assert_eq!(model_duck.fly(), "i can't fly!~~");
}

#[test]
fn cursor_walks_the_container_in_order() {
    let mut c = Container::new();
    c.add_item(1);
    c.add_item(2);
    c.add_item(3);

    let mut iter = c.iter();
    assert!(iter.has_next());
    assert_eq!(iter.next(), Some(&1));

    iter.reset();
    let mut seen = Vec::new();
    while iter.has_next() {
        seen.push(*iter.next().unwrap());
    }
    assert_eq!(seen, vec![1, 2, 3]);
    assert_eq!(iter.next(), None);
    assert_eq!(iter.current(), None);
}
