use design_patterns::abstract_factory::{Application, Button, Checkbox, GUIFactory, OsFactory};
use design_patterns::builder::{Builder, ContreteBuilder1, ContreteBuilder2, Director};
use design_patterns::factory::{Knife, KnifeFactory, KnifeStore, SteakFactory};
use design_patterns::singleton::SharedCell;

#[test]
fn test() {
    let factory = SteakFactory::new();
    let store = KnifeStore::new(&factory);
    let _knife = store.order_knife();
}

#[test]
fn ordered_knife_is_sellable() {
    let factory = SteakFactory::new();
    let fresh = factory.create_knife();
    assert!(!fresh.is_sellable());

    let store = KnifeStore::new(&factory);
    let knife = store.order_knife();
    assert!(knife.is_sellable());
}

#[test]
fn making_sellable_by_hand_matches_the_store() {
    let factory = SteakFactory::new();
    let mut knife = factory.create_knife();
    assert!(!knife.is_sellable());
    knife.make_sellable();
    assert!(knife.is_sellable());
}

#[test]
fn builder_one_assembles_in_order() {
    let mut director = Director::new(ContreteBuilder1::new());
    director.construct();
    let mut builder = director.builder;
    let product = builder.get_product();
    assert_eq!(product.list_parts(), &vec![
        "part a1".to_string(),
        "part b1".to_string(),
        "part c1".to_string(),
    ]);
}

#[test]
fn builder_two_assembles_its_own_parts() {
    let mut director = Director::new(ContreteBuilder2::new());
    director.construct();
    let mut builder = director.builder;
    let product = builder.get_product();
    assert_eq!(product.list_parts(), &vec![
        "part a ~~~~ 2".to_string(),
        "part b ~~~~ 2".to_string(),
        "part c ~~~~ 2".to_string(),
    ]);
}

#[test]
fn taking_the_product_resets_the_builder() {
    let mut builder = ContreteBuilder1::new();
    builder.produce_part_a();
    let first = builder.get_product();
    assert_eq!(first.list_parts().len(), 1);

    let empty = builder.get_product();
    assert_eq!(empty.list_parts().len(), 0);

    builder.produce_part_b();
    let second = builder.get_product();
    assert_eq!(second.list_parts(), &vec!["part b1".to_string()]);
}

#[test]
fn gui_factory_families_paint_their_own_widgets() {
    let mac_app = Application::new_gui_factory("mac");
    assert_eq!(mac_app.create_button().paint(), "mac os button");
    assert_eq!(mac_app.create_checkbox().paint(), "mac os checkbox");

    let win_app = Application::new_gui_factory("win");
    assert_eq!(win_app.create_button().paint(), "windows os button");
    assert_eq!(win_app.create_checkbox().paint(), "windows os checkbox");
}

#[test]
fn unknown_gui_family_is_refused() {
    assert!(matches!(Application::try_new_gui_factory("mac"), Some(OsFactory::Mac(_))));
    assert!(matches!(Application::try_new_gui_factory("win"), Some(OsFactory::Win(_))));
    assert!(Application::try_new_gui_factory("linux").is_none());
    assert!(Application::try_new_gui_factory("").is_none());
}

#[test]
fn shared_cell_constructs_exactly_once() {
    let cell: SharedCell<u64> = SharedCell::new();
    assert_eq!(cell.init_count(), 0);
    assert!(!cell.is_initialized());

    assert_eq!(cell.get(|| 41), 41);
    assert_eq!(cell.init_count(), 1);
    assert!(cell.is_initialized());

    assert_eq!(cell.get(|| 99), 41);
    assert_eq!(cell.init_count(), 1);

    cell.get_or_init(|| 123);
    assert_eq!(cell.init_count(), 1);
    assert_eq!(cell.read(), Some(41));
}

#[test]
fn shared_cell_write_is_seen_by_the_next_reader() {
    let cell: SharedCell<u64> = SharedCell::new();
    assert!(!cell.set(7));
    assert_eq!(cell.read(), None);

    cell.get_or_init(|| 1);
    assert!(cell.set(7));
    assert_eq!(cell.read(), Some(7));
    assert_eq!(cell.init_count(), 1);
}

#[test]
fn shared_cell_holds_an_owned_configuration() {
    let cell: SharedCell<String> = SharedCell::new();
    cell.get_or_init(|| "test config".to_string());
    assert_eq!(cell.read_cloned(), Some("test config".to_string()));

    assert!(cell.set("hello".to_string()));
    assert_eq!(cell.read_cloned(), Some("hello".to_string()));
    assert_eq!(cell.init_count(), 1);
}
