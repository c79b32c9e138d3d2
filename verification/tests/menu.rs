use kuber_rs::menu::MenuItem;

#[test]
fn menu_items_have_their_places() {
    assert_eq!(usize::from(&MenuItem::Home), 0);
    assert_eq!(usize::from(&MenuItem::Pods), 1);
}
