use mksnd::page::Page;
use mksnd::widgets::menu::{Element, Flow, Menu, ELEMENT_SIZE};

fn entry(data: &str, text: &str) -> Element<String> {
    Element { data: data.to_string(), text: text.to_string() }
}

#[test]
fn new_menu_has_its_elements_and_no_selection() {
    let elements = vec![entry("/a", "a"), entry("/b", "b")];
    let menu = Menu::new(elements.clone(), Flow::Vertical);
    assert_eq!(menu.elements(), &elements);
    assert_eq!(menu.selected(), &None);
    assert_eq!(menu.flow(), &Flow::Vertical);
    assert_eq!(menu.element_size(), 200);
    assert_eq!(ELEMENT_SIZE, 200);
}

#[test]
fn select_sets_the_selection_and_keeps_the_elements() {
    let elements = vec![entry("/a", "a"), entry("/b", "b")];
    let mut menu = Menu::new(elements.clone(), Flow::Horizontal);
    menu.select("/b".to_string());
    assert_eq!(menu.selected(), &Some("/b".to_string()));
    assert_eq!(menu.elements(), &elements);
    assert_eq!(menu.flow(), &Flow::Horizontal);
    menu.select("/a".to_string());
    assert_eq!(menu.selected(), &Some("/a".to_string()));
}

#[test]
fn select_accepts_data_that_no_element_carries() {
    let mut menu = Menu::new(vec![entry("/a", "a")], Flow::Vertical);
    menu.select("/missing".to_string());
    assert_eq!(menu.selected(), &Some("/missing".to_string()));
}

#[test]
fn set_elements_replaces_the_elements_and_keeps_the_selection() {
    let mut menu = Menu::new(vec![entry("/a", "a")], Flow::Vertical);
    menu.select("/a".to_string());
    let replaced = vec![entry("/x", "x"), entry("/y", "y"), entry("/z", "z")];
    menu.set_elements(replaced.clone());
    assert_eq!(menu.elements(), &replaced);
    assert_eq!(menu.selected(), &Some("/a".to_string()));
    menu.set_elements(Vec::new());
    assert!(menu.elements().is_empty());
}

#[test]
fn elements_compare_by_data_and_text() {
    assert_eq!(entry("/a", "a"), entry("/a", "a"));
    assert_ne!(entry("/a", "a"), entry("/a", "b"));
    assert_ne!(entry("/a", "a"), entry("/b", "a"));
    assert_ne!(Flow::Vertical, Flow::Horizontal);
}

#[test]
fn pages_are_copyable() {
    let page = Page::Editor;
    let copy = page;
    assert!(matches!(page, Page::Editor));
    assert!(matches!(copy, Page::Editor));
    assert!(matches!(Page::Sequencer, Page::Sequencer));
}
