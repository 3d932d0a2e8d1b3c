use cursive::event::Event;
use cursive::view::View;
use cursive::views::SelectView;
use rject::project_view::{
    delete_selected, move_down, move_up, new_project_list, refresh_projects, selected_project,
    Alignment,
};

fn owned(v: &[&str]) -> Vec<String> {
    v.iter().map(|s| s.to_string()).collect()
}

fn values(view: &SelectView<String>) -> Vec<String> {
    view.iter().map(|(_, v)| v.clone()).collect()
}

#[test]
fn new_list_holds_projects_with_cursor_on_first() {
    let view = new_project_list(Alignment::Center, owned(&["/a", "/b"]));
    assert_eq!(values(&view), owned(&["/a", "/b"]));
    assert_eq!(view.selected_id(), Some(0));
    assert_eq!(selected_project(&view), Some("/a".to_string()));
}

#[test]
fn new_list_of_nothing_is_empty() {
    let view = new_project_list(Alignment::Left, Vec::new());
    assert!(view.is_empty());
    assert_eq!(selected_project(&view), None);
}

#[test]
fn refresh_replaces_projects_and_resets_cursor() {
    let mut view = new_project_list(Alignment::Center, owned(&["/a", "/b", "/c"]));
    let _ = view.set_selection(2);
    refresh_projects(&mut view, owned(&["/x", "/y"]));
    assert_eq!(values(&view), owned(&["/x", "/y"]));
    assert_eq!(view.selected_id(), Some(0));
}

#[test]
fn cursor_moves_within_list() {
    let mut view = new_project_list(Alignment::Center, owned(&["/a", "/b", "/c"]));
    let _ = move_up(&mut view);
    assert_eq!(view.selected_id(), Some(0));
    assert!(move_down(&mut view).is_some());
    assert_eq!(selected_project(&view), Some("/b".to_string()));
    assert!(move_down(&mut view).is_some());
    assert!(move_down(&mut view).is_some());
    assert_eq!(view.selected_id(), Some(2));
    let _ = move_up(&mut view);
    assert_eq!(view.selected_id(), Some(1));
    assert_eq!(values(&view), owned(&["/a", "/b", "/c"]));
}

#[test]
fn move_down_on_empty_list_does_nothing() {
    let mut view = new_project_list(Alignment::Center, Vec::new());
    assert!(move_down(&mut view).is_none());
    assert!(view.is_empty());
}

#[test]
fn empty_list_has_no_selection() {
    let mut view = new_project_list(Alignment::Center, Vec::new());
    assert_eq!(selected_project(&view), None);
    assert!(delete_selected(&mut view).is_none());
    assert_eq!(values(&view), Vec::<String>::new());
}

#[test]
fn delete_takes_selected_entry() {
    let mut view = new_project_list(Alignment::Center, owned(&["/a", "/b", "/c"]));
    let _ = view.set_selection(1);
    let removal = delete_selected(&mut view).unwrap();
    assert_eq!(removal.path, "/b");
    assert_eq!(values(&view), owned(&["/a", "/c"]));
    assert_eq!(view.selected_id(), Some(0));
}

#[test]
fn delete_first_entry_keeps_cursor_on_top() {
    let mut view = new_project_list(Alignment::Center, owned(&["/a", "/b"]));
    let removal = delete_selected(&mut view).unwrap();
    assert_eq!(removal.path, "/a");
    assert_eq!(values(&view), owned(&["/b"]));
    assert_eq!(selected_project(&view), Some("/b".to_string()));
}

#[test]
fn delete_last_remaining_entry_empties_list() {
    let mut view = new_project_list(Alignment::Center, owned(&["/only"]));
    let removal = delete_selected(&mut view).unwrap();
    assert_eq!(removal.path, "/only");
    assert!(view.is_empty());
    assert!(delete_selected(&mut view).is_none());
}

#[test]
fn new_list_jumps_to_typed_letter() {
    let mut view = new_project_list(Alignment::Center, owned(&["alpha", "beta", "gamma"]));
    let _ = view.on_event(Event::Char('g'));
    assert_eq!(selected_project(&view), Some("gamma".to_string()));
    let _ = view.on_event(Event::Char('b'));
    assert_eq!(selected_project(&view), Some("beta".to_string()));
}

#[test]
fn down_then_up_returns_cursor() {
    let mut view = new_project_list(Alignment::Right, owned(&["/a", "/b", "/c"]));
    let _ = view.set_selection(1);
    assert!(move_down(&mut view).is_some());
    let _ = move_up(&mut view);
    assert_eq!(view.selected_id(), Some(1));
    let _ = move_up(&mut view);
    assert!(move_down(&mut view).is_some());
    assert_eq!(view.selected_id(), Some(1));
}
