//! The selectable list of projects on the main view: making it, refreshing
//! it, moving the cursor, reading the selection and deleting the selected
//! entry.

use vstd::prelude::*;
use cursive::align::HAlign;
use cursive::event::Callback;
use cursive::views::SelectView;

verus! {

#[verifier::external_type_specification]
#[verifier::external_body]
#[verifier::reject_recursive_types(T)]
pub struct ExSelectView<T>(SelectView<T>);

#[verifier::external_type_specification]
#[verifier::external_body]
pub struct ExCallback(Callback);

/// How the entries of the list are aligned horizontally.
#[derive(Clone, Copy, Debug, PartialEq, Eq, Structural)]
pub enum Alignment {
    Left,
    Center,
    Right,
}

/// The values of the items of a selectable list of strings, in display order.
pub uninterp spec fn select_items(view: SelectView<String>) -> Seq<Seq<char>>;

/// The index of the item a selectable list has the cursor on (the value of
/// the view's shared cursor cell, which only the view's own methods change here).
pub uninterp spec fn select_focus(view: SelectView<String>) -> nat;

/// The horizontal alignment a selectable list was set up with.
pub uninterp spec fn select_h_align(view: SelectView<String>) -> Alignment;

/// Whether typing a letter on a selectable list jumps to the next item
/// starting with it.
pub uninterp spec fn select_autojump(view: SelectView<String>) -> bool;

/// Two lists with the same alignment and the same autojump setting.
pub open spec fn same_settings(a: SelectView<String>, b: SelectView<String>) -> bool {
    select_h_align(a) == select_h_align(b) && select_autojump(a) == select_autojump(b)
}

/// A list whose cursor is on an item, or which is empty with the cursor at
/// index 0, and which has no more items than a `usize` counts. Every list
/// made and changed by this module is so.
pub open spec fn cursor_on_item(view: SelectView<String>) -> bool {
    let n = select_items(view).len();
    &&& n <= usize::MAX
    &&& if n > 0 { select_focus(view) < n } else { select_focus(view) == 0 }
}

/// `SelectView::new`: a list with no items, the cursor on index 0, aligned
/// left, without autojump.
#[verifier::external_body]
fn select_new() -> (view: SelectView<String>)
    ensures
        select_items(view) == Seq::<Seq<char>>::empty(),
        select_focus(view) == 0,
        select_h_align(view) == Alignment::Left,
        !select_autojump(view),
{
    SelectView::new()
}

/// `SelectView::h_align`: sets how the items are aligned horizontally; the
/// items, the cursor and autojump stay as they are.
#[verifier::external_body]
fn h_align(view: SelectView<String>, align: Alignment) -> (r: SelectView<String>)
    ensures
        select_items(r) == select_items(view),
        select_focus(r) == select_focus(view),
        select_h_align(r) == align,
        select_autojump(r) == select_autojump(view),
{
    let h = match align {
        Alignment::Left => HAlign::Left,
        Alignment::Center => HAlign::Center,
        Alignment::Right => HAlign::Right,
    };
    view.h_align(h)
}

/// `SelectView::autojump`: makes a typed letter jump to the next item starting
/// with it; the items, the cursor and the alignment stay as they are.
#[verifier::external_body]
fn autojump(view: SelectView<String>) -> (r: SelectView<String>)
    ensures
        select_items(r) == select_items(view),
        select_focus(r) == select_focus(view),
        select_h_align(r) == select_h_align(view),
        select_autojump(r),
{
    view.autojump()
}

/// `SelectView::select_up`: moves the cursor up `n` rows, stopping at the
/// first row; the items and settings stay. The result is the callback for
/// the change.
#[verifier::external_body]
fn select_up(view: &mut SelectView<String>, n: usize) -> (cb: Callback)
    ensures
        select_items(*final(view)) == select_items(*old(view)),
        same_settings(*final(view), *old(view)),
        select_focus(*final(view)) == if select_focus(*old(view)) >= n {
            (select_focus(*old(view)) - n) as nat
        } else {
            0
        },
{
    view.select_up(n)
}

/// `SelectView::select_down`: moves the cursor down `n` rows, stopping at the
/// last row (index 0 for an empty list); the items and settings stay. The
/// result is the callback for the change. The source adds `n` to the cursor
/// index, which must not overflow.
#[verifier::external_body]
fn select_down(view: &mut SelectView<String>, n: usize) -> (cb: Callback)
    requires
        select_focus(*old(view)) + n <= usize::MAX,
    ensures
        select_items(*final(view)) == select_items(*old(view)),
        same_settings(*final(view), *old(view)),
        select_focus(*final(view)) == if select_items(*old(view)).len() == 0 {
            0
        } else if select_focus(*old(view)) + n <= select_items(*old(view)).len() - 1 {
            (select_focus(*old(view)) + n) as nat
        } else {
            (select_items(*old(view)).len() - 1) as nat
        },
{
    view.select_down(n)
}

/// `SelectView::add_all_str`: appends one item per string, in order, each with
/// the string as label and value; the cursor and settings do not change. The
/// items are held in a `Vec`, so their number fits a `usize`.
#[verifier::external_body]
fn add_all_str(view: &mut SelectView<String>, items: Vec<String>)
    ensures
        select_items(*final(view)) == select_items(*old(view)) + items.deep_view(),
        select_items(*final(view)).len() <= usize::MAX,
        select_focus(*final(view)) == select_focus(*old(view)),
        same_settings(*final(view), *old(view)),
{
    view.add_all_str(items)
}

/// `SelectView::clear`: removes every item and puts the cursor on index 0;
/// the settings stay.
#[verifier::external_body]
fn clear(view: &mut SelectView<String>)
    ensures
        select_items(*final(view)) == Seq::<Seq<char>>::empty(),
        select_focus(*final(view)) == 0,
        same_settings(*final(view), *old(view)),
{
    view.clear()
}

/// `SelectView::selection`: the value under the cursor, or `None` when the
/// cursor is not on an item.
#[verifier::external_body]
fn selection(view: &SelectView<String>) -> (r: Option<String>)
    ensures
        r is Some <==> select_focus(*view) < select_items(*view).len(),
        r matches Some(s) ==> s@ == select_items(*view)[select_focus(*view) as int],
{
    view.selection().map(|s| String::clone(&s))
}

/// `SelectView::selected_id`: the cursor's index, or `None` for an empty list.
#[verifier::external_body]
fn selected_id(view: &SelectView<String>) -> (r: Option<usize>)
    ensures
        r is None <==> select_items(*view).len() == 0,
        r matches Some(i) ==> i == select_focus(*view),
{
    view.selected_id()
}

/// `SelectView::remove_item`: removes the item at `id`; the cursor moves up
/// one row when it was at or below `id` and not on the first row; the settings
/// stay. The result is the callback to run for the selection change.
#[verifier::external_body]
fn remove_item(view: &mut SelectView<String>, id: usize) -> (cb: Callback)
    requires
        id < select_items(*old(view)).len(),
    ensures
        select_items(*final(view)) == select_items(*old(view)).remove(id as int),
        same_settings(*final(view), *old(view)),
        select_focus(*final(view)) == if select_focus(*old(view)) >= id && select_focus(*old(view)) > 0 {
            (select_focus(*old(view)) - 1) as nat
        } else {
            select_focus(*old(view))
        },
{
    view.remove_item(id)
}

/// A new list of the projects, in order, aligned as `align` says, with the
/// cursor on the first one and typed letters jumping to matching entries.
pub fn new_project_list(align: Alignment, projects: Vec<String>) -> (view: SelectView<String>)
    ensures
        select_items(view) == projects.deep_view(),
        select_focus(view) == 0,
        select_h_align(view) == align,
        select_autojump(view),
        cursor_on_item(view),
{
    let view = select_new();
    let view = h_align(view, align);
    let mut view = autojump(view);
    add_all_str(&mut view, projects);
    assert(Seq::<Seq<char>>::empty() + projects.deep_view() =~= projects.deep_view());
    view
}

/// The cursor index after one row up.
pub open spec fn spec_up(focus: nat) -> nat {
    if focus > 0 { (focus - 1) as nat } else { 0 }
}

/// The cursor index after one row down on a list of `len` items.
pub open spec fn spec_down(focus: nat, len: nat) -> nat {
    if len == 0 {
        0
    } else if focus + 1 < len {
        focus + 1
    } else {
        (len - 1) as nat
    }
}

/// Moves the cursor up one row (it stays on the first row); the entries and
/// settings stay.
pub fn move_up(view: &mut SelectView<String>) -> (cb: Callback)
    ensures
        select_items(*final(view)) == select_items(*old(view)),
        same_settings(*final(view), *old(view)),
        select_focus(*final(view)) == spec_up(select_focus(*old(view))),
        cursor_on_item(*old(view)) ==> cursor_on_item(*final(view)),
{
    select_up(view, 1)
}

/// Moves the cursor down one row (it stays on the last row); the entries and
/// settings stay. On an empty list, or should the cursor index be the largest
/// `usize`, nothing is done and the result is `None`; on a list whose cursor
/// is on an item that means: exactly when the list is empty.
pub fn move_down(view: &mut SelectView<String>) -> (r: Option<Callback>)
    ensures
        r is Some <==> select_items(*old(view)).len() > 0 && select_focus(*old(view)) < usize::MAX,
        cursor_on_item(*old(view)) ==> (r is Some <==> select_items(*old(view)).len() > 0),
        r is None ==> *final(view) == *old(view),
        r is Some ==> select_items(*final(view)) == select_items(*old(view)),
        r is Some ==> same_settings(*final(view), *old(view)),
        r is Some ==> select_focus(*final(view)) == spec_down(
            select_focus(*old(view)),
            select_items(*old(view)).len(),
        ),
        cursor_on_item(*old(view)) ==> cursor_on_item(*final(view)),
{
    match selected_id(view) {
        Some(focus) => {
            if focus < usize::MAX {
                Some(select_down(view, 1))
            } else {
                None
            }
        },
        None => None,
    }
}

/// One row down moves the cursor on by exactly one row, except on the last
/// row, where it stays; it never leaves the list. One row up moves it back
/// by exactly one row, except on the first row, where it stays.
pub proof fn lemma_moves_are_single_steps(focus: nat, len: nat)
    requires
        focus < len,
    ensures
        focus <= spec_down(focus, len) <= focus + 1,
        spec_down(focus, len) < len,
        spec_down(focus, len) == focus <==> focus + 1 == len,
        spec_up(focus) <= focus,
        focus <= spec_up(focus) + 1,
        spec_up(focus) == focus <==> focus == 0,
{
}

/// With the cursor on an item of a list of `len` items, one row down and then
/// one row up returns the cursor where it was unless it was on the last row,
/// and one row up and then one row down returns it unless it was on the first.
pub proof fn lemma_down_up_inverse(focus: nat, len: nat)
    requires
        focus < len,
    ensures
        focus + 1 < len ==> spec_up(spec_down(focus, len)) == focus,
        focus > 0 ==> spec_down(spec_up(focus), len) == focus,
{
}

/// Replaces the items of the list by the projects, in order, with the cursor
/// on the first one; the settings stay.
pub fn refresh_projects(view: &mut SelectView<String>, projects: Vec<String>)
    ensures
        select_items(*final(view)) == projects.deep_view(),
        select_focus(*final(view)) == 0,
        same_settings(*final(view), *old(view)),
        cursor_on_item(*final(view)),
{
    clear(view);
    add_all_str(view, projects);
    assert(Seq::<Seq<char>>::empty() + projects.deep_view() =~= projects.deep_view());
}

/// The project under the cursor, if the cursor is on one; on a list whose
/// cursor is on an item, there is one exactly when the list is not empty.
pub fn selected_project(view: &SelectView<String>) -> (r: Option<String>)
    ensures
        r is Some <==> select_focus(*view) < select_items(*view).len(),
        cursor_on_item(*view) ==> (r is Some <==> select_items(*view).len() > 0),
        r matches Some(s) ==> s@ == select_items(*view)[select_focus(*view) as int],
{
    selection(view)
}

/// A project taken off the list: its path, and the callback to run for the
/// selection change.
pub struct Removal {
    pub path: String,
    pub callback: Callback,
}

/// Takes the project under the cursor off the list. When the cursor is on no
/// item nothing changes and the result is `None`; on a list whose cursor is on
/// an item, that happens exactly when the list is empty.
pub fn delete_selected(view: &mut SelectView<String>) -> (r: Option<Removal>)
    ensures
        r is Some <==> select_focus(*old(view)) < select_items(*old(view)).len(),
        cursor_on_item(*old(view)) ==> (r is Some <==> select_items(*old(view)).len() > 0),
        r is None ==> *final(view) == *old(view),
        r matches Some(removal) ==> {
            let focus = select_focus(*old(view));
            &&& removal.path@ == select_items(*old(view))[focus as int]
            &&& select_items(*final(view)) == select_items(*old(view)).remove(focus as int)
            &&& select_focus(*final(view)) == spec_up(focus)
            &&& same_settings(*final(view), *old(view))
        },
        cursor_on_item(*old(view)) ==> cursor_on_item(*final(view)),
{
    match selection(view) {
        None => None,
        Some(path) => {
            match selected_id(view) {
                None => None,
                Some(id) => {
                    let callback = remove_item(view, id);
                    Some(Removal { path, callback })
                },
            }
        },
    }
}

} // verus!
