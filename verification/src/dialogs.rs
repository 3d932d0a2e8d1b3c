//! Texts of the dialogs shown when a project is added, for the working
//! directory, and for the greeting of the sample program.

use vstd::prelude::*;
use crate::projects::{AddRefusal, spec_refusal_text};

verus! {

/// When the path typed for a new project is empty, the dialog that asks for
/// one; `None` when a path was typed.
pub fn project_path_prompt(path: &str) -> (r: Option<String>)
    ensures
        r is Some <==> path@.len() == 0,
        r matches Some(m) ==> m@ == "Enter Project Path:"@,
{
    if path.is_empty() {
        Some("Enter Project Path:".to_owned())
    } else {
        None
    }
}

pub open spec fn spec_project_report(path: Seq<char>, refusal: Option<AddRefusal>) -> Seq<char> {
    match refusal {
        None => "Project "@ + path + "!"@,
        Some(r) => spec_refusal_text(r),
    }
}

/// The text shown after trying to add `path`: a confirmation naming it, or
/// why it was refused.
pub fn project_report(path: &str, refusal: Option<AddRefusal>) -> (r: String)
    ensures
        r@ == spec_project_report(path@, refusal),
{
    match refusal {
        None => "Project ".to_owned().concat(path).concat("!"),
        Some(reason) => reason.text(),
    }
}

/// The working directory as it is put into the path field: with a slash after it.
pub fn pwd_entry(dir: &str) -> (r: String)
    ensures
        r@ == dir@ + "/"@,
{
    dir.to_owned().concat("/")
}

/// The line under the new-project dialog that shows the working directory.
pub fn pwd_caption(dir: &str) -> (r: String)
    ensures
        r@ == "pwd:\n"@ + dir@ + "/"@,
{
    "pwd:\n".to_owned().concat(dir).concat("/")
}

/// A dialog: either a short notice asking for input, or a message.
#[derive(Debug, PartialEq, Eq)]
pub enum Popup {
    Info(String),
    Message(String),
}

/// The sample program's answer to a name: a request for one when it is
/// empty, else a greeting.
pub fn greeting(name: &str) -> (r: Popup)
    ensures
        name@.len() == 0 ==> (r matches Popup::Info(m) && m@ == "Please enter a name!"@),
        name@.len() > 0 ==> (r matches Popup::Message(m) && m@ == "Hello "@ + name@ + "!"@),
{
    if name.is_empty() {
        Popup::Info("Please enter a name!".to_owned())
    } else {
        Popup::Message("Hello ".to_owned().concat(name).concat("!"))
    }
}

} // verus!
