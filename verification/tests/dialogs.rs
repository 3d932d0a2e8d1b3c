use rject::dialogs::{greeting, project_path_prompt, project_report, pwd_caption, pwd_entry, Popup};
use rject::projects::AddRefusal;

#[test]
fn empty_path_asks_for_one() {
    assert_eq!(project_path_prompt(""), Some("Enter Project Path:".to_string()));
    assert_eq!(project_path_prompt("/a"), None);
}

#[test]
fn report_confirms_or_explains() {
    assert_eq!(project_report("/home/me/p", None), "Project /home/me/p!");
    assert_eq!(project_report("/a", Some(AddRefusal::AlreadyListed)), "Project already exists!");
    assert_eq!(project_report("/a", Some(AddRefusal::NoSuchPath)), "Path does not exist!");
}

#[test]
fn pwd_texts() {
    assert_eq!(pwd_entry("/home/me"), "/home/me/");
    assert_eq!(pwd_caption("/home/me"), "pwd:\n/home/me/");
}

#[test]
fn greeting_sample() {
    assert_eq!(greeting(""), Popup::Info("Please enter a name!".to_string()));
    assert_eq!(greeting("Ada"), Popup::Message("Hello Ada!".to_string()));
}
