//! What is reported of the current account.

use gdrive::account::current::{current, selection_matters, Error, Status};

fn names(accounts: &[&str]) -> Vec<String> {
    accounts.iter().map(|name| name.to_string()).collect()
}

#[test]
fn no_accounts_when_the_store_is_empty() {
    assert_eq!(current(&names(&[]), false), Status::NoAccounts);
    assert_eq!(current(&names(&[]), true), Status::NoAccounts);
}

#[test]
fn no_account_selected_when_none_is_current() {
    assert_eq!(current(&names(&["a"]), false), Status::NoAccountSelected);
    assert_eq!(current(&names(&["a", "b", "c"]), false), Status::NoAccountSelected);
}

#[test]
fn selected_when_one_is_current() {
    assert_eq!(current(&names(&["a"]), true), Status::Selected);
    assert_eq!(current(&names(&["a", "b"]), true), Status::Selected);
}

#[test]
fn report_of_no_accounts_says_how_to_add_one() {
    assert_eq!(
        Status::NoAccounts.lines("ignored"),
        vec!["No accounts found", "Use `gdrive account add` to add an account."]
    );
}

#[test]
fn report_of_no_selection_says_how_to_select() {
    assert_eq!(
        Status::NoAccountSelected.lines("ignored"),
        vec![
            "No account has been selected",
            "Use `gdrive account list` to show all accounts.",
            "Use `gdrive account switch` to select an account.",
        ]
    );
}

#[test]
fn report_of_a_selection_is_the_name() {
    assert_eq!(Status::Selected.lines("work"), vec!["work"]);
    assert_eq!(Status::Selected.lines(""), vec![""]);
}

#[test]
fn store_failure_is_kept_as_it_is() {
    let error = Error::Config("unreadable".to_string());
    let Error::Config(cause) = error;
    assert_eq!(cause, "unreadable");
}

#[test]
fn selection_matters_unless_the_store_is_empty() {
    assert!(!selection_matters(&names(&[])));
    assert!(selection_matters(&names(&["a"])));
    assert!(selection_matters(&names(&["a", "b"])));
    assert_eq!(current(&names(&[]), false), current(&names(&[]), true));
    assert_ne!(current(&names(&["a"]), false), current(&names(&["a"]), true));
}
