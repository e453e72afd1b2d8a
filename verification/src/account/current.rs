//! Which account the client works with.
//!
//! The account store is read by whoever calls: [`current`] takes what was
//! found there and says what there is to report.

use vstd::prelude::*;
use vstd::string::StringExecFns;

verus! {

/// Why the current account could not be reported: the account store failed,
/// with the error `E` of that store.
#[derive(Debug)]
pub enum Error<E> {
    Config(E),
}

/// What there is to report of the current account.
#[derive(Clone, Copy, Debug, PartialEq, Eq)]
pub enum Status {
    /// No account is known.
    NoAccounts,
    /// Accounts are known, and none of them is selected.
    NoAccountSelected,
    /// An account is selected.
    Selected,
}

impl Status {
    /// The status of a store with `account_count` accounts, of which one is
    /// selected if `has_current_account`.
    pub open spec fn of(account_count: nat, has_current_account: bool) -> Status {
        if account_count == 0 {
            Status::NoAccounts
        } else if !has_current_account {
            Status::NoAccountSelected
        } else {
            Status::Selected
        }
    }

    /// Whether the status of a store with `account_count` accounts depends on
    /// whether one of them is selected.
    pub open spec fn depends_on_selection(account_count: nat) -> bool {
        Status::of(account_count, true) != Status::of(account_count, false)
    }

    /// The lines of the report, where `account_name` is the name of the selected account.
    pub open spec fn report(self, account_name: Seq<char>) -> Seq<Seq<char>> {
        match self {
            Status::NoAccounts => seq![
                "No accounts found"@,
                "Use `gdrive account add` to add an account."@,
            ],
            Status::NoAccountSelected => seq![
                "No account has been selected"@,
                "Use `gdrive account list` to show all accounts."@,
                "Use `gdrive account switch` to select an account."@,
            ],
            Status::Selected => seq![account_name],
        }
    }

    /// The lines to print for this status, in their order. For a selected
    /// account this is its name, `account_name`; otherwise it says what to do
    /// to get one, and `account_name` plays no part.
    pub fn lines(&self, account_name: &str) -> (lines: Vec<String>)
        ensures
            lines.deep_view() == self.report(account_name@),
    {
        let mut lines: Vec<String> = Vec::new();
        match self {
            Status::NoAccounts => {
                lines.push(String::from_str("No accounts found"));
                lines.push(String::from_str("Use `gdrive account add` to add an account."));
            },
            Status::NoAccountSelected => {
                lines.push(String::from_str("No account has been selected"));
                lines.push(String::from_str("Use `gdrive account list` to show all accounts."));
                lines.push(String::from_str("Use `gdrive account switch` to select an account."));
            },
            Status::Selected => {
                lines.push(String::from_str(account_name));
            },
        }
        assert(lines.deep_view() =~= self.report(account_name@));
        lines
    }
}

/// Tells whether the store has to be asked if an account is selected: it has,
/// unless it knows no account, for then the status is `NoAccounts` either way.
pub fn selection_matters(accounts: &Vec<String>) -> (matters: bool)
    ensures
        matters == Status::depends_on_selection(accounts@.len()),
        matters == (accounts@.len() != 0),
{
    accounts.len() != 0
}

/// Says what there is to report of the current account, given the accounts
/// that the store knows and whether one of them is selected.
pub fn current(accounts: &Vec<String>, has_current_account: bool) -> (status: Status)
    ensures
        status == Status::of(accounts@.len(), has_current_account),
{
    if accounts.len() == 0 {
        Status::NoAccounts
    } else if !has_current_account {
        Status::NoAccountSelected
    } else {
        Status::Selected
    }
}

} // verus!
