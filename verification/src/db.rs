//! Shared vocabulary of the data-access layer: the plain cell values a
//! fetched row consists of, the command a write operation hands back to
//! the storage layer, and the errors of form validation and deletion.

use vstd::prelude::*;
use vstd::string::StringExecFns;
use crate::entry::Type;
use crate::text::{int_str, i32_string};

verus! {

/// One cell of a fetched row, already freed of any driver-specific
/// representation: empty, text, or an integer.
#[derive(Debug, Clone)]
pub enum DbValue {
    Null,
    Text(String),
    Int(i32),
}

/// A write the core asks the storage layer to perform: the statement to
/// execute and the confirmation text to show once it succeeded.
#[derive(Debug, Clone)]
pub struct DbCommand {
    pub statement: String,
    pub confirmation: String,
}

/// Bad form input, reported as the first failing rule.
#[derive(Clone, Copy, Debug, PartialEq, Eq, Structural)]
pub enum ValidationError {
    MissingName,
    MissingDescription,
    MissingContact,
    MissingText,
    MissingPositions,
}

/// The user-facing message naming a failed validation rule.
pub open spec fn spec_validation_message(e: ValidationError) -> Seq<char> {
    match e {
        ValidationError::MissingName => "Fehlender Name."@,
        ValidationError::MissingDescription => "Fehlende Beschreibung."@,
        ValidationError::MissingContact => "Bitte geben Sie eine Telefonnummer oder Mailadresse an."@,
        ValidationError::MissingText => "Fehlender Text."@,
        ValidationError::MissingPositions => "Bitte geben Sie mindestens eine Position an, wo die Notiz angezeigt werden soll."@,
    }
}

impl ValidationError {
    /// The user-facing message for this validation failure.
    pub fn message(&self) -> (r: &'static str)
        ensures
            r@ == spec_validation_message(*self),
    {
        match *self {
            ValidationError::MissingName => "Fehlender Name.",
            ValidationError::MissingDescription => "Fehlende Beschreibung.",
            ValidationError::MissingContact => "Bitte geben Sie eine Telefonnummer oder Mailadresse an.",
            ValidationError::MissingText => "Fehlender Text.",
            ValidationError::MissingPositions => "Bitte geben Sie mindestens eine Position an, wo die Notiz angezeigt werden soll.",
        }
    }
}

/// The inline fragment a re-rendered form shows for a failed rule.
pub open spec fn spec_validation_fragment(msg: Seq<char>) -> Seq<char> {
    "<div class=\"alert alert-danger\"><strong>"@ + msg
        + "</strong> Bitte füllen Sie das Formular erneut aus.</div>"@
}

/// Renders the inline error fragment shown above a re-rendered form.
pub fn validation_fragment(msg: &str) -> (r: String)
    ensures
        r@ == spec_validation_fragment(msg@),
{
    let mut out = String::new();
    out.append("<div class=\"alert alert-danger\"><strong>");
    out.append(msg);
    out.append("</strong> Bitte füllen Sie das Formular erneut aus.</div>");
    out
}

/// A failed deletion: the route carried no id at all (a routing-contract
/// violation), or the id text is not a number.
#[derive(Debug, Clone)]
pub enum DeleteError {
    MissingId,
    BadId(String),
}

/// What a deletion error names: the kind's noun stem for entries, the
/// notice stem otherwise.
pub open spec fn spec_number_prefix(scope: Option<Type>) -> Seq<char> {
    match scope {
        Some(Type::Offer) => "Angebots"@,
        Some(Type::Request) => "Anfragen"@,
        None => "Notiz"@,
    }
}

/// The user-facing message for a failed deletion.
pub open spec fn spec_delete_error_message(e: DeleteError, scope: Option<Type>) -> Seq<char> {
    match e {
        DeleteError::MissingId => "Fehler beim Lesen der "@ + spec_number_prefix(scope)
            + "nummer."@,
        DeleteError::BadId(s) => "Die "@ + spec_number_prefix(scope) + "nummer \""@ + s@
            + "\" ist keine Nummer."@,
    }
}

impl DeleteError {
    /// The status a failed deletion is answered with: a missing id is a
    /// defect upstream, a malformed id is the caller's fault.
    pub fn status(&self) -> (s: u16)
        ensures
            s == (match *self {
                DeleteError::MissingId => 500u16,
                DeleteError::BadId(_) => 400u16,
            }),
    {
        match *self {
            DeleteError::MissingId => 500,
            DeleteError::BadId(_) => 400,
        }
    }

    /// The user-facing message, naming the offending id text when there
    /// is one.
    pub fn message(&self, scope: Option<Type>) -> (r: String)
        ensures
            r@ == spec_delete_error_message(*self, scope),
    {
        let prefix = match scope {
            Some(t) => t.map("Angebots", "Anfragen"),
            None => "Notiz",
        };
        match self {
            DeleteError::MissingId => {
                let mut out = String::new();
                out.append("Fehler beim Lesen der ");
                out.append(prefix);
                out.append("nummer.");
                out
            },
            DeleteError::BadId(s) => {
                let mut out = String::new();
                out.append("Die ");
                out.append(prefix);
                out.append("nummer \"");
                out.append(s.as_str());
                out.append("\" ist keine Nummer.");
                out
            },
        }
    }
}

/// The statement that deletes the row with the given id from the given
/// table.  Deletion is unconditional: an absent id deletes nothing and
/// still succeeds.
pub open spec fn spec_delete_statement(table: Seq<char>, id: int) -> Seq<char> {
    "DELETE FROM "@ + table + " WHERE id="@ + int_str(id)
}

/// Builds the deletion statement for one row of a table.
pub fn delete_statement(table: &str, id: i32) -> (r: String)
    ensures
        r@ == spec_delete_statement(table@, id as int),
{
    let mut out = String::new();
    out.append("DELETE FROM ");
    out.append(table);
    out.append(" WHERE id=");
    let num = i32_string(id);
    out.append(num.as_str());
    out
}

/// The statement that lists every row of the given table, in
/// storage-native order.
pub open spec fn spec_select_statement(table: Seq<char>) -> Seq<char> {
    "SELECT * FROM "@ + table
}

/// Builds the listing statement for a table.
pub fn select_statement(table: &str) -> (r: String)
    ensures
        r@ == spec_select_statement(table@),
{
    let mut out = String::new();
    out.append("SELECT * FROM ");
    out.append(table);
    out
}

} // verus!
