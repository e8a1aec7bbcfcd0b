//! The entry repository: one set of list, create, and delete operations
//! serving both entry kinds, parameterized by the kind descriptor.
//! Listing renders fetched rows into table fragments; creation validates
//! the form fields in a fixed order and hands back the storing command;
//! deletion parses the id out of the route and hands back the deleting
//! command.

use vstd::prelude::*;
use vstd::string::StringExecFns;
use crate::db::{DbCommand, DbValue, DeleteError, ValidationError, delete_statement,
    select_statement, spec_delete_statement, spec_select_statement};
use crate::entry::{Type, spec_article_capital, spec_noun, spec_plural, spec_table, spec_url_part};
use crate::escape::{mysql_escape_nullable, spec_escape_nullable};
use crate::text::{break_lines, i32_string, int_str, parse_i32, spec_parse_i32,
    replace_line_breaks};

verus! {

/// A stored entry as one fetched row decodes into it: the submitter's
/// name, the description, the optional contact fields, and, when the row
/// carried one, the row id used for deletion links.
#[derive(Debug, Clone)]
pub struct Entry {
    pub name: String,
    pub description: String,
    pub phone: Option<String>,
    pub mail: Option<String>,
    pub id: Option<i32>,
}

/// How an entry is read out of a fetched row: name, description, phone,
/// mail, id, in that order, with the contact fields and the id nullable.
/// Anything else does not decode.
pub open spec fn spec_decode_entry(row: Seq<DbValue>) -> Option<Entry> {
    if row.len() == 5 && row[0] is Text && row[1] is Text && (row[2] is Null || row[2] is Text)
        && (row[3] is Null || row[3] is Text) && (row[4] is Null || row[4] is Int) {
        Some(
            Entry {
                name: row[0]->Text_0,
                description: row[1]->Text_0,
                phone: if row[2] is Text {
                    Some(row[2]->Text_0)
                } else {
                    None
                },
                mail: if row[3] is Text {
                    Some(row[3]->Text_0)
                } else {
                    None
                },
                id: if row[4] is Int {
                    Some(row[4]->Int_0)
                } else {
                    None
                },
            },
        )
    } else {
        None
    }
}

/// Decodes one fetched row into an entry.
pub fn decode_entry_row(row: &Vec<DbValue>) -> (r: Option<Entry>)
    ensures
        r == spec_decode_entry(row@),
{
    if row.len() != 5 {
        return None;
    }
    let name: String = match &row[0] {
        DbValue::Text(s) => s.clone(),
        _ => {
            return None;
        },
    };
    let description: String = match &row[1] {
        DbValue::Text(s) => s.clone(),
        _ => {
            return None;
        },
    };
    let phone: Option<String> = match &row[2] {
        DbValue::Text(s) => Some(s.clone()),
        DbValue::Null => None,
        _ => {
            return None;
        },
    };
    let mail: Option<String> = match &row[3] {
        DbValue::Text(s) => Some(s.clone()),
        DbValue::Null => None,
        _ => {
            return None;
        },
    };
    let id: Option<i32> = match &row[4] {
        DbValue::Int(i) => Some(*i),
        DbValue::Null => None,
        _ => {
            return None;
        },
    };
    Some(Entry { name, description, phone, mail, id })
}

/// The contact link shown for a present mail address.
pub open spec fn spec_mail_link(mail: Seq<char>) -> Seq<char> {
    "<br /><a href=\"mailto:"@ + mail + "\">"@ + mail + "</a>"@
}

/// The contact link shown for a present phone number.
pub open spec fn spec_phone_link(phone: Seq<char>) -> Seq<char> {
    "<br /><a href=\"tel:"@ + phone + "\">"@ + phone + "</a>"@
}

/// The deletion link an administrator sees next to an entry that carries
/// its row id.
pub open spec fn spec_entry_delete_link(t: Type, id: int) -> Seq<char> {
    "<div style=\"float: right;\"><a href=\"/"@ + spec_url_part(t) + "/"@ + int_str(id)
        + "/loeschen\" class=\"btn btn-danger\"><i class=\"fa fa-trash-o\"></i></a></div>"@
}

/// The rendered table row for one decoded entry: the name with the
/// present contact links, then the description with line breaks rendered
/// as markup, preceded by the deletion link when an administrator is
/// looking and the row id is known.  Ids are shown to nobody else.
pub open spec fn spec_entry_fragment(t: Type, e: Entry, is_admin: bool) -> Seq<char> {
    "<tr><td>"@ + e.name@ + (match e.mail {
        Some(m) => spec_mail_link(m@),
        None => Seq::empty(),
    }) + (match e.phone {
        Some(p) => spec_phone_link(p@),
        None => Seq::empty(),
    }) + "</td><td>"@ + (if is_admin {
        match e.id {
            Some(id) => spec_entry_delete_link(t, id as int),
            None => Seq::empty(),
        }
    } else {
        Seq::empty()
    }) + break_lines(e.description@) + "</td></tr>"@
}

/// The fragment shown in place of a row that does not decode.
pub open spec fn spec_malformed_entry_fragment(t: Type) -> Seq<char> {
    "<tr><td></td><td style=\"color: gray; font-style: italic;\">"@ + (if t is Offer {
        "Fehlerhaftes Angebot"@
    } else {
        "Fehlerhafte Anfrage"@
    }) + ".</td></tr>"@
}

/// The fragment shown when the table holds no rows at all.
pub open spec fn spec_no_entries_fragment(t: Type) -> Seq<char> {
    "<tr><td></td><td style=\"color: gray; font-style: italic;\">Keine aktiven "@ + spec_plural(t)
        + ".</td></tr>"@
}

/// What one fetched row contributes to a listing.
pub open spec fn spec_entry_row_fragment(t: Type, row: Option<Vec<DbValue>>, is_admin: bool) -> Seq<
    char,
> {
    match row {
        None => spec_malformed_entry_fragment(t),
        Some(values) => match spec_decode_entry(values@) {
            None => spec_malformed_entry_fragment(t),
            Some(e) => spec_entry_fragment(t, e, is_admin),
        },
    }
}

/// Every row's contribution, in fetched order.
pub open spec fn spec_entry_fragments(t: Type, rows: Seq<Option<Vec<DbValue>>>, is_admin: bool) -> Seq<
    char,
>
    decreases rows.len(),
{
    if rows.len() == 0 {
        Seq::empty()
    } else {
        spec_entry_row_fragment(t, rows[0], is_admin) + spec_entry_fragments(
            t,
            rows.drop_first(),
            is_admin,
        )
    }
}

/// The whole rendered listing: the rows' fragments, or the empty-table
/// fragment when nothing is stored.
pub open spec fn spec_format_entries(t: Type, rows: Seq<Option<Vec<DbValue>>>, is_admin: bool) -> Seq<
    char,
> {
    if rows.len() == 0 {
        spec_no_entries_fragment(t)
    } else {
        spec_entry_fragments(t, rows, is_admin)
    }
}

proof fn lemma_entry_fragments_snoc(
    t: Type,
    rows: Seq<Option<Vec<DbValue>>>,
    row: Option<Vec<DbValue>>,
    is_admin: bool,
)
    ensures
        spec_entry_fragments(t, rows.push(row), is_admin) == spec_entry_fragments(
            t,
            rows,
            is_admin,
        ) + spec_entry_row_fragment(t, row, is_admin),
    decreases rows.len(),
{
    if rows.len() == 0 {
        let rp = rows.push(row);
        assert(rp.len() == 1 && rp[0] == row);
        assert(rp.drop_first() =~= Seq::<Option<Vec<DbValue>>>::empty());
        assert(spec_entry_fragments(t, rp.drop_first(), is_admin) == Seq::<char>::empty());
        assert(spec_entry_fragments(t, rp, is_admin) =~= spec_entry_row_fragment(
            t,
            row,
            is_admin,
        ));
        assert(spec_entry_fragments(t, rows, is_admin) + spec_entry_row_fragment(t, row, is_admin)
            =~= spec_entry_row_fragment(t, row, is_admin));
    } else {
        assert(rows.push(row).drop_first() =~= rows.drop_first().push(row));
        lemma_entry_fragments_snoc(t, rows.drop_first(), row, is_admin);
        assert(spec_entry_fragments(t, rows.push(row), is_admin) =~= spec_entry_fragments(
            t,
            rows,
            is_admin,
        ) + spec_entry_row_fragment(t, row, is_admin));
    }
}

/// Renders one decoded entry.
fn entry_fragment(t: Type, e: &Entry, is_admin: bool) -> (r: String)
    ensures
        r@ == spec_entry_fragment(t, *e, is_admin),
{
    let mut out = String::new();
    out.append("<tr><td>");
    out.append(e.name.as_str());
    match &e.mail {
        Some(m) => {
            out.append("<br /><a href=\"mailto:");
            out.append(m.as_str());
            out.append("\">");
            out.append(m.as_str());
            out.append("</a>");
        },
        None => {},
    }
    match &e.phone {
        Some(p) => {
            out.append("<br /><a href=\"tel:");
            out.append(p.as_str());
            out.append("\">");
            out.append(p.as_str());
            out.append("</a>");
        },
        None => {},
    }
    out.append("</td><td>");
    if is_admin {
        match &e.id {
            Some(id) => {
                out.append("<div style=\"float: right;\"><a href=\"/");
                out.append(t.url_part());
                out.append("/");
                let num = i32_string(*id);
                out.append(num.as_str());
                out.append("/loeschen\" class=\"btn btn-danger\"><i class=\"fa fa-trash-o\"></i></a></div>");
            },
            None => {},
        }
    }
    let description = replace_line_breaks(e.description.as_str());
    out.append(description.as_str());
    out.append("</td></tr>");
    out
}

/// Renders the malformed-row fragment for the kind.
fn malformed_entry_fragment(t: Type) -> (r: String)
    ensures
        r@ == spec_malformed_entry_fragment(t),
{
    let mut out = String::new();
    out.append("<tr><td></td><td style=\"color: gray; font-style: italic;\">");
    out.append(t.map("Fehlerhaftes Angebot", "Fehlerhafte Anfrage"));
    out.append(".</td></tr>");
    out
}

/// Renders the listing of a kind's table from its fetched rows, in
/// fetched order.  A row that does not decode is kept as a placeholder so
/// the shown count still reflects the stored state; it never aborts the
/// listing.  Deletion links appear only for an administrator.
pub fn format_entries(t: Type, rows: &Vec<Option<Vec<DbValue>>>, is_admin: bool) -> (r: String)
    ensures
        r@ == spec_format_entries(t, rows@, is_admin),
{
    if rows.len() == 0 {
        let mut out = String::new();
        out.append("<tr><td></td><td style=\"color: gray; font-style: italic;\">Keine aktiven ");
        out.append(t.german_plural());
        out.append(".</td></tr>");
        return out;
    }
    let mut out = String::new();
    let mut i: usize = 0;
    while i < rows.len()
        invariant
            0 <= i <= rows@.len(),
            out@ == spec_entry_fragments(t, rows@.take(i as int), is_admin),
        decreases rows@.len() - i,
    {
        proof {
            lemma_entry_fragments_snoc(t, rows@.take(i as int), rows@[i as int], is_admin);
            assert(rows@.take(i + 1) =~= rows@.take(i as int).push(rows@[i as int]));
        }
        match &rows[i] {
            None => {
                let frag = malformed_entry_fragment(t);
                out.append(frag.as_str());
            },
            Some(values) => match decode_entry_row(values) {
                None => {
                    let frag = malformed_entry_fragment(t);
                    out.append(frag.as_str());
                },
                Some(e) => {
                    let frag = entry_fragment(t, &e, is_admin);
                    out.append(frag.as_str());
                },
            },
        }
        i = i + 1;
    }
    proof {
        assert(rows@.take(rows@.len() as int) =~= rows@);
    }
    out
}

/// The statement that lists every row of the kind's table.
pub fn select_entries_statement(t: Type) -> (r: String)
    ensures
        r@ == spec_select_statement(spec_table(t)),
{
    select_statement(t.table())
}

/// The statement that stores a new entry, with every field escaped and
/// the empty contact fields stored as nulls.
pub open spec fn spec_insert_entry_statement(
    t: Type,
    name: Seq<char>,
    description: Seq<char>,
    phone: Seq<char>,
    mail: Seq<char>,
) -> Seq<char> {
    "INSERT INTO "@ + spec_table(t) + " (name, description, phone, mail) VALUES ("@
        + spec_escape_nullable(name) + ", "@ + spec_escape_nullable(description) + ", "@
        + spec_escape_nullable(phone) + ", "@ + spec_escape_nullable(mail) + ")"@
}

/// The kind-specific confirmation for a stored entry.
pub open spec fn spec_entry_confirmation(t: Type) -> Seq<char> {
    (if t is Offer {
        "Ihr Angebot"@
    } else {
        "Ihre Anfrage"@
    }) + " wurde eingetragen."@
}

/// Validates and stores a new entry.  The rules run in a fixed order —
/// the name must be present, then the description, then at least one of
/// phone and mail — and the first failing rule is reported with nothing
/// reaching storage.  On success the returned command stores the entry
/// and confirms it with the kind's vocabulary.
pub fn add_entry(t: Type, name: &str, description: &str, phone: &str, mail: &str) -> (r: Result<
    DbCommand,
    ValidationError,
>)
    ensures
        name@.len() == 0 ==> r == Err::<DbCommand, ValidationError>(ValidationError::MissingName),
        name@.len() > 0 && description@.len() == 0 ==> r == Err::<DbCommand, ValidationError>(
            ValidationError::MissingDescription,
        ),
        name@.len() > 0 && description@.len() > 0 && phone@.len() == 0 && mail@.len() == 0 ==> r
            == Err::<DbCommand, ValidationError>(ValidationError::MissingContact),
        name@.len() > 0 && description@.len() > 0 && (phone@.len() > 0 || mail@.len() > 0) ==> (
        r matches Ok(c) && c.statement@ == spec_insert_entry_statement(
            t,
            name@,
            description@,
            phone@,
            mail@,
        ) && c.confirmation@ == spec_entry_confirmation(t)),
{
    if name.is_empty() {
        return Err(ValidationError::MissingName);
    }
    if description.is_empty() {
        return Err(ValidationError::MissingDescription);
    }
    if phone.is_empty() && mail.is_empty() {
        return Err(ValidationError::MissingContact);
    }
    let mut statement = String::new();
    statement.append("INSERT INTO ");
    statement.append(t.table());
    statement.append(" (name, description, phone, mail) VALUES (");
    let escaped_name = mysql_escape_nullable(name);
    statement.append(escaped_name.as_str());
    statement.append(", ");
    let escaped_description = mysql_escape_nullable(description);
    statement.append(escaped_description.as_str());
    statement.append(", ");
    let escaped_phone = mysql_escape_nullable(phone);
    statement.append(escaped_phone.as_str());
    statement.append(", ");
    let escaped_mail = mysql_escape_nullable(mail);
    statement.append(escaped_mail.as_str());
    statement.append(")");
    let mut confirmation = String::new();
    confirmation.append(t.map("Ihr Angebot", "Ihre Anfrage"));
    confirmation.append(" wurde eingetragen.");
    Ok(DbCommand { statement, confirmation })
}

/// The kind-specific confirmation for a deleted entry.
pub open spec fn spec_delete_confirmation(t: Type) -> Seq<char> {
    spec_article_capital(t) + " "@ + spec_noun(t) + " wurde gelöscht."@
}

/// Deletes the entry named by a route's id parameter from the kind's
/// table.  A missing parameter is a routing-contract violation; a
/// non-numeric id is the caller's fault and names the offending text.
/// Deletion carries no existence check: deleting an id that is not
/// stored succeeds like any other.
pub fn del_entry(t: Type, id_param: Option<&str>) -> (r: Result<DbCommand, DeleteError>)
    ensures
        id_param is None ==> (r matches Err(e) && e is MissingId),
        id_param matches Some(s) ==> (if spec_parse_i32(s@) is None {
            r matches Err(e) && (e matches DeleteError::BadId(bad) && bad@ == s@)
        } else {
            r matches Ok(c) && c.statement@ == spec_delete_statement(
                spec_table(t),
                spec_parse_i32(s@)->0 as int,
            ) && c.confirmation@ == spec_delete_confirmation(t)
        }),
{
    match id_param {
        None => Err(DeleteError::MissingId),
        Some(s) => match parse_i32(s) {
            None => Err(DeleteError::BadId(s.to_owned())),
            Some(id) => {
                let mut confirmation = String::new();
                confirmation.append(t.german_article_capital());
                confirmation.append(" ");
                confirmation.append(t.german_noun());
                confirmation.append(" wurde gelöscht.");
                Ok(DbCommand { statement: delete_statement(t.table(), id), confirmation })
            },
        },
    }
}

} // verus!
