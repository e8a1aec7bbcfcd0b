//! Notices: administrator-authored announcements shown on selected pages.
//! Each notice carries a position set over the three pages that can show
//! it, serialized for storage as a comma-joined list of position names in
//! fixed order and parsed back by substring containment.

use vstd::prelude::*;
use vstd::string::StringExecFns;
use crate::db::{DbCommand, DbValue, DeleteError, ValidationError, delete_statement,
    select_statement, spec_delete_statement, spec_select_statement};
use crate::entry::Type;
use crate::escape::{mysql_escape_nullable, spec_escape_nullable};
use crate::text::{contains_chars, i32_string, int_str, lemma_absent_char_not_contained,
    lemma_longer_not_contained, matches_at, parse_i32, seq_contains, spec_parse_i32, str_chars};

verus! {

/// The pages a notice can be shown on: the index page and the two
/// creation forms.
#[derive(Clone, Copy, Debug, PartialEq, Eq, Structural)]
pub struct NoticePositions {
    pub index: bool,
    pub create_offer: bool,
    pub create_request: bool,
}

/// A position set holds the requested scope: a kind names that kind's
/// creation form, no kind names the index page.
pub open spec fn spec_contains(p: NoticePositions, pos: Option<Type>) -> bool {
    match pos {
        Some(Type::Offer) => p.create_offer,
        Some(Type::Request) => p.create_request,
        None => p.index,
    }
}

/// Joins a further position name onto the serialized form so far.
pub open spec fn spec_joined(acc: Seq<char>, part: Seq<char>) -> Seq<char> {
    if acc.len() == 0 {
        part
    } else {
        acc + ","@ + part
    }
}

/// The canonical serialized form of a position set: the present position
/// names, comma-joined, in the fixed order index, create_offer,
/// create_request.
pub open spec fn spec_mysql_string(p: NoticePositions) -> Seq<char> {
    let s1 = if p.index {
        "index"@
    } else {
        Seq::empty()
    };
    let s2 = if p.create_offer {
        spec_joined(s1, "create_offer"@)
    } else {
        s1
    };
    if p.create_request {
        spec_joined(s2, "create_request"@)
    } else {
        s2
    }
}

/// The position set read out of a stored text: a position is present
/// when its name occurs anywhere in the text.
pub open spec fn spec_from(s: Seq<char>) -> NoticePositions {
    NoticePositions {
        index: seq_contains(s, "index"@),
        create_offer: seq_contains(s, "create_offer"@),
        create_request: seq_contains(s, "create_request"@),
    }
}

impl NoticePositions {
    /// At least one position is present.
    pub fn any(&self) -> (b: bool)
        ensures
            b == (self.index || self.create_offer || self.create_request),
    {
        self.index || self.create_offer || self.create_request
    }

    /// Whether this set holds the requested scope.
    pub fn contains(&self, pos: Option<Type>) -> (b: bool)
        ensures
            b == spec_contains(*self, pos),
    {
        match pos {
            Some(Type::Offer) => self.create_offer,
            Some(Type::Request) => self.create_request,
            None => self.index,
        }
    }

    /// Serializes this set into its canonical storage form.
    pub fn mysql_string(&self) -> (r: String)
        ensures
            r@ == spec_mysql_string(*self),
    {
        proof {
            reveal_strlit("index");
            reveal_strlit("create_offer");
            reveal_strlit("create_request");
            reveal_strlit("");
            reveal_strlit(",");
        }
        let mut out = String::new();
        if self.index {
            out.append("index");
        }
        if self.create_offer {
            if self.index {
                out.append(",");
            }
            out.append("create_offer");
        }
        if self.create_request {
            if self.index || self.create_offer {
                out.append(",");
            }
            out.append("create_request");
        }
        out
    }

    /// Parses a stored position text by substring containment.
    pub fn from(s: &str) -> (p: NoticePositions)
        ensures
            p == spec_from(s@),
    {
        let hay = str_chars(s);
        let n_index = str_chars("index");
        let n_offer = str_chars("create_offer");
        let n_request = str_chars("create_request");
        NoticePositions {
            index: contains_chars(&hay, &n_index),
            create_offer: contains_chars(&hay, &n_offer),
            create_request: contains_chars(&hay, &n_request),
        }
    }
}

/// A stored notice: its row id, the pages it is shown on, and its text.
#[derive(Debug, Clone)]
pub struct Notice {
    pub id: i32,
    pub positions: NoticePositions,
    pub text: String,
}

/// How a notice is read out of a fetched row: the row id, the serialized
/// position set, and the text, in that order.  Anything else does not
/// decode.
pub open spec fn spec_decode_notice(row: Seq<DbValue>) -> Option<Notice> {
    if row.len() == 3 && row[0] is Int && row[1] is Text && row[2] is Text {
        Some(
            Notice {
                id: row[0]->Int_0,
                positions: spec_from(row[1]->Text_0@),
                text: row[2]->Text_0,
            },
        )
    } else {
        None
    }
}

/// Decodes one fetched row into a notice.
pub fn decode_notice_row(row: &Vec<DbValue>) -> (r: Option<Notice>)
    ensures
        r == spec_decode_notice(row@),
{
    if row.len() != 3 {
        return None;
    }
    let id: i32 = match &row[0] {
        DbValue::Int(i) => *i,
        _ => {
            return None;
        },
    };
    let positions = match &row[1] {
        DbValue::Text(s) => NoticePositions::from(s.as_str()),
        _ => {
            return None;
        },
    };
    let text: String = match &row[2] {
        DbValue::Text(s) => s.clone(),
        _ => {
            return None;
        },
    };
    Some(Notice { id, positions, text })
}

/// The deletion link an administrator sees next to a notice.
pub open spec fn spec_notice_delete_link(id: int) -> Seq<char> {
    "<div style=\"float: right;\"><a href=\"/notiz/"@ + int_str(id)
        + "/loeschen\" class=\"btn btn-danger\"><i class=\"fa fa-trash-o\"></i></a></div>"@
}

/// The rendered fragment for one visible notice.
pub open spec fn spec_notice_fragment(n: Notice, is_admin: bool) -> Seq<char> {
    "<div class=\"alert alert-info\">"@ + (if is_admin {
        spec_notice_delete_link(n.id as int)
    } else {
        Seq::empty()
    }) + n.text@ + "</div>"@
}

/// The fragment shown in place of a row that does not decode.
pub open spec fn spec_malformed_notice_fragment() -> Seq<char> {
    "<div class=\"alert alert-danger\"><strong>Fehlerhafte Nachricht.</strong></div>"@
}

/// What one fetched row contributes to a listing: nothing when the notice
/// is not shown on the requested page, its fragment when it is, and the
/// malformed-row fragment when the row does not decode.
pub open spec fn spec_notice_row_fragment(
    scope: Option<Type>,
    row: Option<Vec<DbValue>>,
    is_admin: bool,
) -> Seq<char> {
    match row {
        None => spec_malformed_notice_fragment(),
        Some(values) => match spec_decode_notice(values@) {
            None => spec_malformed_notice_fragment(),
            Some(n) => if spec_contains(n.positions, scope) {
                spec_notice_fragment(n, is_admin)
            } else {
                Seq::empty()
            },
        },
    }
}

/// The whole rendered listing: each row's contribution, in fetched order.
pub open spec fn spec_format_notices(
    scope: Option<Type>,
    rows: Seq<Option<Vec<DbValue>>>,
    is_admin: bool,
) -> Seq<char>
    decreases rows.len(),
{
    if rows.len() == 0 {
        Seq::empty()
    } else {
        spec_notice_row_fragment(scope, rows[0], is_admin) + spec_format_notices(
            scope,
            rows.drop_first(),
            is_admin,
        )
    }
}

proof fn lemma_format_notices_snoc(
    scope: Option<Type>,
    rows: Seq<Option<Vec<DbValue>>>,
    row: Option<Vec<DbValue>>,
    is_admin: bool,
)
    ensures
        spec_format_notices(scope, rows.push(row), is_admin) == spec_format_notices(
            scope,
            rows,
            is_admin,
        ) + spec_notice_row_fragment(scope, row, is_admin),
    decreases rows.len(),
{
    if rows.len() == 0 {
        let rp = rows.push(row);
        assert(rp.len() == 1 && rp[0] == row);
        assert(rp.drop_first() =~= Seq::<Option<Vec<DbValue>>>::empty());
        assert(spec_format_notices(scope, rp.drop_first(), is_admin)
            == Seq::<char>::empty());
        assert(spec_format_notices(scope, rp, is_admin) =~= spec_notice_row_fragment(
            scope,
            row,
            is_admin,
        ));
        assert(spec_format_notices(scope, rows, is_admin) + spec_notice_row_fragment(
            scope,
            row,
            is_admin,
        ) =~= spec_notice_row_fragment(scope, row, is_admin));
    } else {
        assert(rows.push(row).drop_first() =~= rows.drop_first().push(row));
        lemma_format_notices_snoc(scope, rows.drop_first(), row, is_admin);
        assert(spec_format_notices(scope, rows.push(row), is_admin) =~= spec_format_notices(
            scope,
            rows,
            is_admin,
        ) + spec_notice_row_fragment(scope, row, is_admin));
    }
}

/// Renders one visible notice.
fn notice_fragment(n: &Notice, is_admin: bool) -> (r: String)
    ensures
        r@ == spec_notice_fragment(*n, is_admin),
{
    let mut out = String::new();
    out.append("<div class=\"alert alert-info\">");
    if is_admin {
        out.append("<div style=\"float: right;\"><a href=\"/notiz/");
        let num = i32_string(n.id);
        out.append(num.as_str());
        out.append("/loeschen\" class=\"btn btn-danger\"><i class=\"fa fa-trash-o\"></i></a></div>");
    }
    out.append(n.text.as_str());
    out.append("</div>");
    out
}

/// Renders the notices visible on the requested page, in fetched order.
/// A row that does not decode is kept as a malformed-row fragment so the
/// listing still reflects the stored state; it never aborts the listing.
pub fn format_notices(
    scope: Option<Type>,
    rows: &Vec<Option<Vec<DbValue>>>,
    is_admin: bool,
) -> (r: String)
    ensures
        r@ == spec_format_notices(scope, rows@, is_admin),
{
    let mut out = String::new();
    let mut i: usize = 0;
    while i < rows.len()
        invariant
            0 <= i <= rows@.len(),
            out@ == spec_format_notices(scope, rows@.take(i as int), is_admin),
        decreases rows@.len() - i,
    {
        proof {
            lemma_format_notices_snoc(scope, rows@.take(i as int), rows@[i as int], is_admin);
            assert(rows@.take(i + 1) =~= rows@.take(i as int).push(rows@[i as int]));
        }
        match &rows[i] {
            None => {
                out.append("<div class=\"alert alert-danger\"><strong>Fehlerhafte Nachricht.</strong></div>");
            },
            Some(values) => match decode_notice_row(values) {
                None => {
                    out.append("<div class=\"alert alert-danger\"><strong>Fehlerhafte Nachricht.</strong></div>");
                },
                Some(n) => {
                    if n.positions.contains(scope) {
                        let frag = notice_fragment(&n, is_admin);
                        out.append(frag.as_str());
                    }
                },
            },
        }
        i = i + 1;
    }
    proof {
        assert(rows@.take(rows@.len() as int) =~= rows@);
    }
    out
}

/// The statement that lists every stored notice.
pub fn select_notices_statement() -> (r: String)
    ensures
        r@ == spec_select_statement("notices"@),
{
    select_statement("notices")
}

/// The statement that stores a new notice.
pub open spec fn spec_insert_notice_statement(positions: NoticePositions, text: Seq<char>) -> Seq<
    char,
> {
    "INSERT INTO notices (position, text) VALUES ("@ + spec_escape_nullable(
        spec_mysql_string(positions),
    ) + ", "@ + spec_escape_nullable(text) + ")"@
}

/// Validates and stores a new notice: the text must be present, then at
/// least one position must be given; the first failing rule is reported
/// and nothing reaches storage.  On success the returned command stores
/// the notice and confirms it.
pub fn add_notice(text: &str, positions: &NoticePositions) -> (r: Result<DbCommand, ValidationError>)
    ensures
        text@.len() == 0 ==> r == Err::<DbCommand, ValidationError>(ValidationError::MissingText),
        text@.len() > 0 && !(positions.index || positions.create_offer || positions.create_request)
            ==> r == Err::<DbCommand, ValidationError>(ValidationError::MissingPositions),
        text@.len() > 0 && (positions.index || positions.create_offer || positions.create_request)
            ==> (r matches Ok(c) && c.statement@ == spec_insert_notice_statement(
            *positions,
            text@,
        ) && c.confirmation@ == "Die Notiz wurde veröffentlicht."@),
{
    if text.is_empty() {
        return Err(ValidationError::MissingText);
    }
    if !positions.any() {
        return Err(ValidationError::MissingPositions);
    }
    let mut statement = String::new();
    statement.append("INSERT INTO notices (position, text) VALUES (");
    let serialized = positions.mysql_string();
    let escaped_positions = mysql_escape_nullable(serialized.as_str());
    statement.append(escaped_positions.as_str());
    statement.append(", ");
    let escaped_text = mysql_escape_nullable(text);
    statement.append(escaped_text.as_str());
    statement.append(")");
    Ok(
        DbCommand {
            statement,
            confirmation: String::from_str("Die Notiz wurde veröffentlicht."),
        },
    )
}

/// Deletes the notice named by a route's id parameter.  A missing
/// parameter is a routing-contract violation; a non-numeric id is the
/// caller's fault and names the offending text.  Deletion of an id that
/// is not stored succeeds like any other.
pub fn del_notice(id_param: Option<&str>) -> (r: Result<DbCommand, DeleteError>)
    ensures
        id_param is None ==> (r matches Err(e) && e is MissingId),
        id_param matches Some(s) ==> (if spec_parse_i32(s@) is None {
            r matches Err(e) && (e matches DeleteError::BadId(t) && t@ == s@)
        } else {
            r matches Ok(c) && c.statement@ == spec_delete_statement(
                "notices"@,
                spec_parse_i32(s@)->0 as int,
            ) && c.confirmation@ == "Die Notiz wurde gelöscht."@
        }),
{
    match id_param {
        None => Err(DeleteError::MissingId),
        Some(s) => match parse_i32(s) {
            None => Err(DeleteError::BadId(s.to_owned())),
            Some(id) => Ok(
                DbCommand {
                    statement: delete_statement("notices", id),
                    confirmation: String::from_str("Die Notiz wurde gelöscht."),
                },
            ),
        },
    }
}


proof fn lemma_from_empty()
    ensures
        spec_from(Seq::empty()) == (NoticePositions {
            index: false,
            create_offer: false,
            create_request: false,
        }),
{
    reveal_strlit("index");
    reveal_strlit("create_offer");
    reveal_strlit("create_request");
    lemma_longer_not_contained(Seq::empty(), "index"@);
    lemma_longer_not_contained(Seq::empty(), "create_offer"@);
    lemma_longer_not_contained(Seq::empty(), "create_request"@);
}

proof fn lemma_from_index()
    ensures
        spec_from("index"@) == (NoticePositions {
            index: true,
            create_offer: false,
            create_request: false,
        }),
{
    reveal_strlit("index");
    reveal_strlit("create_offer");
    reveal_strlit("create_request");
    let t = "index"@;
    assert(t.subrange(0, 5) =~= t);
    assert(matches_at(t, "index"@, 0));
    lemma_longer_not_contained(t, "create_offer"@);
    lemma_longer_not_contained(t, "create_request"@);
}

proof fn lemma_from_offer()
    ensures
        spec_from("create_offer"@) == (NoticePositions {
            index: false,
            create_offer: true,
            create_request: false,
        }),
{
    reveal_strlit("index");
    reveal_strlit("create_offer");
    reveal_strlit("create_request");
    let t = "create_offer"@;
    assert(t.subrange(0, 12) =~= t);
    assert(matches_at(t, "create_offer"@, 0));
    assert forall|j: int| 0 <= j < 12 implies t[j] != 'x' by {}
    lemma_absent_char_not_contained(t, "index"@, 4, 'x');
    lemma_longer_not_contained(t, "create_request"@);
}

proof fn lemma_from_request()
    ensures
        spec_from("create_request"@) == (NoticePositions {
            index: false,
            create_offer: false,
            create_request: true,
        }),
{
    reveal_strlit("index");
    reveal_strlit("create_offer");
    reveal_strlit("create_request");
    let t = "create_request"@;
    assert(t.subrange(0, 14) =~= t);
    assert(matches_at(t, "create_request"@, 0));
    assert forall|j: int| 0 <= j < 14 implies t[j] != 'x' by {}
    lemma_absent_char_not_contained(t, "index"@, 4, 'x');
    assert forall|j: int| 0 <= j < 14 implies t[j] != 'f' by {}
    lemma_absent_char_not_contained(t, "create_offer"@, 8, 'f');
}

#[verifier::rlimit(100)]
proof fn lemma_from_index_offer()
    ensures
        spec_from("index,create_offer"@) == (NoticePositions {
            index: true,
            create_offer: true,
            create_request: false,
        }),
{
    reveal_strlit("index");
    reveal_strlit("create_offer");
    reveal_strlit("create_request");
    reveal_strlit("index,create_offer");
    let t = "index,create_offer"@;
    assert(t.subrange(0, 5) =~= "index"@);
    assert(matches_at(t, "index"@, 0));
    assert(t.subrange(6, 18) =~= "create_offer"@);
    assert(matches_at(t, "create_offer"@, 6));
    assert forall|j: int| 0 <= j < 18 implies t[j] != 'q' by {}
    lemma_absent_char_not_contained(t, "create_request"@, 9, 'q');
}

#[verifier::rlimit(100)]
proof fn lemma_from_index_request()
    ensures
        spec_from("index,create_request"@) == (NoticePositions {
            index: true,
            create_offer: false,
            create_request: true,
        }),
{
    reveal_strlit("index");
    reveal_strlit("create_offer");
    reveal_strlit("create_request");
    reveal_strlit("index,create_request");
    let t = "index,create_request"@;
    assert(t.subrange(0, 5) =~= "index"@);
    assert(matches_at(t, "index"@, 0));
    assert(t.subrange(6, 20) =~= "create_request"@);
    assert(matches_at(t, "create_request"@, 6));
    assert forall|j: int| 0 <= j < 20 implies t[j] != 'f' by {}
    lemma_absent_char_not_contained(t, "create_offer"@, 8, 'f');
}

#[verifier::rlimit(100)]
proof fn lemma_from_offer_request()
    ensures
        spec_from("create_offer,create_request"@) == (NoticePositions {
            index: false,
            create_offer: true,
            create_request: true,
        }),
{
    reveal_strlit("index");
    reveal_strlit("create_offer");
    reveal_strlit("create_request");
    reveal_strlit("create_offer,create_request");
    let t = "create_offer,create_request"@;
    assert(t.subrange(0, 12) =~= "create_offer"@);
    assert(matches_at(t, "create_offer"@, 0));
    assert(t.subrange(13, 27) =~= "create_request"@);
    assert(matches_at(t, "create_request"@, 13));
    assert forall|j: int| 0 <= j < 27 implies t[j] != 'x' by {}
    lemma_absent_char_not_contained(t, "index"@, 4, 'x');
}

#[verifier::rlimit(100)]
proof fn lemma_from_all()
    ensures
        spec_from("index,create_offer,create_request"@) == (NoticePositions {
            index: true,
            create_offer: true,
            create_request: true,
        }),
{
    reveal_strlit("index");
    reveal_strlit("create_offer");
    reveal_strlit("create_request");
    reveal_strlit("index,create_offer,create_request");
    let t = "index,create_offer,create_request"@;
    assert(t.subrange(0, 5) =~= "index"@);
    assert(matches_at(t, "index"@, 0));
    assert(t.subrange(6, 18) =~= "create_offer"@);
    assert(matches_at(t, "create_offer"@, 6));
    assert(t.subrange(19, 33) =~= "create_request"@);
    assert(matches_at(t, "create_request"@, 19));
}

#[verifier::rlimit(100)]
proof fn lemma_serialized_index_offer()
    ensures
        spec_mysql_string(
            NoticePositions { index: true, create_offer: true, create_request: false },
        ) == "index,create_offer"@,
{
    reveal_strlit(",");
    reveal_strlit("index");
    reveal_strlit("create_offer");
    reveal_strlit("index,create_offer");
    let p = NoticePositions { index: true, create_offer: true, create_request: false };
    assert(spec_mysql_string(p) =~= "index,create_offer"@);
}

#[verifier::rlimit(100)]
proof fn lemma_serialized_index_request()
    ensures
        spec_mysql_string(
            NoticePositions { index: true, create_offer: false, create_request: true },
        ) == "index,create_request"@,
{
    reveal_strlit(",");
    reveal_strlit("index");
    reveal_strlit("create_request");
    reveal_strlit("index,create_request");
    let p = NoticePositions { index: true, create_offer: false, create_request: true };
    assert(spec_mysql_string(p) =~= "index,create_request"@);
}

#[verifier::rlimit(100)]
proof fn lemma_serialized_offer_request()
    ensures
        spec_mysql_string(
            NoticePositions { index: false, create_offer: true, create_request: true },
        ) == "create_offer,create_request"@,
{
    reveal_strlit(",");
    reveal_strlit("create_offer");
    reveal_strlit("create_request");
    reveal_strlit("create_offer,create_request");
    let p = NoticePositions { index: false, create_offer: true, create_request: true };
    assert(spec_mysql_string(p) =~= "create_offer,create_request"@);
}

#[verifier::rlimit(100)]
proof fn lemma_serialized_all()
    ensures
        spec_mysql_string(
            NoticePositions { index: true, create_offer: true, create_request: true },
        ) == "index,create_offer,create_request"@,
{
    reveal_strlit(",");
    reveal_strlit("index");
    reveal_strlit("create_offer");
    reveal_strlit("create_request");
    reveal_strlit("index,create_offer,create_request");
    let p = NoticePositions { index: true, create_offer: true, create_request: true };
    assert(spec_mysql_string(p) =~= "index,create_offer,create_request"@);
}

/// Serializing a position set and parsing the stored text back restores
/// exactly the set that was serialized, whichever positions are present:
/// each position name occurs in the canonical form exactly when its flag
/// was set.
pub proof fn lemma_positions_round_trip(p: NoticePositions)
    ensures
        spec_from(spec_mysql_string(p)) == p,
{
    if p.index {
        if p.create_offer {
            if p.create_request {
                lemma_serialized_all();
                lemma_from_all();
            } else {
                lemma_serialized_index_offer();
                lemma_from_index_offer();
            }
        } else {
            if p.create_request {
                lemma_serialized_index_request();
                lemma_from_index_request();
            } else {
                lemma_from_index();
            }
        }
    } else {
        if p.create_offer {
            if p.create_request {
                lemma_serialized_offer_request();
                lemma_from_offer_request();
            } else {
                lemma_from_offer();
            }
        } else {
            if p.create_request {
                lemma_from_request();
            } else {
                lemma_from_empty();
            }
        }
    }
}

} // verus!
