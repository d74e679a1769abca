//! Turning a CSV export into contacts: column detection and row checks.
//!
//! The first line names the columns. An `email` column is required;
//! `first_name`/`firstname` and `last_name`/`lastname` are optional (names
//! compared in lower case). Every other non-blank cell becomes a custom
//! field named by its column.

use vstd::prelude::*;
use crate::text::{lower_of, lowercase, opt_view, same_text, trim_text, trimmed};

verus! {

pub open spec fn strings_view(v: Seq<String>) -> Seq<Seq<char>> {
    v.map_values(|s: String| s@)
}

pub open spec fn records_view(v: Seq<Option<Vec<String>>>) -> Seq<Option<Seq<Seq<char>>>> {
    v.map_values(
        |r: Option<Vec<String>>|
            match r {
                Some(cells) => Some(strings_view(cells@)),
                None => None,
            },
    )
}

/// What the `csv` crate reads from a text with a header line: the header
/// cells, then each data record's cells (`None` for a record it could not
/// read); `None` when even the header cannot be read.
pub uninterp spec fn csv_read(data: Seq<char>) -> Option<(Seq<Seq<char>>, Seq<Option<Seq<Seq<char>>>>)>;

/// Relies on `csv::ReaderBuilder` (headers on, otherwise default),
/// `Reader::headers` and `Reader::records`: the result depends on the text
/// alone. The reader is not flexible, so the header line fixes the number of
/// cells and a record with another number is not readable.
#[verifier::external_body]
fn read_csv(data: &str) -> (r: Option<(Vec<String>, Vec<Option<Vec<String>>>)>)
    ensures
        r matches Some(t) ==> csv_read(data@) == Some((strings_view(t.0@), records_view(t.1@))),
        r is None ==> csv_read(data@) is None,
        r matches Some(t) ==> forall|k: int|
            0 <= k < t.1@.len() && (#[trigger] t.1@[k]) is Some ==> t.1@[k]->Some_0@.len()
                == t.0@.len(),
{
    let mut reader = csv::ReaderBuilder::new().has_headers(true).from_reader(data.as_bytes());
    let headers: Vec<String> = match reader.headers() {
        Ok(h) => h.iter().map(String::from).collect(),
        Err(_) => return None,
    };
    let mut records = Vec::new();
    for rec in reader.records() {
        records.push(match rec {
            Ok(r) => Some(r.iter().map(String::from).collect()),
            Err(_) => None,
        });
    }
    Some((headers, records))
}

/// A cell is blank when nothing but white space is in it.
pub open spec fn is_blank(s: Seq<char>) -> bool {
    trimmed(s).len() == 0
}

/// The first column from `i` on whose lowercase name is `a` or `b`.
pub open spec fn column_from(headers: Seq<Seq<char>>, a: Seq<char>, b: Seq<char>, i: int) -> Option<int>
    decreases headers.len() - i,
{
    if i < 0 || i >= headers.len() {
        None
    } else if lower_of(headers[i]) == a || lower_of(headers[i]) == b {
        Some(i)
    } else {
        column_from(headers, a, b, i + 1)
    }
}

pub open spec fn column_of(headers: Seq<Seq<char>>, a: Seq<char>, b: Seq<char>) -> Option<int> {
    column_from(headers, a, b, 0)
}

/// Where the known columns stand.
#[derive(Clone, Copy, Debug, PartialEq, Eq, Structural)]
pub struct Columns {
    pub email: usize,
    pub first_name: Option<usize>,
    pub last_name: Option<usize>,
}

#[derive(Clone, Copy, Debug, PartialEq, Eq, Structural)]
pub enum ImportError {
    /// The header line could not be read.
    InvalidCsv,
    /// No column is named `email`.
    NoEmailColumn,
    /// A readable record stops before the email column; `record` counts
    /// data records from 0 (the file line is `record + 2`).
    MissingEmail { record: usize },
}

#[derive(Clone, Copy, Debug, PartialEq, Eq, Structural)]
pub enum RowIssueKind {
    EmptyEmail,
    /// The email cell has no `@`.
    InvalidEmail,
    /// The CSV reader could not read the record.
    Unreadable,
}

/// A record that was skipped, and why.
#[derive(Clone, Copy, Debug, PartialEq, Eq, Structural)]
pub struct RowIssue {
    /// Position among the data records, from 0 (the file line is `record + 2`).
    pub record: usize,
    pub kind: RowIssueKind,
}

pub open spec fn opt_int(o: Option<usize>) -> Option<int> {
    match o {
        Some(c) => Some(c as int),
        None => None,
    }
}

pub open spec fn to_usize(o: Option<int>) -> Option<usize> {
    match o {
        Some(c) => Some(c as usize),
        None => None,
    }
}

/// The known columns of a header line, when it has an email column.
pub open spec fn columns_of(headers: Seq<Seq<char>>) -> Option<Columns> {
    match column_of(headers, "email"@, "email"@) {
        Some(e) => Some(
            Columns {
                email: e as usize,
                first_name: to_usize(column_of(headers, "first_name"@, "firstname"@)),
                last_name: to_usize(column_of(headers, "last_name"@, "lastname"@)),
            },
        ),
        None => None,
    }
}

fn find_column(headers: &Vec<String>, a: &str, b: &str) -> (r: Option<usize>)
    ensures
        opt_int(r) == column_of(strings_view(headers@), a@, b@),
        r matches Some(c) ==> c < headers@.len(),
{
    let ghost hs = strings_view(headers@);
    let mut i: usize = 0;
    while i < headers.len()
        invariant
            hs == strings_view(headers@),
            i <= headers@.len(),
            column_of(hs, a@, b@) == column_from(hs, a@, b@, i as int),
        decreases headers@.len() - i,
    {
        let name = lowercase(headers[i].as_str());
        if same_text(name.as_str(), a) || same_text(name.as_str(), b) {
            return Some(i);
        }
        i = i + 1;
    }
    None
}

/// Finds the email, first-name and last-name columns.
pub fn find_columns(headers: &Vec<String>) -> (r: Result<Columns, ImportError>)
    ensures
        r is Err <==> columns_of(strings_view(headers@)) is None,
        r is Err ==> r == Err::<Columns, ImportError>(ImportError::NoEmailColumn),
        r matches Ok(c) ==> columns_of(strings_view(headers@)) == Some(c),
{
    let email = match find_column(headers, "email", "email") {
        Some(c) => c,
        None => {
            return Err(ImportError::NoEmailColumn);
        },
    };
    let first_name = find_column(headers, "first_name", "firstname");
    let last_name = find_column(headers, "last_name", "lastname");
    Ok(Columns { email, first_name, last_name })
}

/// A contact to insert into a list.
#[derive(Clone, Debug, PartialEq, Eq)]
pub struct CreateContact {
    pub contact_list_id: i32,
    pub email: String,
    pub first_name: Option<String>,
    pub last_name: Option<String>,
    /// Column name and value of each other non-blank cell, in column order.
    /// Where two columns share a name, the later one's value is the one that
    /// counts.
    pub custom_fields: Vec<(String, String)>,
}

pub open spec fn fields_view(v: Seq<(String, String)>) -> Seq<(Seq<char>, Seq<char>)> {
    v.map_values(|p: (String, String)| (p.0@, p.1@))
}

/// A contact as text: list, email, first name, last name, custom fields.
pub open spec fn contact_view(c: CreateContact) -> (
    i32,
    Seq<char>,
    Option<Seq<char>>,
    Option<Seq<char>>,
    Seq<(Seq<char>, Seq<char>)>,
) {
    (c.contact_list_id, c.email@, opt_view(c.first_name), opt_view(c.last_name), fields_view(c.custom_fields@))
}

/// The non-blank cell of an optional column.
pub open spec fn optional_cell(record: Seq<Seq<char>>, col: Option<usize>) -> Option<Seq<char>> {
    match col {
        Some(c) => if c < record.len() && !is_blank(record[c as int]) {
            Some(record[c as int])
        } else {
            None
        },
        None => None,
    }
}

pub open spec fn is_custom_column(cols: Columns, i: int) -> bool {
    i != cols.email && cols.first_name != Some(i as usize) && cols.last_name != Some(i as usize)
}

/// The custom fields among the first `n` cells of a record.
pub open spec fn custom_fields_upto(
    headers: Seq<Seq<char>>,
    record: Seq<Seq<char>>,
    cols: Columns,
    n: int,
) -> Seq<(Seq<char>, Seq<char>)>
    decreases n,
{
    if n <= 0 {
        seq![]
    } else {
        let rest = custom_fields_upto(headers, record, cols, n - 1);
        let i = n - 1;
        if is_custom_column(cols, i) && i < headers.len() && i < record.len() && !is_blank(record[i]) {
            rest.push((headers[i], record[i]))
        } else {
            rest
        }
    }
}

/// What one readable record gives: a contact, or the reason it is skipped.
pub open spec fn record_contact(
    list_id: i32,
    headers: Seq<Seq<char>>,
    cols: Columns,
    record: Seq<Seq<char>>,
) -> Result<(i32, Seq<char>, Option<Seq<char>>, Option<Seq<char>>, Seq<(Seq<char>, Seq<char>)>), RowIssueKind> {
    let email = record[cols.email as int];
    if is_blank(email) {
        Err(RowIssueKind::EmptyEmail)
    } else if !email.contains('@') {
        Err(RowIssueKind::InvalidEmail)
    } else {
        Ok(
            (
                list_id,
                trimmed(email),
                optional_cell(record, cols.first_name),
                optional_cell(record, cols.last_name),
                custom_fields_upto(headers, record, cols, record.len() as int),
            ),
        )
    }
}

fn is_blank_cell(s: &str) -> (r: bool)
    ensures
        r == is_blank(s@),
{
    trim_text(s).unicode_len() == 0
}

fn has_at_sign(s: &str) -> (r: bool)
    ensures
        r == s@.contains('@'),
{
    let n = s.unicode_len();
    let mut i: usize = 0;
    while i < n
        invariant
            n == s@.len(),
            i <= n,
            forall|j: int| 0 <= j < i ==> s@[j] != '@',
        decreases n - i,
    {
        if s.get_char(i) == '@' {
            return true;
        }
        i = i + 1;
    }
    false
}

fn optional_field(record: &Vec<String>, col: Option<usize>) -> (r: Option<String>)
    ensures
        opt_view(r) == optional_cell(strings_view(record@), col),
{
    match col {
        Some(c) => {
            if c < record.len() && !is_blank_cell(record[c].as_str()) {
                Some(record[c].clone())
            } else {
                None
            }
        },
        None => None,
    }
}

/// Turns one readable record into a contact of list `list_id`, or says why
/// it is skipped: a blank email cell, or one without `@`.
pub fn contact_from_record(list_id: i32, headers: &Vec<String>, cols: Columns, record: &Vec<String>) -> (r:
    Result<CreateContact, RowIssueKind>)
    requires
        cols.email < record@.len(),
    ensures
        r matches Ok(c) ==> record_contact(list_id, strings_view(headers@), cols, strings_view(record@))
            == Ok::<_, RowIssueKind>(contact_view(c)),
        r matches Err(k) ==> record_contact(list_id, strings_view(headers@), cols, strings_view(record@))
            == Err::<(i32, Seq<char>, Option<Seq<char>>, Option<Seq<char>>, Seq<(Seq<char>, Seq<char>)>), RowIssueKind>(k),
{
    let ghost hs = strings_view(headers@);
    let ghost rs = strings_view(record@);
    let email_cell = record[cols.email].as_str();
    if is_blank_cell(email_cell) {
        return Err(RowIssueKind::EmptyEmail);
    }
    if !has_at_sign(email_cell) {
        return Err(RowIssueKind::InvalidEmail);
    }
    let email = trim_text(email_cell);
    let first_name = optional_field(record, cols.first_name);
    let last_name = optional_field(record, cols.last_name);
    let mut custom_fields: Vec<(String, String)> = Vec::new();
    let mut i: usize = 0;
    while i < record.len()
        invariant
            hs == strings_view(headers@),
            rs == strings_view(record@),
            i <= record@.len(),
            fields_view(custom_fields@) == custom_fields_upto(hs, rs, cols, i as int),
        decreases record@.len() - i,
    {
        if i != cols.email && cols.first_name != Some(i) && cols.last_name != Some(i) && i < headers.len()
            && !is_blank_cell(record[i].as_str()) {
            let ghost before = custom_fields@;
            custom_fields.push((headers[i].clone(), record[i].clone()));
            proof {
                assert(custom_fields@.drop_last() == before);
                assert(fields_view(custom_fields@) =~= fields_view(before).push((hs[i as int], rs[i as int])));
            }
        }
        i = i + 1;
    }
    Ok(CreateContact { contact_list_id: list_id, email, first_name, last_name, custom_fields })
}

/// What the parsing of a CSV export yields: contacts to insert, and the
/// records that were skipped.
#[derive(Clone, Debug, PartialEq, Eq)]
pub struct ImportPlan {
    pub contacts: Vec<CreateContact>,
    pub issues: Vec<RowIssue>,
}

/// The first readable record from `k` on that stops before column `col`.
pub open spec fn short_record_from(records: Seq<Option<Seq<Seq<char>>>>, col: int, k: int) -> Option<int>
    decreases records.len() - k,
{
    if k < 0 || k >= records.len() {
        None
    } else if records[k] matches Some(r) && r.len() <= col {
        Some(k)
    } else {
        short_record_from(records, col, k + 1)
    }
}

/// Contacts and skipped records from the first `n` records, in order.
pub open spec fn planned(
    list_id: i32,
    headers: Seq<Seq<char>>,
    cols: Columns,
    records: Seq<Option<Seq<Seq<char>>>>,
    n: int,
) -> (Seq<(i32, Seq<char>, Option<Seq<char>>, Option<Seq<char>>, Seq<(Seq<char>, Seq<char>)>)>, Seq<RowIssue>)
    decreases n,
{
    if n <= 0 {
        (seq![], seq![])
    } else {
        let (cs, is) = planned(list_id, headers, cols, records, n - 1);
        let k = n - 1;
        match records[k] {
            None => (cs, is.push(RowIssue { record: k as usize, kind: RowIssueKind::Unreadable })),
            Some(rec) => match record_contact(list_id, headers, cols, rec) {
                Ok(c) => (cs.push(c), is),
                Err(kind) => (cs, is.push(RowIssue { record: k as usize, kind })),
            },
        }
    }
}

pub open spec fn contacts_view(v: Seq<CreateContact>) -> Seq<(i32, Seq<char>, Option<Seq<char>>, Option<Seq<char>>, Seq<(Seq<char>, Seq<char>)>)> {
    v.map_values(|c: CreateContact| contact_view(c))
}

/// What importing header cells and records into list `list_id` gives.
pub open spec fn import_result(
    list_id: i32,
    headers: Seq<Seq<char>>,
    records: Seq<Option<Seq<Seq<char>>>>,
) -> Result<(Seq<(i32, Seq<char>, Option<Seq<char>>, Option<Seq<char>>, Seq<(Seq<char>, Seq<char>)>)>, Seq<RowIssue>), ImportError> {
    match columns_of(headers) {
        None => Err(ImportError::NoEmailColumn),
        Some(cols) => match short_record_from(records, cols.email as int, 0) {
            Some(k) => Err(ImportError::MissingEmail { record: k as usize }),
            None => Ok(planned(list_id, headers, cols, records, records.len() as int)),
        },
    }
}

pub open spec fn plan_matches(
    r: Result<ImportPlan, ImportError>,
    expected: Result<(Seq<(i32, Seq<char>, Option<Seq<char>>, Option<Seq<char>>, Seq<(Seq<char>, Seq<char>)>)>, Seq<RowIssue>), ImportError>,
) -> bool {
    match r {
        Ok(p) => expected == Ok::<_, ImportError>((contacts_view(p.contacts@), p.issues@)),
        Err(e) => expected == Err::<(Seq<(i32, Seq<char>, Option<Seq<char>>, Option<Seq<char>>, Seq<(Seq<char>, Seq<char>)>)>, Seq<RowIssue>), ImportError>(e),
    }
}

/// Sorts parsed records into contacts of list `list_id` and skipped
/// records. A readable record too short to hold an email cell stops the
/// whole import.
pub fn plan_import(list_id: i32, headers: &Vec<String>, records: &Vec<Option<Vec<String>>>) -> (r:
    Result<ImportPlan, ImportError>)
    ensures
        plan_matches(r, import_result(list_id, strings_view(headers@), records_view(records@))),
{
    let ghost hs = strings_view(headers@);
    let ghost rs = records_view(records@);
    let cols = match find_columns(headers) {
        Ok(c) => c,
        Err(e) => {
            return Err(e);
        },
    };
    let mut contacts: Vec<CreateContact> = Vec::new();
    let mut issues: Vec<RowIssue> = Vec::new();
    let mut k: usize = 0;
    while k < records.len()
        invariant
            hs == strings_view(headers@),
            rs == records_view(records@),
            columns_of(hs) == Some(cols),
            k <= records@.len(),
            short_record_from(rs, cols.email as int, 0) == short_record_from(rs, cols.email as int, k as int),
            (contacts_view(contacts@), issues@) == planned(list_id, hs, cols, rs, k as int),
        decreases records@.len() - k,
    {
        let ghost before_c = contacts@;
        let ghost before_i = issues@;
        match &records[k] {
            None => {
                issues.push(RowIssue { record: k, kind: RowIssueKind::Unreadable });
            },
            Some(rec) => {
                if rec.len() <= cols.email {
                    return Err(ImportError::MissingEmail { record: k });
                }
                match contact_from_record(list_id, headers, cols, rec) {
                    Ok(c) => {
                        contacts.push(c);
                        proof {
                            assert(contacts@.drop_last() == before_c);
                            assert(contacts_view(contacts@) =~= contacts_view(before_c).push(contact_view(c)));
                        }
                    },
                    Err(kind) => {
                        issues.push(RowIssue { record: k, kind });
                    },
                }
            },
        }
        k = k + 1;
    }
    Ok(ImportPlan { contacts, issues })
}

proof fn lemma_no_short_record(records: Seq<Option<Seq<Seq<char>>>>, len: int, col: int, k: int)
    requires
        col < len,
        forall|j: int| 0 <= j < records.len() && (#[trigger] records[j]) is Some ==> records[j]->Some_0.len() == len,
    ensures
        short_record_from(records, col, k) is None,
    decreases records.len() - k,
{
    if 0 <= k < records.len() {
        lemma_no_short_record(records, len, col, k + 1);
    }
}

/// Reads a CSV export (header line first) and sorts its records into
/// contacts of list `list_id` and skipped records. Once the header line has
/// an email column, the import succeeds: the reader makes every readable
/// record as long as the header line.
pub fn import_contacts_from_csv(list_id: i32, csv_data: &str) -> (r: Result<ImportPlan, ImportError>)
    ensures
        csv_read(csv_data@) is None ==> r == Err::<ImportPlan, ImportError>(ImportError::InvalidCsv),
        csv_read(csv_data@) matches Some((hs, rs)) ==> plan_matches(r, import_result(list_id, hs, rs)),
        csv_read(csv_data@) matches Some((hs, rs)) ==> (r is Ok <==> columns_of(hs) is Some),
{
    match read_csv(csv_data) {
        None => Err(ImportError::InvalidCsv),
        Some((headers, records)) => {
            proof {
                let hs = strings_view(headers@);
                let rs = records_view(records@);
                assert forall|j: int| 0 <= j < rs.len() && (#[trigger] rs[j]) is Some implies rs[j]->Some_0.len()
                    == hs.len() by {
                    assert(records@[j] is Some);
                }
                if let Some(cols) = columns_of(hs) {
                    lemma_column_in_range(hs, "email"@, "email"@, 0);
                    lemma_no_short_record(rs, hs.len() as int, cols.email as int, 0);
                }
            }
            plan_import(list_id, &headers, &records)
        },
    }
}

proof fn lemma_column_in_range(headers: Seq<Seq<char>>, a: Seq<char>, b: Seq<char>, i: int)
    ensures
        column_from(headers, a, b, i) matches Some(c) ==> 0 <= c < headers.len(),
    decreases headers.len() - i,
{
    if 0 <= i < headers.len() {
        lemma_column_in_range(headers, a, b, i + 1);
    }
}

} // verus!
