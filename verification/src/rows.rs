//! The fixed seven-column output rows and their encoding to one line of
//! the comma-separated output table.

use vstd::prelude::*;

use crate::record::{
    empty_record, lemma_unmatched_paragraphs_leave_record, matches_no_label, scan_paragraphs,
    AuthorizationDetails, RecordModel,
};

verus! {

/// How an optional field is rendered in its column: its value when
/// present, the empty string when absent.
pub open spec fn opt_text(o: Option<Seq<char>>) -> Seq<char> {
    match o {
        Some(s) => s,
        None => Seq::<char>::empty(),
    }
}

/// The header row: the identifier column followed by the six field names.
pub open spec fn header_row_spec() -> Seq<Seq<char>> {
    seq![
        "ID"@,
        "FedRAMP Ready"@,
        "Authorizing Entity Review"@,
        "PMO Review"@,
        "FedRAMP Authorized"@,
        "Annual Assessment"@,
        "Independent Assessor"@,
    ]
}

/// The row for a successfully extracted record, in the fixed column order.
pub open spec fn success_row_spec(m: RecordModel) -> Seq<Seq<char>> {
    seq![
        m.id,
        opt_text(m.fedramp_ready),
        opt_text(m.authorizing_entity_review),
        opt_text(m.pmo_review),
        opt_text(m.fedramp_authorized),
        opt_text(m.annual_assessment),
        opt_text(m.independent_assessor),
    ]
}

/// The placeholder row for an identifier whose page could not be loaded.
pub open spec fn nav_failure_row_spec(id: Seq<char>) -> Seq<Seq<char>> {
    seq![
        id,
        "Error - Navigation failed"@,
        Seq::<char>::empty(),
        Seq::<char>::empty(),
        Seq::<char>::empty(),
        Seq::<char>::empty(),
        Seq::<char>::empty(),
    ]
}

/// The placeholder row for an identifier whose extraction failed with the
/// given description.
pub open spec fn failure_row_spec(id: Seq<char>, msg: Seq<char>) -> Seq<Seq<char>> {
    seq![
        id,
        "Error: "@ + msg,
        Seq::<char>::empty(),
        Seq::<char>::empty(),
        Seq::<char>::empty(),
        Seq::<char>::empty(),
        Seq::<char>::empty(),
    ]
}

fn opt_field(o: &Option<String>) -> (r: String)
    ensures
        r@ == opt_text(o.deep_view()),
{
    match o {
        Some(s) => s.clone(),
        None => String::new(),
    }
}

/// The header row as column texts.
pub fn header_row() -> (r: Vec<String>)
    ensures
        r.deep_view() == header_row_spec(),
{
    let mut row: Vec<String> = Vec::new();
    row.push("ID".to_owned());
    row.push("FedRAMP Ready".to_owned());
    row.push("Authorizing Entity Review".to_owned());
    row.push("PMO Review".to_owned());
    row.push("FedRAMP Authorized".to_owned());
    row.push("Annual Assessment".to_owned());
    row.push("Independent Assessor".to_owned());
    proof {
        assert(row.deep_view() =~= header_row_spec());
    }
    row
}

/// The row for a successfully extracted record: the identifier, then the
/// six field values with absent fields rendered as empty strings.
pub fn success_row(d: &AuthorizationDetails) -> (r: Vec<String>)
    ensures
        r.deep_view() == success_row_spec(d@),
{
    let mut row: Vec<String> = Vec::new();
    row.push(d.id.clone());
    row.push(opt_field(&d.fedramp_ready));
    row.push(opt_field(&d.authorizing_entity_review));
    row.push(opt_field(&d.pmo_review));
    row.push(opt_field(&d.fedramp_authorized));
    row.push(opt_field(&d.annual_assessment));
    row.push(opt_field(&d.independent_assessor));
    proof {
        assert(row.deep_view() =~= success_row_spec(d@));
    }
    row
}

/// The placeholder row for a navigation failure.
pub fn nav_failure_row(id: &str) -> (r: Vec<String>)
    ensures
        r.deep_view() == nav_failure_row_spec(id@),
{
    let mut row: Vec<String> = Vec::new();
    row.push(id.to_owned());
    row.push("Error - Navigation failed".to_owned());
    row.push(String::new());
    row.push(String::new());
    row.push(String::new());
    row.push(String::new());
    row.push(String::new());
    proof {
        assert(row.deep_view() =~= nav_failure_row_spec(id@));
    }
    row
}

/// The placeholder row for any other extraction failure, with its
/// description after the literal `Error: `.
pub fn failure_row(id: &str, msg: &str) -> (r: Vec<String>)
    ensures
        r.deep_view() == failure_row_spec(id@, msg@),
{
    let mut row: Vec<String> = Vec::new();
    row.push(id.to_owned());
    let mut m = String::from_str("Error: ");
    m.append(msg);
    row.push(m);
    row.push(String::new());
    row.push(String::new());
    row.push(String::new());
    row.push(String::new());
    row.push(String::new());
    proof {
        assert(row.deep_view() =~= failure_row_spec(id@, msg@));
    }
    row
}

/// The bytes of one line of the output table, as the `csv` crate encodes
/// the given column texts with its default configuration.
pub uninterp spec fn csv_row_of(fields: Seq<Seq<char>>) -> Seq<u8>;

/// Relies on `csv::Writer` over an in-memory buffer: `write_record`
/// encodes the fields (delimiter `,`, quoting only where needed) followed
/// by the terminator `\n`, and `into_inner` flushes into the buffer, which
/// for a `Vec<u8>` sink cannot fail. The encoding depends on the field
/// texts alone.
#[verifier::external_body]
pub(crate) fn csv_encode_row(fields: &Vec<String>) -> (r: Vec<u8>)
    ensures
        r@ == csv_row_of(fields.deep_view()),
{
    let mut w = csv::Writer::from_writer(Vec::new());
    let _ = w.write_record(fields.iter());
    match w.into_inner() {
        Ok(buf) => buf,
        Err(_) => Vec::new(),
    }
}

/// An absent field is rendered as the empty string: the row of a record
/// with every field absent carries the identifier and six empty columns,
/// never a null marker.
pub proof fn lemma_absent_fields_render_empty(id: Seq<char>)
    ensures
        success_row_spec(empty_record(id)).len() == 7,
        success_row_spec(empty_record(id))[0] == id,
        forall|c: int|
            1 <= c < 7 ==> #[trigger] success_row_spec(empty_record(id))[c]
                == Seq::<char>::empty(),
{
    let row = success_row_spec(empty_record(id));
    assert forall|c: int| 1 <= c < 7 implies #[trigger] row[c] == Seq::<char>::empty() by {
        assert(row[1] == Seq::<char>::empty());
        assert(row[2] == Seq::<char>::empty());
        assert(row[3] == Seq::<char>::empty());
        assert(row[4] == Seq::<char>::empty());
        assert(row[5] == Seq::<char>::empty());
        assert(row[6] == Seq::<char>::empty());
    }
}

/// Scanning paragraphs of which none matches a label yields an output row
/// whose six field columns are all empty strings.
pub proof fn lemma_unmatched_paragraphs_row_all_empty(id: Seq<char>, ts: Seq<Option<Seq<char>>>)
    requires
        forall|i: int|
            0 <= i < ts.len() ==> (#[trigger] ts[i] matches Some(t) ==> matches_no_label(t)),
    ensures
        success_row_spec(scan_paragraphs(empty_record(id), ts))[0] == id,
        forall|c: int|
            1 <= c < 7 ==> #[trigger] success_row_spec(scan_paragraphs(empty_record(id), ts))[c]
                == Seq::<char>::empty(),
{
    lemma_unmatched_paragraphs_leave_record(empty_record(id), ts);
    lemma_absent_fields_render_empty(id);
}

/// The encoded header line of the output table.
pub fn encoded_header() -> (r: Vec<u8>)
    ensures
        r@ == csv_row_of(header_row_spec()),
{
    let row = header_row();
    csv_encode_row(&row)
}

} // verus!
