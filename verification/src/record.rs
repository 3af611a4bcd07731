//! The per-identifier record and the paragraph-scanning logic that fills it.

use vstd::prelude::*;

use crate::text::{contains_spec, extract_value, str_contains, value_after};

verus! {

/// One output record: the identifier and the six optional field values read
/// from the page's "Authorization Details" paragraphs. An absent field is
/// `None` and is rendered as an empty column.
pub struct AuthorizationDetails {
    pub id: String,
    pub fedramp_ready: Option<String>,
    pub authorizing_entity_review: Option<String>,
    pub pmo_review: Option<String>,
    pub fedramp_authorized: Option<String>,
    pub annual_assessment: Option<String>,
    pub independent_assessor: Option<String>,
}

/// The mathematical value of an `AuthorizationDetails`.
pub struct RecordModel {
    pub id: Seq<char>,
    pub fedramp_ready: Option<Seq<char>>,
    pub authorizing_entity_review: Option<Seq<char>>,
    pub pmo_review: Option<Seq<char>>,
    pub fedramp_authorized: Option<Seq<char>>,
    pub annual_assessment: Option<Seq<char>>,
    pub independent_assessor: Option<Seq<char>>,
}

impl View for AuthorizationDetails {
    type V = RecordModel;

    open spec fn view(&self) -> RecordModel {
        RecordModel {
            id: self.id@,
            fedramp_ready: self.fedramp_ready.deep_view(),
            authorizing_entity_review: self.authorizing_entity_review.deep_view(),
            pmo_review: self.pmo_review.deep_view(),
            fedramp_authorized: self.fedramp_authorized.deep_view(),
            annual_assessment: self.annual_assessment.deep_view(),
            independent_assessor: self.independent_assessor.deep_view(),
        }
    }
}

/// A fresh record for `id`: every field absent.
pub open spec fn empty_record(id: Seq<char>) -> RecordModel {
    RecordModel {
        id: id,
        fedramp_ready: None,
        authorizing_entity_review: None,
        pmo_review: None,
        fedramp_authorized: None,
        annual_assessment: None,
        independent_assessor: None,
    }
}

pub open spec fn label_independent_assessor() -> Seq<char> {
    "Independent Assessor:"@
}

pub open spec fn label_fedramp_ready() -> Seq<char> {
    "FedRAMP Ready:"@
}

pub open spec fn label_authorizing_entity_review() -> Seq<char> {
    "Authorizing Entity Review:"@
}

pub open spec fn label_pmo_review() -> Seq<char> {
    "PMO Review:"@
}

pub open spec fn label_fedramp_authorized() -> Seq<char> {
    "FedRAMP Authorized:"@
}

pub open spec fn label_annual_assessment() -> Seq<char> {
    "Annual Assessment:"@
}

/// The effect of one paragraph on a record: the first label prefix that
/// occurs in the text — tested in the fixed priority order — has its field
/// set to the trimmed value after the prefix; every other paragraph leaves
/// the record unchanged.
pub open spec fn apply_paragraph_spec(r: RecordModel, t: Seq<char>) -> RecordModel {
    if contains_spec(t, label_independent_assessor()) {
        RecordModel { independent_assessor: value_after(t, label_independent_assessor()), ..r }
    } else if contains_spec(t, label_fedramp_ready()) {
        RecordModel { fedramp_ready: value_after(t, label_fedramp_ready()), ..r }
    } else if contains_spec(t, label_authorizing_entity_review()) {
        RecordModel {
            authorizing_entity_review: value_after(t, label_authorizing_entity_review()),
            ..r
        }
    } else if contains_spec(t, label_pmo_review()) {
        RecordModel { pmo_review: value_after(t, label_pmo_review()), ..r }
    } else if contains_spec(t, label_fedramp_authorized()) {
        RecordModel { fedramp_authorized: value_after(t, label_fedramp_authorized()), ..r }
    } else if contains_spec(t, label_annual_assessment()) {
        RecordModel { annual_assessment: value_after(t, label_annual_assessment()), ..r }
    } else {
        r
    }
}

/// The record after scanning a run of paragraphs in order; a paragraph
/// whose text could not be read (`None`) is skipped.
pub open spec fn scan_paragraphs(r: RecordModel, ts: Seq<Option<Seq<char>>>) -> RecordModel
    decreases ts.len(),
{
    if ts.len() == 0 {
        r
    } else {
        let r2 = match ts[0] {
            Some(t) => apply_paragraph_spec(r, t),
            None => r,
        };
        scan_paragraphs(r2, ts.drop_first())
    }
}

impl AuthorizationDetails {
    /// A fresh record for `id` with every field absent.
    pub fn new(id: &str) -> (r: Self)
        ensures
            r@ == empty_record(id@),
    {
        AuthorizationDetails {
            id: id.to_owned(),
            fedramp_ready: None,
            authorizing_entity_review: None,
            pmo_review: None,
            fedramp_authorized: None,
            annual_assessment: None,
            independent_assessor: None,
        }
    }
}

/// Apply one paragraph's text to the record: the first matching label
/// prefix, in priority order, has its field set to the value after it.
pub fn apply_paragraph(rec: &mut AuthorizationDetails, text: &str)
    ensures
        final(rec)@ == apply_paragraph_spec(old(rec)@, text@),
{
    if str_contains(text, "Independent Assessor:") {
        rec.independent_assessor = extract_value(text, "Independent Assessor:");
    } else if str_contains(text, "FedRAMP Ready:") {
        rec.fedramp_ready = extract_value(text, "FedRAMP Ready:");
    } else if str_contains(text, "Authorizing Entity Review:") {
        rec.authorizing_entity_review = extract_value(text, "Authorizing Entity Review:");
    } else if str_contains(text, "PMO Review:") {
        rec.pmo_review = extract_value(text, "PMO Review:");
    } else if str_contains(text, "FedRAMP Authorized:") {
        rec.fedramp_authorized = extract_value(text, "FedRAMP Authorized:");
    } else if str_contains(text, "Annual Assessment:") {
        rec.annual_assessment = extract_value(text, "Annual Assessment:");
    }
}

/// Why an extraction produced no record.
#[derive(PartialEq, Eq, Structural)]
pub enum ExtractError {
    /// The content container held no paragraph at all.
    NoParagraphs,
}

impl ExtractError {
    /// The failure description that goes into the output row.
    pub fn message(&self) -> (r: String)
        ensures
            r@ == "No paragraphs found"@,
    {
        "No paragraphs found".to_owned()
    }
}

/// Build the record for `id` from the texts of the container's paragraphs,
/// in order. A paragraph whose text could not be read is `None` and is
/// skipped. Fails exactly when there is no paragraph at all.
pub fn extract_details(id: &str, texts: &Vec<Option<String>>) -> (r: Result<
    AuthorizationDetails,
    ExtractError,
>)
    ensures
        r is Err <==> texts@.len() == 0,
        r matches Err(e) ==> e == ExtractError::NoParagraphs,
        r matches Ok(d) ==> d@ == scan_paragraphs(empty_record(id@), texts.deep_view()),
{
    if texts.len() == 0 {
        return Err(ExtractError::NoParagraphs);
    }
    let ghost dv = texts.deep_view();
    let mut rec = AuthorizationDetails::new(id);
    proof {
        assert(dv.skip(0) =~= dv);
    }
    let mut k: usize = 0;
    while k < texts.len()
        invariant
            k <= texts@.len(),
            dv == texts.deep_view(),
            dv.len() == texts@.len(),
            scan_paragraphs(rec@, dv.skip(k as int)) == scan_paragraphs(empty_record(id@), dv),
        decreases texts@.len() - k,
    {
        let ghost pre = rec@;
        match &texts[k] {
            Some(t) => {
                apply_paragraph(&mut rec, t.as_str());
            },
            None => {},
        }
        proof {
            assert(dv[k as int] == texts@[k as int].deep_view());
            assert(dv.skip(k as int).drop_first() =~= dv.skip(k + 1));
            assert(dv.skip(k as int)[0] == dv[k as int]);
            assert(scan_paragraphs(pre, dv.skip(k as int)) == scan_paragraphs(
                rec@,
                dv.skip(k + 1),
            ));
        }
        k += 1;
    }
    proof {
        assert(dv.skip(k as int) =~= Seq::<Option<Seq<char>>>::empty());
    }
    Ok(rec)
}

/// The paragraph text carries none of the six label prefixes.
pub open spec fn matches_no_label(t: Seq<char>) -> bool {
    &&& !contains_spec(t, label_independent_assessor())
    &&& !contains_spec(t, label_fedramp_ready())
    &&& !contains_spec(t, label_authorizing_entity_review())
    &&& !contains_spec(t, label_pmo_review())
    &&& !contains_spec(t, label_fedramp_authorized())
    &&& !contains_spec(t, label_annual_assessment())
}

/// Scanning paragraphs of which none carries a label leaves the record as
/// it was; in particular a page with zero matching paragraphs yields a
/// record with every field still absent.
pub proof fn lemma_unmatched_paragraphs_leave_record(r: RecordModel, ts: Seq<Option<Seq<char>>>)
    requires
        forall|i: int|
            0 <= i < ts.len() ==> (#[trigger] ts[i] matches Some(t) ==> matches_no_label(t)),
    ensures
        scan_paragraphs(r, ts) == r,
    decreases ts.len(),
{
    if ts.len() > 0 {
        assert(ts[0] matches Some(t) ==> matches_no_label(t));
        assert(forall|i: int|
            0 <= i < ts.drop_first().len() ==> (#[trigger] ts.drop_first()[i] matches Some(t)
                ==> matches_no_label(t)));
        lemma_unmatched_paragraphs_leave_record(r, ts.drop_first());
    }
}

/// A paragraph whose label values are all blank after trimming — or whose
/// labels are absent altogether — leaves a fresh record unchanged: a value
/// that is empty after trimming is treated exactly like a value that never
/// appeared.
pub proof fn lemma_blank_values_leave_record_empty(id: Seq<char>, t: Seq<char>)
    requires
        value_after(t, label_independent_assessor()) is None,
        value_after(t, label_fedramp_ready()) is None,
        value_after(t, label_authorizing_entity_review()) is None,
        value_after(t, label_pmo_review()) is None,
        value_after(t, label_fedramp_authorized()) is None,
        value_after(t, label_annual_assessment()) is None,
    ensures
        apply_paragraph_spec(empty_record(id), t) == empty_record(id),
{
}

} // verus!
