use fedramp_scraper::input::{collect_ids, url_for};
use fedramp_scraper::record::{extract_details, AuthorizationDetails, ExtractError};
use fedramp_scraper::rows::{encoded_header, failure_row, header_row, nav_failure_row, success_row};
use fedramp_scraper::runner::Runner;
use fedramp_scraper::text::{extract_value, str_contains, str_find, trim_str};

fn texts(ps: &[&str]) -> Vec<Option<String>> {
    ps.iter().map(|p| Some(p.to_string())).collect()
}

fn must_extract(id: &str, ts: &Vec<Option<String>>) -> AuthorizationDetails {
    match extract_details(id, ts) {
        Ok(d) => d,
        Err(_) => panic!("extraction failed unexpectedly"),
    }
}

#[test]
fn trim_removes_surrounding_whitespace() {
    assert_eq!(trim_str("  In Process \t\n"), "In Process");
    assert_eq!(trim_str(""), "");
    assert_eq!(trim_str("   \t "), "");
    assert_eq!(trim_str("a b"), "a b");
}

#[test]
fn find_locates_first_occurrence() {
    assert_eq!(str_find("abcabc", "bc"), Some(1));
    assert_eq!(str_find("abc", "zz"), None);
    assert_eq!(str_find("abc", ""), Some(0));
    assert!(str_contains("FedRAMP Ready: Yes", "FedRAMP Ready:"));
    assert!(!str_contains("FedRAMP", "FedRAMP Ready:"));
}

#[test]
fn label_value_is_stripped_and_trimmed() {
    let v = extract_value("Independent Assessor: Acme Corp", "Independent Assessor:");
    assert_eq!(v, Some("Acme Corp".to_string()));
}

#[test]
fn value_empty_after_trim_is_absent() {
    assert_eq!(extract_value("FedRAMP Ready:    ", "FedRAMP Ready:"), None);
    assert_eq!(extract_value("FedRAMP Ready:", "FedRAMP Ready:"), None);
}

#[test]
fn value_of_missing_prefix_is_absent() {
    assert_eq!(extract_value("nothing relevant", "FedRAMP Ready:"), None);
}

#[test]
fn extraction_fills_matched_fields() {
    let ts = texts(&[
        "FedRAMP Ready: Yes",
        "Authorizing Entity Review: In Progress",
        "PMO Review: Complete",
        "FedRAMP Authorized: 2024-01-02",
        "Annual Assessment: Current",
        "Independent Assessor: Acme Corp",
    ]);
    let d = must_extract("SVC1", &ts);
    assert_eq!(d.id, "SVC1");
    assert_eq!(d.fedramp_ready, Some("Yes".to_string()));
    assert_eq!(d.authorizing_entity_review, Some("In Progress".to_string()));
    assert_eq!(d.pmo_review, Some("Complete".to_string()));
    assert_eq!(d.fedramp_authorized, Some("2024-01-02".to_string()));
    assert_eq!(d.annual_assessment, Some("Current".to_string()));
    assert_eq!(d.independent_assessor, Some("Acme Corp".to_string()));
}

#[test]
fn first_label_in_priority_order_wins() {
    // The paragraph carries two recognizable labels; only the one checked
    // first is applied.
    let ts = texts(&["FedRAMP Ready: Yes Independent Assessor: Acme"]);
    let d = must_extract("SVC2", &ts);
    assert_eq!(
        d.independent_assessor,
        Some("Acme".to_string()),
        "highest-priority label takes the paragraph"
    );
    assert_eq!(d.fedramp_ready, None);
}

#[test]
fn unreadable_paragraph_is_skipped() {
    let ts = vec![None, Some("PMO Review: Done".to_string()), None];
    let d = must_extract("SVC3", &ts);
    assert_eq!(d.pmo_review, Some("Done".to_string()));
    assert_eq!(d.fedramp_ready, None);
}

#[test]
fn no_paragraphs_is_an_error() {
    let ts: Vec<Option<String>> = Vec::new();
    match extract_details("SVC4", &ts) {
        Ok(_) => panic!("expected an error for an empty paragraph run"),
        Err(e) => {
            assert!(matches!(e, ExtractError::NoParagraphs));
            assert_eq!(e.message(), "No paragraphs found");
        },
    }
}

#[test]
fn absent_fields_render_as_empty_strings() {
    let ts = texts(&["nothing relevant here", "still nothing"]);
    let d = must_extract("SVC5", &ts);
    let row = success_row(&d);
    assert_eq!(
        row,
        vec!["SVC5".to_string(), String::new(), String::new(), String::new(), String::new(),
            String::new(), String::new()]
    );
}

#[test]
fn empty_after_trim_renders_like_never_matched() {
    let with_blank = must_extract("SVC6", &texts(&["FedRAMP Ready:    "]));
    let without = must_extract("SVC6", &texts(&["nothing relevant"]));
    assert_eq!(success_row(&with_blank), success_row(&without));
}

#[test]
fn every_row_kind_has_seven_columns() {
    assert_eq!(header_row().len(), 7);
    let d = must_extract("SVC7", &texts(&["FedRAMP Ready: Yes"]));
    assert_eq!(success_row(&d).len(), 7);
    assert_eq!(nav_failure_row("SVC7").len(), 7);
    assert_eq!(failure_row("SVC7", "No paragraphs found").len(), 7);
}

#[test]
fn navigation_failure_row_shape() {
    let mut r = Runner::new(vec!["ABC123".to_string()]);
    let bytes = r.record_navigation_failure();
    assert_eq!(
        r.rows_so_far()[0],
        vec!["ABC123".to_string(), "Error - Navigation failed".to_string(), String::new(),
            String::new(), String::new(), String::new(), String::new()]
    );
    assert_eq!(bytes, b"ABC123,Error - Navigation failed,,,,,\n".to_vec());
}

#[test]
fn header_encodes_to_fixed_line() {
    let expected =
        b"ID,FedRAMP Ready,Authorizing Entity Review,PMO Review,FedRAMP Authorized,Annual Assessment,Independent Assessor\n";
    assert_eq!(encoded_header(), expected.to_vec());
}

#[test]
fn failure_description_is_prefixed_and_quoted_when_needed() {
    let mut r = Runner::new(vec!["X1".to_string()]);
    let bytes = r.record_failure("bad page, truly");
    assert_eq!(r.rows_so_far()[0][1], "Error: bad page, truly");
    assert_eq!(bytes, b"X1,\"Error: bad page, truly\",,,,,\n".to_vec());
}

#[test]
fn run_emits_one_row_per_identifier_in_order() {
    let ids = vec!["A".to_string(), "B".to_string(), "C".to_string()];
    let mut r = Runner::new(ids.clone());
    assert_eq!(r.total(), 3);

    let d = must_extract("A", &texts(&["Annual Assessment: Current"]));
    let first = r.record_success(&d);
    assert_eq!(r.processed(), 1);
    assert_eq!(r.rows_so_far().len(), 1);
    assert_eq!(first, b"A,,,,,Current,\n".to_vec());

    r.record_navigation_failure();
    assert_eq!(r.processed(), 2);
    assert_eq!(r.rows_so_far().len(), 2);

    r.record_failure("No paragraphs found");
    assert!(r.done());
    assert_eq!(r.rows_so_far().len(), 3);

    for (i, id) in ids.iter().enumerate() {
        assert_eq!(&r.rows_so_far()[i][0], id);
        assert_eq!(r.rows_so_far()[i].len(), 7);
    }
}

#[test]
fn collect_ids_drops_only_unreadable_lines() {
    let lines = vec![
        Some("prod1".to_string()),
        Some("".to_string()),
        Some("prod2".to_string()),
    ];
    assert_eq!(
        collect_ids(&lines),
        vec!["prod1".to_string(), "".to_string(), "prod2".to_string()]
    );

    let mixed = vec![None, Some("A".to_string()), None, Some("B".to_string())];
    assert_eq!(collect_ids(&mixed), vec!["A".to_string(), "B".to_string()]);

    let empty: Vec<Option<String>> = Vec::new();
    assert_eq!(collect_ids(&empty), Vec::<String>::new());
}

#[test]
fn empty_identifier_still_gets_a_row() {
    let lines = vec![
        Some("prod1".to_string()),
        Some("".to_string()),
        Some("prod2".to_string()),
    ];
    let ids = collect_ids(&lines);
    assert_eq!(ids.len(), 3);
    assert_eq!(url_for(&ids[1]), "https://marketplace.fedramp.gov/products/");

    let mut r = Runner::new(ids);
    while !r.done() {
        r.record_navigation_failure();
    }
    assert_eq!(r.rows_so_far().len(), 3);
    assert_eq!(r.rows_so_far()[1][0], "");
}

#[test]
fn url_appends_identifier_verbatim() {
    assert_eq!(
        url_for("ABC123"),
        "https://marketplace.fedramp.gov/products/ABC123"
    );
}
