use logswise_cli::flow::NoteHandler;
use logswise_cli::ollama::{HttpReply, TransportKind};
use logswise_cli::supabase::{
    check_notes_table_exists, listing_of_body, notes_from_search_reply, test_connection,
};

#[test]
fn search_reply_contents_are_extracted_in_order() {
    let body = "[{\"content\":\"first note\"},{\"content\":\"second note\"}]";
    let notes = notes_from_search_reply(Some(body));
    assert_eq!(notes, vec!["first note".to_string(), "second note".to_string()]);
}

#[test]
fn search_degrades_to_empty_on_any_failure() {
    assert!(notes_from_search_reply(None).is_empty());
    assert!(notes_from_search_reply(Some("not json")).is_empty());
    assert!(notes_from_search_reply(Some("{\"rows\":[]}")).is_empty());
    let partial = "[{\"content\":\"kept\"},{\"other\":1}]";
    assert_eq!(notes_from_search_reply(Some(partial)), vec!["kept".to_string()]);
}

#[test]
fn note_listing_shows_dates_and_placeholders() {
    let body = "[{\"content\":\"first\",\"created_at\":\"2025-06-05T12:00:00Z\"},{\"created_at\":\"2025-06-04T09:30:00Z\"}]";
    let listing = listing_of_body(body);
    assert_eq!(
        listing,
        "\u{1f4dd} 2 most recent notes:\n\n1. first (2025-06-05)\n2. (empty) (2025-06-04)\n"
    );
}

#[test]
fn empty_note_listing_suggests_adding_a_note() {
    assert_eq!(
        listing_of_body("[]"),
        "\u{1f4dd} No notes found. Add your first note with: logswise-cli note 'Your note here'"
    );
}

#[test]
fn unparseable_note_listing_reports_the_parser() {
    let out = listing_of_body("{broken");
    assert!(out.starts_with("Error parsing notes: "));
}

#[test]
fn recent_notes_reply_classification() {
    let handler = NoteHandler::new();
    let ok = HttpReply::Status {
        code: 200,
        code_text: "200 OK".to_string(),
        body: "[]".to_string(),
    };
    assert!(handler.show_recent_notes(&ok).contains("No notes found"));
    let bad = HttpReply::Status {
        code: 500,
        code_text: "500 Internal Server Error".to_string(),
        body: String::new(),
    };
    assert_eq!(
        handler.show_recent_notes(&bad),
        "Error fetching notes: HTTP 500 Internal Server Error"
    );
    let down = HttpReply::Transport {
        kind: TransportKind::Other,
        detail: "dns failure".to_string(),
    };
    assert_eq!(handler.show_recent_notes(&down), "Network error: dns failure");
}

#[test]
fn table_probe_classification() {
    assert_eq!(check_notes_table_exists(200, "200 OK", ""), Ok(true));
    assert_eq!(
        check_notes_table_exists(404, "404", "relation \"notes\" does not exist"),
        Ok(false)
    );
    assert_eq!(
        check_notes_table_exists(404, "404", "nothing here").unwrap_err(),
        "Unable to access database. Please check your Supabase configuration."
    );
    assert_eq!(
        check_notes_table_exists(401, "401", "").unwrap_err(),
        "Invalid API key or insufficient permissions"
    );
    assert_eq!(
        check_notes_table_exists(500, "500 Internal Server Error", "").unwrap_err(),
        "Unexpected response: HTTP 500 Internal Server Error"
    );
}

#[test]
fn connection_probe_classification() {
    assert!(test_connection(204, "204 No Content").is_ok());
    assert_eq!(
        test_connection(403, "403 Forbidden").unwrap_err(),
        "Authentication failed: HTTP 403 Forbidden"
    );
}
