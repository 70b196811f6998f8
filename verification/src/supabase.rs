//! Handling of the document store's replies: extraction of search results
//! and note listings, and the classification of connectivity and schema
//! checks.  Semantic search is best-effort by design: any failure of the
//! search call degrades to an empty result list and never blocks the
//! caller.

use vstd::prelude::*;
use vstd::string::StringExecFns;

use crate::text::{chars_vec, contains_lit, date_part, spec_contains_seq, spec_date_part,
    spec_dec_digits, usize_string, views_of};
use crate::types::spec_opt_seq;

verus! {

/// The rows of a semantic-search reply body: for each element of the JSON
/// array, in order, its `content` string field or nothing; empty when the
/// body is not such an array.  The result depends on the body's characters
/// alone.
pub uninterp spec fn search_rows_of(body: Seq<char>) -> Seq<Option<Seq<char>>>;

/// Relies on `serde_json::from_str::<Value>`: reads the `content` string
/// field of each element of the reply's JSON array, in order; anything
/// unparseable yields no rows.
#[verifier::external_body]
fn parse_search_rows(body: &str) -> (r: Vec<Option<String>>)
    ensures
        r@.len() == search_rows_of(body@).len(),
        forall|i: int|
            0 <= i < r@.len() ==> spec_opt_seq(#[trigger] r@[i]) == search_rows_of(body@)[i],
{
    match serde_json::from_str::<serde_json::Value>(body) {
        Ok(v) => match v.as_array() {
            Some(arr) => arr
                .iter()
                .map(|n| n.get("content").and_then(|c| c.as_str()).map(String::from))
                .collect(),
            None => Vec::new(),
        },
        Err(_) => Vec::new(),
    }
}

/// The present contents among the rows from index `k` on: rows without a
/// `content` string are skipped.
pub open spec fn spec_present_from(rows: Seq<Option<Seq<char>>>, k: int) -> Seq<Seq<char>>
    decreases rows.len() - k,
{
    if k < 0 || k >= rows.len() {
        Seq::empty()
    } else {
        (match rows[k] {
            Some(c) => seq![c],
            None => Seq::<Seq<char>>::empty(),
        }) + spec_present_from(rows, k + 1)
    }
}

fn present_from(rows: &Vec<Option<String>>, k: usize, m: Ghost<Seq<Option<Seq<char>>>>) -> (r:
    Vec<String>)
    requires
        m@.len() == rows@.len(),
        forall|i: int| 0 <= i < rows@.len() ==> spec_opt_seq(#[trigger] rows@[i]) == m@[i],
    ensures
        views_of(r@) == spec_present_from(m@, k as int),
    decreases rows@.len() - k,
{
    if k >= rows.len() {
        let r: Vec<String> = Vec::new();
        proof {
            assert(views_of(r@) =~= Seq::<Seq<char>>::empty());
        }
        r
    } else {
        let mut r: Vec<String> = Vec::new();
        if let Some(c) = &rows[k] {
            r.push(c.clone());
        }
        let mut rest = present_from(rows, k + 1, m);
        let ghost head = views_of(r@);
        proof {
            match m@[k as int] {
                Some(c) => {
                    assert(head =~= seq![c]);
                },
                None => {
                    assert(head =~= Seq::<Seq<char>>::empty());
                },
            }
        }
        r.append(&mut rest);
        proof {
            assert(views_of(r@) =~= head + spec_present_from(m@, k + 1));
        }
        r
    }
}

/// The note contents retrieved by a semantic search, given the reply body
/// when one arrived at all: the present contents in order, rows without
/// one skipped; search never fails, it degrades to an empty list.
pub open spec fn spec_search_notes(body: Option<Seq<char>>) -> Seq<Seq<char>> {
    match body {
        Some(b) => spec_present_from(search_rows_of(b), 0),
        None => Seq::empty(),
    }
}

/// Extracts the retrieved notes from a semantic-search reply; a missing or
/// failed reply yields the empty list, never an error.
pub fn notes_from_search_reply(body: Option<&str>) -> (r: Vec<String>)
    ensures
        views_of(r@) == spec_search_notes(
            match body {
                Some(b) => Some(b@),
                None => None,
            },
        ),
{
    match body {
        Some(b) => {
            let rows = parse_search_rows(b);
            present_from(&rows, 0, Ghost(search_rows_of(b@)))
        },
        None => {
            let r: Vec<String> = Vec::new();
            proof {
                assert(views_of(r@) =~= Seq::<Seq<char>>::empty());
            }
            r
        },
    }
}

/// The rows of a note-listing reply: for each element of the JSON array,
/// its `content` and `created_at` string fields; `Err` carries the
/// parser's message when the body is not such an array.  The result
/// depends on the body's characters alone.
pub uninterp spec fn note_rows_of(body: Seq<char>) -> Result<
    Seq<(Option<Seq<char>>, Option<Seq<char>>)>,
    Seq<char>,
>;

/// Relies on `serde_json::from_str::<Vec<Value>>`: reads the listed notes'
/// `content` and `created_at` string fields, in order.
#[verifier::external_body]
fn parse_note_rows(body: &str) -> (r: Result<Vec<(Option<String>, Option<String>)>, String>)
    ensures
        match r {
            Ok(rows) => note_rows_of(body@) matches Ok(m) && rows@.len() == m.len() && forall|
                i: int,
            |
                0 <= i < rows@.len() ==> spec_opt_seq((#[trigger] rows@[i]).0) == m[i].0
                    && spec_opt_seq(rows@[i].1) == m[i].1,
            Err(e) => note_rows_of(body@) matches Err(m) && m == e@,
        },
{
    match serde_json::from_str::<Vec<serde_json::Value>>(body) {
        Ok(arr) => Ok(arr
            .iter()
            .map(|n| (
                n.get("content").and_then(|c| c.as_str()).map(String::from),
                n.get("created_at").and_then(|c| c.as_str()).map(String::from),
            ))
            .collect()),
        Err(e) => Err(e.to_string()),
    }
}

/// One listed note: its number, its content (with a placeholder for an
/// empty one) and the date part of its timestamp.
pub open spec fn spec_listing_item(row: (Option<Seq<char>>, Option<Seq<char>>), k: int) -> Seq<
    char,
> {
    spec_dec_digits((k + 1) as nat) + ". "@ + (match row.0 {
        Some(c) => c,
        None => "(empty)"@,
    }) + " ("@ + spec_date_part(
        match row.1 {
            Some(t) => t,
            None => "unknown time"@,
        },
    ) + ")\n"@
}

/// The listing lines from index `k` on.
pub open spec fn spec_listing_from(
    rows: Seq<(Option<Seq<char>>, Option<Seq<char>>)>,
    k: int,
) -> Seq<char>
    decreases rows.len() - k,
{
    if k < 0 || k >= rows.len() {
        Seq::empty()
    } else {
        spec_listing_item(rows[k], k) + spec_listing_from(rows, k + 1)
    }
}

fn listing_from(rows: &Vec<(Option<String>, Option<String>)>, k: usize) -> (r: String)
    ensures
        r@ == spec_listing_from(
            rows@.map_values(
                |p: (Option<String>, Option<String>)| (spec_opt_seq(p.0), spec_opt_seq(p.1)),
            ),
            k as int,
        ),
    decreases rows@.len() - k,
{
    let ghost m = rows@.map_values(
        |p: (Option<String>, Option<String>)| (spec_opt_seq(p.0), spec_opt_seq(p.1)),
    );
    if k >= rows.len() {
        String::new()
    } else {
        let mut s = usize_string(k + 1);
        s.append(". ");
        match &rows[k].0 {
            Some(c) => s.append(c.as_str()),
            None => s.append("(empty)"),
        }
        s.append(" (");
        let raw = match &rows[k].1 {
            Some(t) => date_part(t.as_str()),
            None => date_part("unknown time"),
        };
        s.append(raw.as_str());
        s.append(")\n");
        let rest = listing_from(rows, k + 1);
        s.append(rest.as_str());
        proof {
            assert(m[k as int] == (spec_opt_seq(rows@[k as int].0), spec_opt_seq(
                rows@[k as int].1,
            )));
        }
        s
    }
}

/// The displayed note listing: a notice when there is no note, otherwise a
/// count line and the numbered notes with their dates.
pub open spec fn spec_note_listing(rows: Seq<(Option<Seq<char>>, Option<Seq<char>>)>) -> Seq<
    char,
> {
    if rows.len() == 0 {
        "\u{1f4dd} No notes found. Add your first note with: logswise-cli note 'Your note here'"@
    } else {
        "\u{1f4dd} "@ + spec_dec_digits(rows.len()) + " most recent notes:\n\n"@
            + spec_listing_from(rows, 0)
    }
}

/// Renders the note listing for display.
pub fn note_listing(rows: &Vec<(Option<String>, Option<String>)>) -> (r: String)
    ensures
        r@ == spec_note_listing(
            rows@.map_values(
                |p: (Option<String>, Option<String>)| (spec_opt_seq(p.0), spec_opt_seq(p.1)),
            ),
        ),
{
    let ghost m = rows@.map_values(
        |p: (Option<String>, Option<String>)| (spec_opt_seq(p.0), spec_opt_seq(p.1)),
    );
    if rows.len() == 0 {
        "\u{1f4dd} No notes found. Add your first note with: logswise-cli note 'Your note here'"
            .to_owned()
    } else {
        let mut s = "\u{1f4dd} ".to_owned();
        let n = usize_string(rows.len());
        s.append(n.as_str());
        s.append(" most recent notes:\n\n");
        let items = listing_from(rows, 0);
        s.append(items.as_str());
        s
    }
}

/// What a note-listing reply displays: the listing on success, the exact
/// complaint otherwise.
pub open spec fn spec_listing_of_body(body: Seq<char>) -> Seq<char> {
    match note_rows_of(body) {
        Ok(rows) => spec_note_listing(rows),
        Err(e) => "Error parsing notes: "@ + e,
    }
}

/// Renders a note-listing reply body for display.
pub fn listing_of_body(body: &str) -> (r: String)
    ensures
        r@ == spec_listing_of_body(body@),
{
    match parse_note_rows(body) {
        Ok(rows) => {
            let r = note_listing(&rows);
            proof {
                let m = rows@.map_values(
                    |p: (Option<String>, Option<String>)| (spec_opt_seq(p.0), spec_opt_seq(p.1)),
                );
                assert(m =~= note_rows_of(body@)->Ok_0);
            }
            r
        },
        Err(e) => {
            let mut s = "Error parsing notes: ".to_owned();
            s.append(e.as_str());
            s
        },
    }
}

/// What a table-existence probe means: the table exists on 200; a 404
/// whose body names a missing relation means it does not exist, any other
/// 404 is an access problem; 401 and 403 are credential problems.
pub open spec fn spec_table_check(code: u16, code_text: Seq<char>, body: Seq<char>) -> Result<
    bool,
    Seq<char>,
> {
    if code == 200 {
        Ok(true)
    } else if code == 404 {
        if spec_contains_seq(body, "relation"@) && spec_contains_seq(body, "does not exist"@) {
            Ok(false)
        } else {
            Err("Unable to access database. Please check your Supabase configuration."@)
        }
    } else if code == 401 || code == 403 {
        Err("Invalid API key or insufficient permissions"@)
    } else {
        Err("Unexpected response: HTTP "@ + code_text)
    }
}

/// Classifies a table-existence probe's reply.
pub fn check_notes_table_exists(code: u16, code_text: &str, body: &str) -> (r: Result<
    bool,
    String,
>)
    ensures
        match r {
            Ok(b) => spec_table_check(code, code_text@, body@) == Ok::<bool, Seq<char>>(b),
            Err(m) => spec_table_check(code, code_text@, body@) matches Err(e) && m@ == e,
        },
{
    if code == 200 {
        Ok(true)
    } else if code == 404 {
        let v = chars_vec(body);
        if contains_lit(&v, "relation") && contains_lit(&v, "does not exist") {
            Ok(false)
        } else {
            Err("Unable to access database. Please check your Supabase configuration.".to_owned())
        }
    } else if code == 401 || code == 403 {
        Err("Invalid API key or insufficient permissions".to_owned())
    } else {
        let mut m = "Unexpected response: HTTP ".to_owned();
        m.append(code_text);
        Err(m)
    }
}

/// What a connectivity probe means: success on a 2xx status, an
/// authentication complaint otherwise.
pub open spec fn spec_connection_check(code: u16, code_text: Seq<char>) -> Result<(), Seq<char>> {
    if 200 <= code < 300 {
        Ok(())
    } else {
        Err("Authentication failed: HTTP "@ + code_text)
    }
}

/// Classifies a connectivity probe's reply.
pub fn test_connection(code: u16, code_text: &str) -> (r: Result<(), String>)
    ensures
        match r {
            Ok(()) => spec_connection_check(code, code_text@) is Ok,
            Err(m) => spec_connection_check(code, code_text@) matches Err(e) && m@ == e,
        },
{
    if 200 <= code && code < 300 {
        Ok(())
    } else {
        let mut m = "Authentication failed: HTTP ".to_owned();
        m.append(code_text);
        Err(m)
    }
}

} // verus!
