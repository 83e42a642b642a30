use mcp_extensions::audit::{
    access_entry, plain_result_text, plain_results_enabled, rejection_entry,
    truncate_on_char_boundary, MAX_REASON_LEN,
};
use mcp_extensions::text::{html_to_text, is_block_break, match_start, snippet_around, SNIPPET_CHARS};

#[test]
fn html_to_text_strips_tags_and_collapses_whitespace() {
    assert_eq!(html_to_text("<p>Hello <b>world</b></p>"), "Hello world");
    assert_eq!(html_to_text("<p>one</p><p>two</p>"), "one two");
    assert_eq!(html_to_text("  a \n\n  b  "), "a b");
}

#[test]
fn html_to_text_decodes_entities() {
    assert_eq!(html_to_text("Tom &amp; Jerry &lt;3"), "Tom & Jerry <3");
}

#[test]
fn html_to_text_of_only_markup_is_empty() {
    assert_eq!(html_to_text("<br/><p></p>"), "");
}

#[test]
fn plain_text_has_no_runs_of_whitespace() {
    let t = html_to_text("<div>  lots\t\tof </div>\n<p>   space  </p>");
    assert!(!t.starts_with(' '));
    assert!(!t.ends_with(' '));
    assert!(!t.contains("  "));
    assert_eq!(t, "lots of space");
}

#[test]
fn block_tags_break_and_inline_tags_do_not() {
    assert!(is_block_break("p"));
    assert!(is_block_break("/div"));
    assert!(is_block_break("br/"));
    assert!(is_block_break("P class=\"x\""));
    assert!(!is_block_break("b"));
    assert!(!is_block_break("span class=\"x\""));
}

#[test]
fn match_start_is_case_insensitive() {
    assert_eq!(match_start("Hello World", "world"), Some(6));
    assert_eq!(match_start("Hello World", "absent"), None);
}

#[test]
fn short_text_snippet_is_the_whole_text() {
    assert_eq!(snippet_around("a short note", "note"), "a short note");
}

#[test]
fn long_text_snippet_is_bounded_and_centred() {
    let text: String = "x".repeat(300) + "needle" + &"y".repeat(300);
    let s = snippet_around(&text, "needle");
    assert!(s.contains("needle"));
    assert!(s.starts_with('…'));
    assert!(s.ends_with('…'));
    assert_eq!(s.chars().count(), SNIPPET_CHARS + 2);
}

#[test]
fn snippet_without_a_hit_starts_at_the_head() {
    let text: String = "z".repeat(250);
    let s = snippet_around(&text, "absent");
    assert!(!s.starts_with('…'));
    assert!(s.ends_with('…'));
    assert_eq!(s.chars().count(), SNIPPET_CHARS + 1);
}

#[test]
fn truncation_keeps_short_strings() {
    assert_eq!(truncate_on_char_boundary("short", 10), "short");
}

#[test]
fn truncation_cuts_on_a_char_boundary_and_marks_the_cut() {
    assert_eq!(truncate_on_char_boundary("abcdef", 3), "abc...");
    // 'é' is two bytes: a budget of 2 cannot take "aé", only "a".
    assert_eq!(truncate_on_char_boundary("aébc", 2), "a...");
}

#[test]
fn rejection_reason_is_truncated_in_the_description_only() {
    let reason = "r".repeat(200);
    let (description, meta) = rejection_entry("odoo", "crm_lead_search", &reason);
    let expected = format!("Access rejected on odoo: {}...", "r".repeat(MAX_REASON_LEN));
    assert_eq!(description, expected);
    assert_eq!(meta.reason.as_deref(), Some(reason.as_str()));
    assert_eq!(meta.tool_name, "crm_lead_search");
}

#[test]
fn access_entries_name_the_tool_or_the_server() {
    let used = access_entry("odoo", "note_add", "used");
    assert_eq!(used.entity_type, "tool");
    assert_eq!(used.entity_name, "note_add");
    assert_eq!(used.description, "Executed 'note_add' on odoo");
    let auth = access_entry("odoo", "note_add", "authenticated");
    assert_eq!(auth.entity_type, "mcp_server");
    assert_eq!(auth.entity_name, "odoo");
    assert_eq!(auth.description, "Authenticated to odoo for 'note_add'");
    let other = access_entry("odoo", "note_add", "denied");
    assert_eq!(other.description, "denied on odoo");
}

#[test]
fn plain_results_are_on_unless_switched_off() {
    assert!(plain_results_enabled(None));
    assert!(plain_results_enabled(Some("1")));
    assert!(!plain_results_enabled(Some(" off ")));
    assert!(!plain_results_enabled(Some("false")));
    assert!(!plain_results_enabled(Some("0")));
}

#[test]
fn plain_result_text_joins_summary_and_body_once() {
    let blocks = vec![None, Some("3 lead(s)".to_string())];
    assert_eq!(
        plain_result_text(&blocks, Some("| table |".to_string())),
        "3 lead(s)\n\n| table |"
    );
    assert_eq!(plain_result_text(&blocks, Some("3 lead(s)".to_string())), "3 lead(s)");
    assert_eq!(plain_result_text(&vec![], None), "");
}
