use anime_cli::model::{AnimeAttributes, AnimeData};
use anime_cli::render::render_results;

fn bebop() -> AnimeData {
    AnimeData {
        id: "1".to_string(),
        attributes: AnimeAttributes {
            canonical_title: "Cowboy Bebop".to_string(),
            synopsis: None,
            average_rating: Some("82.4".to_string()),
            start_date: Some("1998-04-03".to_string()),
            end_date: Some("1999-04-24".to_string()),
            status: Some("finished".to_string()),
            episode_count: Some(26),
        },
    }
}

#[test]
fn empty_batch_renders_only_the_no_results_notice() {
    let lines = render_results(&vec![], 80, false);
    assert_eq!(lines, vec!["No results found.".to_string()]);
}

#[test]
fn empty_batch_notice_is_red_when_color_is_on() {
    let lines = render_results(&vec![], 80, true);
    assert_eq!(lines, vec!["\u{1b}[31mNo results found.\u{1b}[0m".to_string()]);
}

#[test]
fn full_entry_renders_every_field_line() {
    let lines = render_results(&vec![bebop()], 80, false);
    assert_eq!(
        lines,
        vec![
            "".to_string(),
            "SEARCH RESULTS:".to_string(),
            "=".repeat(80),
            "1. Cowboy Bebop (ID: 1)".to_string(),
            "  Rating: 82.4/100".to_string(),
            "  Episodes: 26".to_string(),
            "  Status: finished".to_string(),
            "  Aired: 1998-04-03 to 1999-04-24".to_string(),
            "-".repeat(80),
        ]
    );
}

#[test]
fn missing_end_date_reads_to_present() {
    let mut e = bebop();
    e.attributes.end_date = None;
    let lines = render_results(&vec![e], 80, false);
    assert!(lines.contains(&"  Aired: 1998-04-03 to present".to_string()));
}

#[test]
fn absent_fields_get_no_line() {
    let e = AnimeData {
        id: "7".to_string(),
        attributes: AnimeAttributes {
            canonical_title: "X".to_string(),
            synopsis: None,
            average_rating: None,
            start_date: None,
            end_date: None,
            status: None,
            episode_count: None,
        },
    };
    let lines = render_results(&vec![e], 80, false);
    assert_eq!(
        lines,
        vec![
            "".to_string(),
            "SEARCH RESULTS:".to_string(),
            "=".repeat(80),
            "1. X (ID: 7)".to_string(),
            "-".repeat(80),
        ]
    );
}

#[test]
fn entries_are_numbered_in_list_order() {
    let mut a = bebop();
    a.id = "10".to_string();
    let mut b = bebop();
    b.id = "11".to_string();
    b.attributes.canonical_title = "Trigun".to_string();
    let lines = render_results(&vec![a, b], 80, false);
    assert!(lines.contains(&"1. Cowboy Bebop (ID: 10)".to_string()));
    assert!(lines.contains(&"2. Trigun (ID: 11)".to_string()));
}

#[test]
fn width_is_capped_at_one_hundred() {
    let lines = render_results(&vec![bebop()], 500, false);
    assert_eq!(lines[2], "=".repeat(100));
    assert_eq!(lines[lines.len() - 1], "-".repeat(100));
}

#[test]
fn long_synopsis_is_truncated_to_the_cap_with_ellipsis() {
    let mut e = bebop();
    e.attributes.synopsis = Some("x".repeat(200));
    let lines = render_results(&vec![e], 80, false);
    // cap = min(80, 100) - 10 = 70 characters, then the marker
    let expected = format!("  {}...", "x".repeat(70));
    assert!(lines.contains(&expected));
}

#[test]
fn short_synopsis_is_left_whole() {
    let mut e = bebop();
    e.attributes.synopsis = Some("short tale".to_string());
    let lines = render_results(&vec![e], 80, false);
    assert!(lines.contains(&"  short tale".to_string()));
}

#[test]
fn narrow_terminal_does_not_underflow_the_synopsis_cap() {
    let mut e = bebop();
    e.attributes.synopsis = Some("anything at all".to_string());
    // width 5 gives a zero budget: just the marker, and no panic
    let lines = render_results(&vec![e], 5, false);
    assert!(lines.contains(&"  ...".to_string()));
    // width exactly 10 is the last zero-budget width
    let mut e2 = bebop();
    e2.attributes.synopsis = Some("y".to_string());
    let lines2 = render_results(&vec![e2], 10, false);
    assert!(lines2.contains(&"  ...".to_string()));
}

#[test]
fn truncation_counts_characters_not_bytes() {
    let mut e = bebop();
    e.attributes.synopsis = Some("あ".repeat(100));
    let lines = render_results(&vec![e], 80, false);
    let expected = format!("  {}...", "あ".repeat(70));
    assert!(lines.contains(&expected));
}

#[test]
fn color_mode_paints_title_and_status() {
    let lines = render_results(&vec![bebop()], 80, true);
    assert!(lines.contains(
        &"\u{1b}[1;33m1\u{1b}[0m. \u{1b}[1;36mCowboy Bebop\u{1b}[0m (ID: 1)".to_string()
    ));
    assert!(lines.contains(&"  Status: \u{1b}[32mfinished\u{1b}[0m".to_string()));
}

#[test]
fn unknown_status_is_unstyled_even_in_color_mode() {
    let mut e = bebop();
    e.attributes.status = Some("cancelled".to_string());
    let lines = render_results(&vec![e], 80, true);
    assert!(lines.contains(&"  Status: cancelled".to_string()));
}
