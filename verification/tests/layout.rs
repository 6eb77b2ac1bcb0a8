use aurelia_tui::ui::chat::{conversation, wrap_body, ChatRow};
use aurelia_tui::ui::detail::wrap;
use aurelia_tui::ui::help::{entries, row_count};
use aurelia_tui::ui::list::{clip, marquee, row_layout, window_start, MarqueeClock};
use aurelia_tui::ui::selection_marker;
use aurelia_tui::ui::settings::{opt, plugin_desc, steam_runtime_desc, yes_no};
use aurelia_tui::aurelia::{ChatMessageJson, InstalledPluginJson, PluginStatusJson, SteamRuntimeStatusJson};

#[test]
fn wrap_body_hard_splits_multibyte_word_on_char_boundaries() {
    let word = "日".repeat(10);
    let width = 4;
    let lines = wrap_body(&word, width, width);
    for line in &lines {
        assert!(line.chars().count() <= width, "line {line:?} exceeds {width} columns");
    }
    assert_eq!(lines.concat(), word, "multibyte word must round-trip");
}

#[test]
fn wrap_body_mixed_ascii_and_emoji_does_not_panic() {
    let body = "hi 🎮🎮🎮🎮🎮 ok";
    let lines = wrap_body(body, 3, 3);
    for line in &lines {
        assert!(line.chars().count() <= 3, "line {line:?} exceeds 3 columns");
    }
    let glyphs: String = body.chars().filter(|c| !c.is_whitespace()).collect();
    let wrapped: String = lines.concat().chars().filter(|c| !c.is_whitespace()).collect();
    assert_eq!(wrapped, glyphs, "no glyph lost or corrupted across wrap");
}

#[test]
fn names_that_fit_are_unchanged() {
    assert_eq!(marquee("Doom", 10, 7), "Doom");
    assert_eq!(marquee("Doom", 4, 3), "Doom");
    assert_eq!(marquee("Doom", 0, 1), "Doom");
}

#[test]
fn overflowing_names_scroll_and_keep_the_column_width() {
    let name = "Counter-Strike";
    let budget = 6;
    let s0 = marquee(name, budget, 0);
    assert_eq!(s0.chars().count(), budget, "window is exactly the column wide");
    assert_eq!(s0, "Counte");
    assert_eq!(marquee(name, budget, 1), "ounter");
    let period = name.chars().count() + "   •   ".chars().count();
    assert_eq!(marquee(name, budget, period), s0);
}

#[test]
fn marquee_wraps_through_the_gap() {
    // Tick 12 starts at "ke", then the gap follows.
    assert_eq!(marquee("Counter-Strike", 6, 12), "ke   •");
    // Every tick keeps the window exactly as wide as the budget.
    for tick in 0..40 {
        assert_eq!(marquee("Counter-Strike", 6, tick).chars().count(), 6);
    }
}

#[test]
fn clip_cuts_with_an_ellipsis() {
    assert_eq!(clip("Doom", 10), "Doom");
    assert_eq!(clip("Counter-Strike", 6), "Count\u{2026}");
    assert_eq!(clip("Counter-Strike", 0), "");
}

#[test]
fn wrap_body_keeps_words_whole_when_they_fit() {
    let lines = wrap_body("hello big world", 5, 9);
    assert_eq!(lines, vec!["hello".to_string(), "big world".to_string()]);
    for line in &lines {
        assert!(line.chars().count() <= 9);
    }
}

#[test]
fn wrap_body_of_blank_text_is_one_empty_line() {
    assert_eq!(wrap_body("   ", 4, 4), vec![String::new()]);
}

#[test]
fn detail_wrap_respects_paragraphs() {
    let lines = wrap("one two three\nfour", 7);
    assert_eq!(lines, vec!["one two".to_string(), "three".to_string(), "four".to_string()]);
}

#[test]
fn selection_marker_marks_the_highlight() {
    assert_eq!(selection_marker(true), "\u{25b6} ");
    assert_eq!(selection_marker(false), "  ");
}

#[test]
fn help_rows_pair_the_entries() {
    let n = entries().len();
    assert_eq!(n, 59);
    assert_eq!(row_count() as usize, (n + 1) / 2);
}

#[test]
fn settings_values_read_plainly() {
    assert_eq!(opt(&Some("friends".to_string())), "friends");
    assert_eq!(opt(&Some(String::new())), "\u{2014}");
    assert_eq!(opt(&None), "\u{2014}");
    assert_eq!(yes_no(true), "on");
    assert_eq!(yes_no(false), "off");
}

#[test]
fn plugin_lines_describe_the_state() {
    assert_eq!(plugin_desc(None), "status unavailable");
    let on = PluginStatusJson { enabled: true, installed: Some(InstalledPluginJson { version: "1.2".to_string() }) };
    assert_eq!(plugin_desc(Some(&on)), "enabled \u{b7} installed 1.2");
    let off = PluginStatusJson { enabled: false, installed: None };
    assert_eq!(plugin_desc(Some(&off)), "disabled \u{b7} not installed");
    let rt = SteamRuntimeStatusJson { layout_kind: "sniper".to_string(), steam_exe_present: false };
    assert_eq!(steam_runtime_desc(Some(&rt)), "sniper \u{b7} steam missing");
    assert_eq!(steam_runtime_desc(None), "status unavailable");
}

fn msg(text: &str, from_self: bool) -> ChatMessageJson {
    ChatMessageJson { sender: 0, message: text.to_string(), from_self, timestamp: 0 }
}

fn row_text(row: &ChatRow) -> String {
    match row {
        ChatRow::Blank => String::new(),
        ChatRow::Hint(h) => h.clone(),
        ChatRow::Line(label, text, pad, _) => format!("{}{}{}", " ".repeat(*pad), label, text),
    }
}

#[test]
fn friends_whole_list_scrolls_to_keep_highlight_visible() {
    // Ten friends, three rows visible, the eighth highlighted.
    let names: Vec<String> = (0..10).map(|i| format!("Friend{i}")).collect();
    let start = window_start(7, 3);
    let shown: Vec<&String> = names.iter().skip(start).take(3).collect();
    assert!(shown.iter().any(|n| n.as_str() == "Friend7"), "highlighted friend is visible");
    assert!(!shown.iter().any(|n| n.as_str() == "Friend0"), "early friends scrolled off the top");
    assert_eq!(window_start(2, 3), 0);
    assert_eq!(window_start(5, 0), 0);
}

#[test]
fn chat_bottom_anchored_with_per_side_alignment() {
    let messages = vec![msg("hello there", false), msg("hi yourself", true)];
    let (w, h) = (50usize, 14usize);
    let rows: Vec<String> = conversation(&messages, "Alice", w - 2, h - 2).iter().map(row_text).collect();
    assert_eq!(rows.len(), h - 4);
    let other_row = rows.iter().position(|r| r.contains("hello there")).expect("partner msg");
    let own_row = rows.iter().position(|r| r.contains("hi yourself")).expect("own msg");
    assert!(own_row > other_row, "newest message is anchored lower (bottom)");
    assert_eq!(own_row, rows.len() - 1);
    let other_col = rows[other_row].find("hello there").unwrap();
    let own_col = rows[own_row].find("hi yourself").unwrap();
    assert!(own_col > other_col + 10, "own message right-aligned");
    assert_eq!(rows[own_row].chars().count(), w - 2, "own message ends at the right edge");
    assert!(other_row + 1 >= h / 2, "messages bottom-anchored, not at top");
    assert!(rows[own_row].contains("me:"));
    assert!(rows[other_row].starts_with("Alice:"));
}

#[test]
fn chat_overflow_keeps_newest() {
    let messages: Vec<ChatMessageJson> = (0..20).map(|i| msg(&format!("msg{i}"), i % 2 == 0)).collect();
    let (w, h) = (40usize, 10usize);
    let rows: Vec<String> = conversation(&messages, "Alice", w - 2, h - 2).iter().map(row_text).collect();
    assert_eq!(rows.len(), h - 4);
    let joined = rows.join("\n");
    assert!(joined.contains("msg19"), "newest message kept");
    assert!(!joined.contains("msg0"), "oldest dropped");
    assert!(rows.last().unwrap().contains("msg19"));
}

#[test]
fn empty_chat_shows_the_hint_at_the_bottom() {
    let rows = conversation(&Vec::new(), "Alice", 30, 6);
    assert_eq!(rows.len(), 4);
    assert_eq!(rows[0], ChatRow::Blank);
    assert_eq!(rows[3], ChatRow::Hint("No messages yet. Say hi!".to_string()));
    assert!(conversation(&Vec::new(), "Alice", 30, 1).is_empty());
}

#[test]
fn list_rows_fit_names_around_their_notes() {
    // A plain row shows the whole name; the note follows two spaces on.
    assert_eq!(row_layout("Portal", "\u{25cf}", &None, false, 20, 0), ("Portal".to_string(), 2));
    // The highlighted row marquees in the room the marker, glyph and note leave.
    let update = Some("update".to_string());
    assert_eq!(row_layout("Counter-Strike", "\u{25b2}", &update, true, 20, 0), ("Counte".to_string(), 2));
    assert_eq!(row_layout("Counter-Strike", "\u{25b2}", &update, true, 20, 1), ("ounter".to_string(), 2));
    // A download pins its percentage to the right edge.
    let pct = Some("42.0%".to_string());
    assert_eq!(
        row_layout("Counter-Strike 2 Deluxe Edition", "\u{2b07}", &pct, false, 30, 0),
        ("Counter-Strike 2 \u{2026}".to_string(), 1)
    );
    assert_eq!(row_layout("Doom", "\u{23f8}", &pct, false, 30, 0), ("Doom".to_string(), 15));
    // Without a percentage a download row is laid out like the others.
    assert_eq!(row_layout("Doom", "\u{2b07}", &None, false, 30, 0), ("Doom".to_string(), 2));
}

#[test]
fn marquee_restarts_when_the_highlight_moves() {
    let mut clock = MarqueeClock::new();
    assert_eq!(clock.step(Some(3), 100), 0);
    assert_eq!(clock.step(Some(3), 104), 4);
    assert_eq!(marquee("Counter-Strike", 6, clock.step(Some(3), 101)), "ounter");
    assert_eq!(clock.step(Some(4), 110), 0, "a new row starts at its first character");
    assert_eq!(marquee("Counter-Strike", 6, clock.step(Some(4), 110)), "Counte");
    assert_eq!(clock.step(None, 120), 0);
}
