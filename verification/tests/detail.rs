use aurelia_tui::artwork::{cover_box_width, RgbaImage};
use aurelia_tui::aurelia::{InfoJson, LibraryGameJson};
use aurelia_tui::config::Config;
use aurelia_tui::game::Game;
use aurelia_tui::ui::detail::{content_height, detail_rows, DetailRow};

fn library_game(id: u32, name: &str) -> Game {
    Game::from_library(LibraryGameJson {
        app_id: id,
        name: name.to_string(),
        is_installed: true,
        install_path: Some("/games/x".to_string()),
        update_available: false,
        is_owned: true,
        is_family_shared: false,
        platform: None,
        active_branch: None,
        assets: None,
        store_url: Some("https://store/x".to_string()),
    })
}

fn field(row: &DetailRow) -> (String, Vec<String>) {
    match row {
        DetailRow::Field(h, lines) => (h.clone(), lines.clone()),
        other => panic!("not a field: {:?}", other),
    }
}

#[test]
fn detail_without_selection_says_so() {
    let (rows, height) = detail_rows(None, &Config::default_config(), false, 40, "0 B");
    assert_eq!(rows.len(), 1);
    assert!(matches!(&rows[0], DetailRow::Message(m) if m == "No game selected"));
    assert_eq!(height, 1);
}

#[test]
fn detail_lists_store_and_install_rows() {
    let mut config = Config::default_config();
    config.favorite_games.push(-7);
    let g = library_game(4294967289, "Portal");
    let (rows, height) = detail_rows(Some(&g), &config, false, 40, "0 B");
    assert_eq!(rows.len(), 11);
    assert_eq!(height, 11);
    assert!(matches!(&rows[0], DetailRow::Labels(a, b) if a == "ID" && b == "Name"));
    assert!(matches!(&rows[1], DetailRow::Values(a, b) if a == "-7" && b == "\u{2661} Portal"));
    assert!(matches!(&rows[2], DetailRow::Blank));
    assert_eq!(field(&rows[3]), ("Homepage".to_string(), vec!["https://store/x".to_string()]));
    assert_eq!(field(&rows[4]), ("Developer".to_string(), vec!["-".to_string()]));
    assert_eq!(field(&rows[6]), ("Proton Tier".to_string(), vec!["-".to_string()]));
    assert_eq!(field(&rows[8]), ("State".to_string(), vec!["installed".to_string()]));
    assert_eq!(field(&rows[9]), ("Installation".to_string(), vec!["/games/x".to_string()]));
    assert_eq!(field(&rows[10]), ("Size".to_string(), vec!["0 B".to_string()]));
}

#[test]
fn detail_description_collapses_to_six_lines() {
    let mut g = library_game(10, "Doom");
    g.info = Some(InfoJson {
        app_id: 10,
        name: "Doom".to_string(),
        app_type: "game".to_string(),
        developers: vec!["id Software".to_string(), "Nightdive".to_string()],
        publishers: vec![],
        description: "one two three four five six seven eight nine ten".to_string(),
        reviews: None,
    });
    let config = Config::default_config();
    let (rows, height) = detail_rows(Some(&g), &config, false, 3, "0 B");
    assert_eq!(rows.len(), 13);
    assert_eq!(field(&rows[4]), ("Developer".to_string(), vec!["id Software, Nightdive".to_string()]));
    let (heading, lines) = field(&rows[12]);
    assert_eq!(heading, "Description ([i] expand)");
    assert_eq!(lines, vec!["one", "two", "three", "four", "five", "six\u{2026}"]);
    assert_eq!(height, 18);
    assert_eq!(content_height(Some(&g), &config, false, 3), 18);
    assert_eq!(content_height(None, &config, false, 3), 1);

    let (rows, height) = detail_rows(Some(&g), &config, true, 3, "0 B");
    let (heading, lines) = field(&rows[12]);
    assert_eq!(heading, "Description ([i] collapse)");
    assert_eq!(lines.len(), 10);
    assert_eq!(height, 22);

    // A zero-width column wraps as if one wide.
    let (rows, _) = detail_rows(Some(&g), &config, true, 0, "0 B");
    assert_eq!(field(&rows[12]).1.len(), 10);
}

fn img(w: u32, h: u32) -> RgbaImage {
    RgbaImage { buffer: image::ImageBuffer::from_pixel(w, h, image::Rgba([1, 2, 3, 255])) }
}

#[test]
fn cover_box_keeps_the_aspect_within_limits() {
    // 10 rows are 20 pixels: a 100x200 cover is 10 wide there.
    assert_eq!(cover_box_width(10, &img(100, 200), 50), Some(10));
    // Too wide for the pane: held at the limit.
    assert_eq!(cover_box_width(10, &img(400, 20), 50), Some(50));
    // Too narrow to show: at least one cell.
    assert_eq!(cover_box_width(1, &img(1, 300), 50), Some(1));
    // An empty picture gets no box.
    assert_eq!(cover_box_width(10, &img(0, 0), 50), None);
}
