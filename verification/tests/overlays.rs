use space_game_client::components::{frame_component, hud_component, menu_component};
use space_game_client::flame::{flame_color, flame_frame, sprite_index, FlameColor};
use space_game_client::frame::{frame_needs_render, frame_svg, replace_path};
use space_game_client::hud::{charge_text, health_text, is_overlay_id, ping_text, players_text};
use space_game_client::menu::{status_message, MenuState, MenuSync};
use space_game_client::network::connection::GuestConnection;
use space_game_client::palette::{ship_color, Palette};
use space_game_client::text::decimal_text;

#[test]
fn components_name_their_templates() {
    let frame = frame_component();
    assert_eq!(frame.template_name, "app-frame");
    assert_eq!(frame.template_file, "frame.component.html");
    assert_eq!(frame.styles, &["frame.css"]);
    let hud = hud_component();
    assert_eq!(hud.template_name, "app-hud");
    assert_eq!(hud.template_file, "hud.component.html");
    assert_eq!(hud.styles, &["hud.css"]);
    let menu = menu_component();
    assert_eq!(menu.template_name, "app-menu");
    assert_eq!(menu.template_file, "menu.component.html");
    assert_eq!(menu.styles, &["menu.css"]);
}

fn hex(p: Palette) -> String {
    let (r, g, b) = p.color();
    format!("#{r:02x}{g:02x}{b:02x}")
}

#[test]
fn palette_matches_the_published_swatches() {
    let expected = [
        (Palette::Forest, "#0a401a"),
        (Palette::Moss, "#6d852c"),
        (Palette::Olive, "#b3a724"),
        (Palette::Citron, "#e6eb6a"),
        (Palette::Cream, "#ede8e1"),
        (Palette::Mint, "#a7dbbb"),
        (Palette::Teal, "#5d858c"),
        (Palette::Indigo, "#3d476e"),
        (Palette::Navy, "#32244d"),
        (Palette::PlumBlack, "#27142b"),
        (Palette::Sand, "#d6c2ba"),
        (Palette::Tan, "#bf9684"),
        (Palette::Rose, "#a66372"),
        (Palette::Mulberry, "#733754"),
        (Palette::Plum, "#451e3e"),
        (Palette::Wine, "#2e0f29"),
    ];
    for (swatch, code) in expected {
        assert_eq!(hex(swatch), code);
    }
    assert_eq!(ship_color(true), Palette::Teal);
    assert_eq!(ship_color(false), Palette::Rose);
}

#[test]
fn hud_texts() {
    assert_eq!(charge_text(7), "007");
    assert_eq!(charge_text(42), "042");
    assert_eq!(charge_text(255), "255");
    assert_eq!(players_text(3), "PLAYERS: 3");
    assert_eq!(players_text(0), "PLAYERS: 0");
    assert_eq!(ping_text(Some(48)), "Ping: 48 ms");
    assert_eq!(ping_text(None), "Ping: -- Ms");
    assert_eq!(health_text(100), "100");
    assert_eq!(decimal_text(0), "0");
    assert_eq!(decimal_text(1_000_000), "1000000");
    assert_eq!(decimal_text(u128::MAX), u128::MAX.to_string());
}

#[test]
fn overlay_ids() {
    for id in ["hud", "frame-layer", "hud-map", "hud-status", "hud-abilities", "hud-health", "hud-alert"] {
        assert!(is_overlay_id(id));
    }
    assert!(!is_overlay_id("hud-fps"));
    assert!(!is_overlay_id("menu-slot"));
    assert!(!is_overlay_id(""));
}

#[test]
fn flame_follows_boost_and_thrust() {
    assert_eq!(flame_color(true, 3, false), Some(FlameColor::Blue));
    assert_eq!(flame_color(true, 0, true), Some(FlameColor::Red));
    assert_eq!(flame_color(false, 3, true), Some(FlameColor::Red));
    assert_eq!(flame_color(false, 3, false), None);
    assert_eq!(sprite_index(0), 0);
    assert_eq!(sprite_index(89), 0);
    assert_eq!(sprite_index(90), 1);
    assert_eq!(sprite_index(270), 0);
    let red = [Some(1), None, Some(3)];
    let blue = [Some(4), Some(5), Some(6)];
    assert_eq!(flame_frame(&red, &blue, Some(FlameColor::Red), 0), Some(&1));
    assert_eq!(flame_frame(&red, &blue, Some(FlameColor::Red), 1), None);
    assert_eq!(flame_frame(&red, &blue, Some(FlameColor::Blue), 1), Some(&5));
    assert_eq!(flame_frame(&red, &blue, Some(FlameColor::Blue), 3), None);
    assert_eq!(flame_frame(&red, &blue, None, 0), None);
}

#[test]
fn menu_retires_once_the_player_joins() {
    let mut connection = GuestConnection::new();
    let mut menu = MenuState::new();
    assert_eq!(menu.sync(&connection, true), MenuSync::Keep);
    connection.started_by_play = true;
    assert_eq!(menu.sync(&connection, false), MenuSync::ShowStatus);
    assert_eq!(status_message(&connection), "Waiting for your player…");
    connection.message = "Connecting securely...".to_owned();
    assert_eq!(status_message(&connection), "Connecting securely...");
    assert_eq!(menu.sync(&connection, true), MenuSync::Retire);
    assert!(menu.retired);
    assert_eq!(menu.sync(&connection, false), MenuSync::Keep);
    menu.reopen();
    assert_eq!(menu.sync(&connection, false), MenuSync::ShowStatus);
}

const TEMPLATE: &str = "<svg width=\"800\" height=\"600\" viewBox=\"0 0 800 600\"><path id=\"frame-mask\" d=\"M0 0\"/><path id=\"frame-outline\" d=\"M1 1\"/></svg>";

#[test]
fn paths_are_replaced() {
    assert_eq!(
        replace_path("<path id=\"a\" d=\"old\"/>", "a", "new").unwrap(),
        "<path id=\"a\" d=\"new\"/>"
    );
    assert_eq!(replace_path("<path id=\"a\" d=\"old\"/>", "b", "new"), None);
    assert_eq!(replace_path("<path id=\"a\" d=\"old", "a", "new"), None);
}

#[test]
fn frame_is_resized() {
    let svg = frame_svg(TEMPLATE, "1024", "768", "M30 30 Z").unwrap();
    assert_eq!(
        svg,
        "<svg width=\"1024\" height=\"768\" viewBox=\"0 0 1024 768\"><path id=\"frame-mask\" d=\"M0 0 H1024 V768 H0 Z M30 30 Z\"/><path id=\"frame-outline\" d=\"M30 30 Z\"/></svg>"
    );
    assert_eq!(frame_svg("<svg/>", "1", "1", "M0 0"), None);
    assert!(frame_needs_render((1, 2, 3), (1, 2, 3), false));
    assert!(frame_needs_render((1, 2, 3), (1, 2, 4), true));
    assert!(!frame_needs_render((1, 2, 3), (1, 2, 3), true));
}
