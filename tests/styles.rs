use puzzle_session::styles::{ButtonStyle, PieceTheme, Theme};

#[test]
fn piece_theme_names() {
    assert_eq!(PieceTheme::Cburnett.name(), "cburnett");
    assert_eq!(PieceTheme::Alpha.name(), "alpha");
    assert_eq!(PieceTheme::Merida.name(), "merida");
    assert_eq!(PieceTheme::FontAlpha.name(), "Paper - chess alpha");
}

#[test]
fn all_piece_themes() {
    let all = PieceTheme::all();
    assert_eq!(all.len(), 13);
    assert_eq!(all[0], PieceTheme::Cburnett);
    assert_eq!(all[12], PieceTheme::FontAlpha);
}

#[test]
fn theme_names() {
    assert_eq!(Theme::Blue.name(), "Blue");
    assert_eq!(Theme::ColdGrey.name(), "Cold Grey");
    assert_eq!(Theme::PurpleDark.name(), "Purple - Dark Mode");
    assert_eq!(Theme::ColdGreyDark.name(), "Cold Grey - Dark");
}

#[test]
fn all_themes() {
    let all = Theme::all();
    assert_eq!(all.len(), 12);
    assert_eq!(all[0], Theme::Blue);
    assert_eq!(all[11], Theme::ColdGreyDark);
}

#[test]
fn style_defaults() {
    assert_eq!(Theme::default(), Theme::Blue);
    assert_eq!(ButtonStyle::default(), ButtonStyle::Normal);
}
