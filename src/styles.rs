use vstd::prelude::*;

verus! {

/// The sets of piece images that the board can be drawn with.
#[derive(Debug, Clone, Copy, PartialEq, Eq)]
pub enum PieceTheme {
    Cburnett,
    Alpha,
    California,
    Cardinal,
    Governor,
    Dubrovny,
    Gioco,
    Icpieces,
    Maestro,
    Staunty,
    Tatiana,
    Merida,
    FontAlpha,
}

/// The name under which a piece set is shown and stored.
pub open spec fn piece_theme_name(t: PieceTheme) -> Seq<char> {
    match t {
        PieceTheme::Cburnett => "cburnett"@,
        PieceTheme::Alpha => "alpha"@,
        PieceTheme::California => "california"@,
        PieceTheme::Cardinal => "cardinal"@,
        PieceTheme::Governor => "governor"@,
        PieceTheme::Dubrovny => "dubrovny"@,
        PieceTheme::Gioco => "gioco"@,
        PieceTheme::Icpieces => "icpieces"@,
        PieceTheme::Maestro => "maestro"@,
        PieceTheme::Staunty => "staunty"@,
        PieceTheme::Tatiana => "tatiana"@,
        PieceTheme::Merida => "merida"@,
        PieceTheme::FontAlpha => "Paper - chess alpha"@,
    }
}

impl PieceTheme {
    /// Every piece set, in the order in which they are offered.
    pub fn all() -> (r: Vec<PieceTheme>)
        ensures
            r@ == seq![
                PieceTheme::Cburnett,
                PieceTheme::Alpha,
                PieceTheme::California,
                PieceTheme::Cardinal,
                PieceTheme::Governor,
                PieceTheme::Dubrovny,
                PieceTheme::Gioco,
                PieceTheme::Icpieces,
                PieceTheme::Maestro,
                PieceTheme::Staunty,
                PieceTheme::Tatiana,
                PieceTheme::Merida,
                PieceTheme::FontAlpha,
            ],
    {
        vec![
            PieceTheme::Cburnett,
            PieceTheme::Alpha,
            PieceTheme::California,
            PieceTheme::Cardinal,
            PieceTheme::Governor,
            PieceTheme::Dubrovny,
            PieceTheme::Gioco,
            PieceTheme::Icpieces,
            PieceTheme::Maestro,
            PieceTheme::Staunty,
            PieceTheme::Tatiana,
            PieceTheme::Merida,
            PieceTheme::FontAlpha,
        ]
    }

    /// The piece set's name.
    pub fn name(&self) -> (r: &'static str)
        ensures
            r@ == piece_theme_name(*self),
    {
        match self {
            PieceTheme::Cburnett => "cburnett",
            PieceTheme::Alpha => "alpha",
            PieceTheme::California => "california",
            PieceTheme::Cardinal => "cardinal",
            PieceTheme::Governor => "governor",
            PieceTheme::Dubrovny => "dubrovny",
            PieceTheme::Gioco => "gioco",
            PieceTheme::Icpieces => "icpieces",
            PieceTheme::Maestro => "maestro",
            PieceTheme::Staunty => "staunty",
            PieceTheme::Tatiana => "tatiana",
            PieceTheme::Merida => "merida",
            PieceTheme::FontAlpha => "Paper - chess alpha",
        }
    }
}

/// The colour schemes of the window; `Blue` is the default.
#[derive(Debug, Clone, Copy, PartialEq, Eq)]
pub enum Theme {
    Blue,
    Green,
    Brown,
    Purple,
    Grey,
    ColdGrey,
    BlueDark,
    GreenDark,
    BrownDark,
    PurpleDark,
    GreyDark,
    ColdGreyDark,
}

/// The name under which a colour scheme is shown.
pub open spec fn theme_name(t: Theme) -> Seq<char> {
    match t {
        Theme::Blue => "Blue"@,
        Theme::Green => "Green"@,
        Theme::Brown => "Brown"@,
        Theme::Purple => "Purple"@,
        Theme::Grey => "Grey"@,
        Theme::ColdGrey => "Cold Grey"@,
        Theme::BlueDark => "Blue - Dark Mode"@,
        Theme::GreenDark => "Green - Dark Mode"@,
        Theme::BrownDark => "Brown - Dark Mode"@,
        Theme::PurpleDark => "Purple - Dark Mode"@,
        Theme::GreyDark => "Grey - Dark Mode"@,
        Theme::ColdGreyDark => "Cold Grey - Dark"@,
    }
}

impl Theme {
    /// Every colour scheme, in the order in which they are offered.
    pub fn all() -> (r: Vec<Theme>)
        ensures
            r@ == seq![
                Theme::Blue,
                Theme::Green,
                Theme::Brown,
                Theme::Purple,
                Theme::Grey,
                Theme::ColdGrey,
                Theme::BlueDark,
                Theme::GreenDark,
                Theme::BrownDark,
                Theme::PurpleDark,
                Theme::GreyDark,
                Theme::ColdGreyDark,
            ],
    {
        vec![
            Theme::Blue,
            Theme::Green,
            Theme::Brown,
            Theme::Purple,
            Theme::Grey,
            Theme::ColdGrey,
            Theme::BlueDark,
            Theme::GreenDark,
            Theme::BrownDark,
            Theme::PurpleDark,
            Theme::GreyDark,
            Theme::ColdGreyDark,
        ]
    }

    /// The colour scheme's name.
    pub fn name(&self) -> (r: &'static str)
        ensures
            r@ == theme_name(*self),
    {
        match self {
            Theme::Blue => "Blue",
            Theme::Green => "Green",
            Theme::Brown => "Brown",
            Theme::Purple => "Purple",
            Theme::Grey => "Grey",
            Theme::ColdGrey => "Cold Grey",
            Theme::BlueDark => "Blue - Dark Mode",
            Theme::GreenDark => "Green - Dark Mode",
            Theme::BrownDark => "Brown - Dark Mode",
            Theme::PurpleDark => "Purple - Dark Mode",
            Theme::GreyDark => "Grey - Dark Mode",
            Theme::ColdGreyDark => "Cold Grey - Dark",
        }
    }
}

impl Default for Theme {
    fn default() -> (r: Self)
        ensures
            r == Theme::Blue,
    {
        Theme::Blue
    }
}

/// The looks a button can take: plain, a board square, a sheet of paper.
#[derive(Debug, Clone, Copy, PartialEq, Eq)]
pub enum ButtonStyle {
    Normal,
    LightSquare,
    DarkSquare,
    SelectedLightSquare,
    SelectedDarkSquare,
    Paper,
    SelectedPaper,
}

impl Default for ButtonStyle {
    fn default() -> (r: Self)
        ensures
            r == ButtonStyle::Normal,
    {
        ButtonStyle::Normal
    }
}

} // verus!
