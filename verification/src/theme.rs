//! The colours of the page.
//!
//! A theme takes its colours from one flavour of the Catppuccin palette.

use vstd::prelude::*;
use catppuccin::Flavour;

verus! {

/// Light or dark.
#[derive(Clone, Copy, Debug, PartialEq, Eq, Structural)]
pub enum Theme {
    Light,
    Dark,
}

/// A flavour of the Catppuccin palette.
#[derive(Clone, Copy, Debug, PartialEq, Eq, Structural)]
pub enum Palette {
    Latte,
    Mocha,
}

/// A colour as red, green and blue levels.
#[derive(Clone, Copy, Debug, PartialEq, Eq, Structural)]
pub struct Rgb {
    pub red: u8,
    pub green: u8,
    pub blue: u8,
}

/// The theme that the site starts with.
pub fn theme() -> (theme: Theme)
    ensures
        theme == Theme::Dark,
{
    Theme::Dark
}

impl Theme {
    /// The flavour that the theme takes its colours from.
    pub open spec fn spec_palette(self) -> Palette {
        match self {
            Theme::Light => Palette::Latte,
            Theme::Dark => Palette::Mocha,
        }
    }

    /// The flavour that the theme takes its colours from.
    pub fn palette(self) -> (palette: Palette)
        ensures
            palette == self.spec_palette(),
    {
        match self {
            Theme::Light => Palette::Latte,
            Theme::Dark => Palette::Mocha,
        }
    }
}

impl Palette {
    /// The colour that the flavour names `text`.
    pub open spec fn spec_text(self) -> Rgb {
        match self {
            Palette::Latte => Rgb { red: 76, green: 79, blue: 105 },
            Palette::Mocha => Rgb { red: 205, green: 214, blue: 244 },
        }
    }

    /// The colour that the flavour names `base`.
    pub open spec fn spec_base(self) -> Rgb {
        match self {
            Palette::Latte => Rgb { red: 239, green: 241, blue: 245 },
            Palette::Mocha => Rgb { red: 30, green: 30, blue: 46 },
        }
    }

    /// The colour that the flavour names `mantle`.
    pub open spec fn spec_mantle(self) -> Rgb {
        match self {
            Palette::Latte => Rgb { red: 230, green: 233, blue: 239 },
            Palette::Mocha => Rgb { red: 24, green: 24, blue: 37 },
        }
    }
}

/// The colour `text` of a flavour.
///
/// Calls `catppuccin::Flavour::text`. The contract gives the levels that
/// the table in `Flavour::colours` holds for the two flavours.
#[verifier::external_body]
fn flavour_text(palette: Palette) -> (color: Rgb)
    ensures
        color == palette.spec_text(),
{
    let flavour = match palette {
        Palette::Latte => Flavour::Latte,
        Palette::Mocha => Flavour::Mocha,
    };
    let colour = flavour.text();
    Rgb { red: colour.0, green: colour.1, blue: colour.2 }
}

/// The colour `base` of a flavour.
///
/// Calls `catppuccin::Flavour::base`. The contract gives the levels that
/// the table in `Flavour::colours` holds for the two flavours.
#[verifier::external_body]
fn flavour_base(palette: Palette) -> (color: Rgb)
    ensures
        color == palette.spec_base(),
{
    let flavour = match palette {
        Palette::Latte => Flavour::Latte,
        Palette::Mocha => Flavour::Mocha,
    };
    let colour = flavour.base();
    Rgb { red: colour.0, green: colour.1, blue: colour.2 }
}

/// The colour `mantle` of a flavour.
///
/// Calls `catppuccin::Flavour::mantle`. The contract gives the levels that
/// the table in `Flavour::colours` holds for the two flavours.
#[verifier::external_body]
fn flavour_mantle(palette: Palette) -> (color: Rgb)
    ensures
        color == palette.spec_mantle(),
{
    let flavour = match palette {
        Palette::Latte => Flavour::Latte,
        Palette::Mocha => Flavour::Mocha,
    };
    let colour = flavour.mantle();
    Rgb { red: colour.0, green: colour.1, blue: colour.2 }
}

/// The colour of text in `theme`.
pub fn primary_text_color(theme: Theme) -> (color: Rgb)
    ensures
        color == theme.spec_palette().spec_text(),
{
    flavour_text(theme.palette())
}

/// The colour of the page in `theme`.
pub fn primary_background_color(theme: Theme) -> (color: Rgb)
    ensures
        color == theme.spec_palette().spec_base(),
{
    flavour_base(theme.palette())
}

/// The colour behind the page in `theme`.
pub fn secondary_background_color(theme: Theme) -> (color: Rgb)
    ensures
        color == theme.spec_palette().spec_mantle(),
{
    flavour_mantle(theme.palette())
}

} // verus!
