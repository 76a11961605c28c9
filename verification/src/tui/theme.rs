//! The closed list of colour themes and the order they cycle in.
//!
//! The palettes themselves are plain colour tables owned by the renderer;
//! the library tracks only which variant is current.

use vstd::prelude::*;

verus! {

/// Every selectable theme, in cycling order.
#[derive(Clone, Copy, Debug, PartialEq, Eq, Structural)]
pub enum ThemeVariant {
    Framework,
    Alucard,
    Dracula,
    CatppuccinFrappe,
    CatppuccinLatte,
    CatppuccinMacchiato,
    CatppuccinMocha,
    GithubDark,
    GithubLight,
    MonochromeDark,
    MonochromeLight,
    MonokaiPro,
}

impl ThemeVariant {
    /// The display name of the variant.
    pub open spec fn spec_name(self) -> Seq<char> {
        match self {
            ThemeVariant::Framework => "Framework"@,
            ThemeVariant::Alucard => "Alucard"@,
            ThemeVariant::Dracula => "Dracula"@,
            ThemeVariant::CatppuccinFrappe => "Catppuccin Frappe"@,
            ThemeVariant::CatppuccinLatte => "Catppuccin Latte"@,
            ThemeVariant::CatppuccinMacchiato => "Catppuccin Macchiato"@,
            ThemeVariant::CatppuccinMocha => "Catppuccin Mocha"@,
            ThemeVariant::GithubDark => "GitHub Dark"@,
            ThemeVariant::GithubLight => "GitHub Light"@,
            ThemeVariant::MonochromeDark => "Monochrome Dark"@,
            ThemeVariant::MonochromeLight => "Monochrome Light"@,
            ThemeVariant::MonokaiPro => "Monokai Pro"@,
        }
    }

    /// The variant one step forward in the cycle.
    pub open spec fn spec_next(self) -> ThemeVariant {
        match self {
            ThemeVariant::Framework => ThemeVariant::Alucard,
            ThemeVariant::Alucard => ThemeVariant::Dracula,
            ThemeVariant::Dracula => ThemeVariant::CatppuccinFrappe,
            ThemeVariant::CatppuccinFrappe => ThemeVariant::CatppuccinLatte,
            ThemeVariant::CatppuccinLatte => ThemeVariant::CatppuccinMacchiato,
            ThemeVariant::CatppuccinMacchiato => ThemeVariant::CatppuccinMocha,
            ThemeVariant::CatppuccinMocha => ThemeVariant::GithubDark,
            ThemeVariant::GithubDark => ThemeVariant::GithubLight,
            ThemeVariant::GithubLight => ThemeVariant::MonochromeDark,
            ThemeVariant::MonochromeDark => ThemeVariant::MonochromeLight,
            ThemeVariant::MonochromeLight => ThemeVariant::MonokaiPro,
            ThemeVariant::MonokaiPro => ThemeVariant::Framework,
        }
    }

    /// The variant one step backward in the cycle.
    pub open spec fn spec_previous(self) -> ThemeVariant {
        match self {
            ThemeVariant::Framework => ThemeVariant::MonokaiPro,
            ThemeVariant::Alucard => ThemeVariant::Framework,
            ThemeVariant::Dracula => ThemeVariant::Alucard,
            ThemeVariant::CatppuccinFrappe => ThemeVariant::Dracula,
            ThemeVariant::CatppuccinLatte => ThemeVariant::CatppuccinFrappe,
            ThemeVariant::CatppuccinMacchiato => ThemeVariant::CatppuccinLatte,
            ThemeVariant::CatppuccinMocha => ThemeVariant::CatppuccinMacchiato,
            ThemeVariant::GithubDark => ThemeVariant::CatppuccinMocha,
            ThemeVariant::GithubLight => ThemeVariant::GithubDark,
            ThemeVariant::MonochromeDark => ThemeVariant::GithubLight,
            ThemeVariant::MonochromeLight => ThemeVariant::MonochromeDark,
            ThemeVariant::MonokaiPro => ThemeVariant::MonochromeLight,
        }
    }

    pub fn name(&self) -> (r: &'static str)
        ensures
            r@ == self.spec_name(),
    {
        match self {
            ThemeVariant::Framework => "Framework",
            ThemeVariant::Alucard => "Alucard",
            ThemeVariant::Dracula => "Dracula",
            ThemeVariant::CatppuccinFrappe => "Catppuccin Frappe",
            ThemeVariant::CatppuccinLatte => "Catppuccin Latte",
            ThemeVariant::CatppuccinMacchiato => "Catppuccin Macchiato",
            ThemeVariant::CatppuccinMocha => "Catppuccin Mocha",
            ThemeVariant::GithubDark => "GitHub Dark",
            ThemeVariant::GithubLight => "GitHub Light",
            ThemeVariant::MonochromeDark => "Monochrome Dark",
            ThemeVariant::MonochromeLight => "Monochrome Light",
            ThemeVariant::MonokaiPro => "Monokai Pro",
        }
    }

    pub fn next(&self) -> (r: ThemeVariant)
        ensures
            r == self.spec_next(),
    {
        match self {
            ThemeVariant::Framework => ThemeVariant::Alucard,
            ThemeVariant::Alucard => ThemeVariant::Dracula,
            ThemeVariant::Dracula => ThemeVariant::CatppuccinFrappe,
            ThemeVariant::CatppuccinFrappe => ThemeVariant::CatppuccinLatte,
            ThemeVariant::CatppuccinLatte => ThemeVariant::CatppuccinMacchiato,
            ThemeVariant::CatppuccinMacchiato => ThemeVariant::CatppuccinMocha,
            ThemeVariant::CatppuccinMocha => ThemeVariant::GithubDark,
            ThemeVariant::GithubDark => ThemeVariant::GithubLight,
            ThemeVariant::GithubLight => ThemeVariant::MonochromeDark,
            ThemeVariant::MonochromeDark => ThemeVariant::MonochromeLight,
            ThemeVariant::MonochromeLight => ThemeVariant::MonokaiPro,
            ThemeVariant::MonokaiPro => ThemeVariant::Framework,
        }
    }

    pub fn previous(&self) -> (r: ThemeVariant)
        ensures
            r == self.spec_previous(),
    {
        match self {
            ThemeVariant::Framework => ThemeVariant::MonokaiPro,
            ThemeVariant::Alucard => ThemeVariant::Framework,
            ThemeVariant::Dracula => ThemeVariant::Alucard,
            ThemeVariant::CatppuccinFrappe => ThemeVariant::Dracula,
            ThemeVariant::CatppuccinLatte => ThemeVariant::CatppuccinFrappe,
            ThemeVariant::CatppuccinMacchiato => ThemeVariant::CatppuccinLatte,
            ThemeVariant::CatppuccinMocha => ThemeVariant::CatppuccinMacchiato,
            ThemeVariant::GithubDark => ThemeVariant::CatppuccinMocha,
            ThemeVariant::GithubLight => ThemeVariant::GithubDark,
            ThemeVariant::MonochromeDark => ThemeVariant::GithubLight,
            ThemeVariant::MonochromeLight => ThemeVariant::MonochromeDark,
            ThemeVariant::MonokaiPro => ThemeVariant::MonochromeLight,
        }
    }
}

} // verus!
