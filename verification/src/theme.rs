use vstd::prelude::*;
use crate::color::CustomColor;

verus! {

/// The pre-defined themes the application offers.
#[derive(Clone, Copy, Debug, PartialEq, Eq, Structural)]
pub enum BuiltinTheme {
    Light,
    Dark,
    Dracula,
    Nord,
    SolarizedLight,
    SolarizedDark,
    GruvboxLight,
    GruvboxDark,
    CatppuccinLatte,
    CatppuccinFrappe,
    CatppuccinMacchiato,
    CatppuccinMocha,
    TokyoNight,
    TokyoNightStorm,
    TokyoNightLight,
    KanagawaWave,
    KanagawaDragon,
    KanagawaLotus,
    Nightfly,
    Oxocarbon,
    Ferra,
    Moonfly,
}

impl Default for BuiltinTheme {
    /// Moonfly.
    fn default() -> (t: BuiltinTheme)
        ensures
            t == BuiltinTheme::Moonfly,
    {
        BuiltinTheme::Moonfly
    }
}

/// A colour palette given by the user: an optional name and six colours.
#[derive(Clone, Debug)]
pub struct CustomPalette {
    pub name: Option<String>,
    pub background: CustomColor,
    pub text: CustomColor,
    pub primary: CustomColor,
    pub success: CustomColor,
    pub warning: CustomColor,
    pub danger: CustomColor,
}

/// Where the active theme comes from, as it is stored in the configuration.
#[derive(Clone, Debug)]
pub enum StoredTheme {
    Builtin(BuiltinTheme),
    CustomPalette(CustomPalette),
    /// A theme file, by its path.
    CustomToml(String),
}

impl Default for StoredTheme {
    /// The default built-in theme.
    fn default() -> (t: StoredTheme)
        ensures
            t matches StoredTheme::Builtin(b) && b == BuiltinTheme::Moonfly,
    {
        StoredTheme::Builtin(BuiltinTheme::Moonfly)
    }
}

} // verus!
