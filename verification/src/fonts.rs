use vstd::prelude::*;
use crate::text::same_chars;

verus! {

/// The font families the application can use: two bundled ones, or any
/// other family by name.
#[derive(Clone, Debug)]
pub enum AppFont {
    Laila,
    Poppins,
    Custom(String),
}

/// What an `AppFont` denotes, with the custom name as characters.
pub enum FontView {
    Laila,
    Poppins,
    Custom(Seq<char>),
}

impl View for AppFont {
    type V = FontView;

    open spec fn view(&self) -> FontView {
        match self {
            AppFont::Laila => FontView::Laila,
            AppFont::Poppins => FontView::Poppins,
            AppFont::Custom(s) => FontView::Custom(s@),
        }
    }
}

/// The font that a stored name denotes: the two bundled names select the
/// bundled fonts, every other text is a custom family name.
pub open spec fn spec_font_named(name: Seq<char>) -> FontView {
    if name == "Laila"@ {
        FontView::Laila
    } else if name == "Poppins"@ {
        FontView::Poppins
    } else {
        FontView::Custom(name)
    }
}

/// The name a font is stored under.
pub open spec fn spec_font_name(font: FontView) -> Seq<char> {
    match font {
        FontView::Laila => "Laila"@,
        FontView::Poppins => "Poppins"@,
        FontView::Custom(name) => name,
    }
}

/// The font that a stored name denotes, keeping the name itself as the
/// custom family.
pub open spec fn spec_font_from_string(name: String) -> AppFont {
    if name@ == "Laila"@ {
        AppFont::Laila
    } else if name@ == "Poppins"@ {
        AppFont::Poppins
    } else {
        AppFont::Custom(name)
    }
}

/// A font file that ships with the application.
#[derive(Clone, Copy, Debug, PartialEq, Eq, Structural)]
pub enum BundledFont {
    Laila,
    Poppins,
}

impl AppFont {
    /// The font that a stored name denotes.
    pub fn from_name(name: String) -> (f: AppFont)
        ensures
            f@ == spec_font_named(name@),
            f == spec_font_from_string(name),
    {
        if same_chars(name.as_str(), "Laila") {
            AppFont::Laila
        } else if same_chars(name.as_str(), "Poppins") {
            AppFont::Poppins
        } else {
            AppFont::Custom(name)
        }
    }

    /// The name the font is stored under and asked for by.
    pub fn into_name(self) -> (name: String)
        ensures
            name@ == spec_font_name(self@),
    {
        match self {
            AppFont::Laila => String::from_str("Laila"),
            AppFont::Poppins => String::from_str("Poppins"),
            AppFont::Custom(s) => s,
        }
    }

    fn is_laila(&self) -> (r: bool)
        ensures
            r == (self@ == FontView::Laila),
    {
        match self {
            AppFont::Laila => true,
            _ => false,
        }
    }

    fn is_poppins(&self) -> (r: bool)
        ensures
            r == (self@ == FontView::Poppins),
    {
        match self {
            AppFont::Poppins => true,
            _ => false,
        }
    }

    /// The bundled font file to load for this font; none for a custom
    /// family, which the system provides.
    pub fn bundled(&self) -> (b: Option<BundledFont>)
        ensures
            b == (match self@ {
                FontView::Laila => Some(BundledFont::Laila),
                FontView::Poppins => Some(BundledFont::Poppins),
                FontView::Custom(_) => None::<BundledFont>,
            }),
    {
        match self {
            AppFont::Laila => Some(BundledFont::Laila),
            AppFont::Poppins => Some(BundledFont::Poppins),
            AppFont::Custom(_) => None,
        }
    }
}

impl Default for AppFont {
    /// Laila.
    fn default() -> (f: AppFont)
        ensures
            f@ == FontView::Laila,
    {
        AppFont::Laila
    }
}

impl From<String> for AppFont {
    fn from(name: String) -> (f: AppFont) {
        AppFont::from_name(name)
    }
}

impl vstd::std_specs::convert::FromSpecImpl<String> for AppFont {
    open spec fn obeys_from_spec() -> bool {
        true
    }

    open spec fn from_spec(name: String) -> AppFont {
        spec_font_from_string(name)
    }
}

impl PartialEq for AppFont {
    fn eq(&self, other: &AppFont) -> (r: bool) {
        match self {
            AppFont::Laila => other.is_laila(),
            AppFont::Poppins => other.is_poppins(),
            AppFont::Custom(a) => match other {
                AppFont::Custom(b) => same_chars(a.as_str(), b.as_str()),
                _ => false,
            },
        }
    }
}

impl vstd::std_specs::cmp::PartialEqSpecImpl for AppFont {
    open spec fn obeys_eq_spec() -> bool {
        true
    }

    open spec fn eq_spec(&self, other: &AppFont) -> bool {
        self@ == other@
    }
}

/// A stored name read as a font and stored again is the same name.
pub proof fn lemma_name_of_named_font(name: Seq<char>)
    ensures
        spec_font_name(spec_font_named(name)) == name,
{
}

/// A font stored by name and read back is the same font, except a custom
/// family called exactly `Laila` or `Poppins`, which reads back as the
/// bundled font of that name.
pub proof fn lemma_named_font_of_name(font: FontView)
    requires
        !(font matches FontView::Custom(n) && (n == "Laila"@ || n == "Poppins"@)),
    ensures
        spec_font_named(spec_font_name(font)) == font,
{
    reveal_strlit("Laila");
    reveal_strlit("Poppins");
    assert("Laila"@ != "Poppins"@) by {
        assert("Laila"@[0] != "Poppins"@[0]);
    }
}

} // verus!
