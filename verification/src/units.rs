use vstd::prelude::*;
use crate::text::same_chars;

verus! {

/// Defines the standard used for byte unit calculations.
///
/// * `Decimal` (KB, MB): base 1000 (SI).
/// * `Binary` (KiB, MiB): base 1024 (IEC).
#[derive(Clone, Copy, Debug, PartialEq, Eq, Structural)]
pub enum ByteStandard {
    Decimal,
    Binary,
}

/// The base of a byte standard as a number.
pub open spec fn spec_multiplier(standard: ByteStandard) -> u64 {
    match standard {
        ByteStandard::Decimal => 1000,
        ByteStandard::Binary => 1024,
    }
}

impl ByteStandard {
    /// The factor between two consecutive units of this standard.
    pub fn multiplier(&self) -> (m: u64)
        ensures
            m == spec_multiplier(*self),
    {
        match self {
            ByteStandard::Decimal => 1_000,
            ByteStandard::Binary => 1_024,
        }
    }

    /// The label shown to users for this standard.
    pub fn to_string(&self) -> (s: String)
        ensures
            s@ == (match *self {
                ByteStandard::Decimal => "KB, MB, GB (1000)"@,
                ByteStandard::Binary => "KiB, MiB, GiB (1024)"@,
            }),
    {
        match self {
            ByteStandard::Decimal => String::from_str("KB, MB, GB (1000)"),
            ByteStandard::Binary => String::from_str("KiB, MiB, GiB (1024)"),
        }
    }
}

/// Decimal units step by a thousand, binary units by 1024.
pub proof fn lemma_multipliers()
    ensures
        spec_multiplier(ByteStandard::Decimal) == 1000,
        spec_multiplier(ByteStandard::Binary) == 1024,
{
}

/// Supported UI languages.
#[derive(Clone, Copy, Debug, PartialEq, Eq, Structural)]
pub enum GuiLanguage {
    En,
    Hi,
}

/// The language code of a language, as used for the translation files.
pub open spec fn spec_code(lang: GuiLanguage) -> Seq<char> {
    match lang {
        GuiLanguage::En => "en"@,
        GuiLanguage::Hi => "hi"@,
    }
}

/// The name of a language in that language, as it is shown.
pub open spec fn spec_display_name(lang: GuiLanguage) -> Seq<char> {
    match lang {
        GuiLanguage::En => "English"@,
        GuiLanguage::Hi => "हिन्दी"@,
    }
}

/// The language that a lower-cased name denotes, if any.
pub open spec fn spec_language_named(lower: Seq<char>) -> Option<GuiLanguage> {
    if lower == "en"@ || lower == "english"@ {
        Some(GuiLanguage::En)
    } else if lower == "hi"@ || lower == "hindi"@ || lower == "हिन्दी"@ {
        Some(GuiLanguage::Hi)
    } else {
        None
    }
}

/// What `str::to_lowercase` returns for a string.
pub uninterp spec fn spec_lowercase(s: Seq<char>) -> Seq<char>;

/// Whether a character is ASCII.
pub open spec fn is_ascii_char(c: char) -> bool {
    c <= '\u{7f}'
}

/// The ASCII lower-case form of a character: `A`-`Z` become `a`-`z`, every
/// other character stays.
pub open spec fn ascii_lower(c: char) -> char {
    if 'A' <= c && c <= 'Z' {
        ((c as u32 + 32) as u32) as char
    } else {
        c
    }
}

/// Whether a character is in the Devanagari block (U+0900 to U+097F), a
/// script without case.
pub open spec fn is_devanagari(c: char) -> bool {
    '\u{900}' <= c && c <= '\u{97f}'
}

/// Calls `str::to_lowercase`; the result is named by `spec_lowercase`, a
/// function of the string alone. Two facts of its documentation are stated:
/// on ASCII text it lower-cases `A`-`Z` and keeps every other character,
/// and text of a language without case (here: Devanagari) is not changed.
/// Nothing more is stated of the Unicode case mapping that std applies.
#[verifier::external_body]
fn lowercase(s: &str) -> (r: String)
    ensures
        r@ == spec_lowercase(s@),
        (forall|i: int| 0 <= i < s@.len() ==> is_ascii_char(#[trigger] s@[i])) ==> r@ == s@.map_values(
            |c: char| ascii_lower(c),
        ),
        (forall|i: int| 0 <= i < s@.len() ==> is_devanagari(#[trigger] s@[i])) ==> r@ == s@,
{
    s.to_lowercase()
}

impl GuiLanguage {
    /// The language code (`"en"` or `"hi"`).
    pub fn as_str(&self) -> (s: &'static str)
        ensures
            s@ == spec_code(*self),
    {
        match self {
            GuiLanguage::En => "en",
            GuiLanguage::Hi => "hi",
        }
    }

    /// The name of the language in that language.
    pub fn to_string(&self) -> (s: String)
        ensures
            s@ == spec_display_name(*self),
    {
        match self {
            GuiLanguage::En => String::from_str("English"),
            GuiLanguage::Hi => String::from_str("हिन्दी"),
        }
    }

    /// Recognises an already lower-cased language name or code.
    pub fn from_lowercase_name(lower: &str) -> (r: Option<GuiLanguage>)
        ensures
            r == spec_language_named(lower@),
    {
        if same_chars(lower, "en") || same_chars(lower, "english") {
            Some(GuiLanguage::En)
        } else if same_chars(lower, "hi") || same_chars(lower, "hindi") || same_chars(lower, "हिन्दी") {
            Some(GuiLanguage::Hi)
        } else {
            None
        }
    }

    /// Parses a language name or code, ignoring case: `en`/`english` and
    /// `hi`/`hindi`/`हिन्दी`.
    pub fn parse(s: &str) -> (r: Result<GuiLanguage, ()>)
        ensures
            r == (match spec_language_named(spec_lowercase(s@)) {
                Some(lang) => Ok::<GuiLanguage, ()>(lang),
                None => Err(()),
            }),
            (s@ == spec_code(GuiLanguage::En) || s@ == spec_display_name(GuiLanguage::En)) ==> r == Ok::<
                GuiLanguage,
                (),
            >(GuiLanguage::En),
            (s@ == spec_code(GuiLanguage::Hi) || s@ == spec_display_name(GuiLanguage::Hi)) ==> r == Ok::<
                GuiLanguage,
                (),
            >(GuiLanguage::Hi),
            (forall|i: int| 0 <= i < s@.len() ==> is_ascii_char(#[trigger] s@[i])) ==> r == (match spec_language_named(
                s@.map_values(|c: char| ascii_lower(c)),
            ) {
                Some(lang) => Ok::<GuiLanguage, ()>(lang),
                None => Err(()),
            }),
    {
        let lower = lowercase(s);
        proof {
            lemma_lowercase_of_names(s@, lower@);
        }
        match GuiLanguage::from_lowercase_name(lower.as_str()) {
            Some(lang) => Ok(lang),
            None => Err(()),
        }
    }
}

impl core::str::FromStr for GuiLanguage {
    type Err = ();

    /// Parses a language name or code, ignoring case (see `parse`).
    fn from_str(s: &str) -> (r: Result<GuiLanguage, ()>)
        ensures
            r == (match spec_language_named(spec_lowercase(s@)) {
                Some(lang) => Ok::<GuiLanguage, ()>(lang),
                None => Err(()),
            }),
            (s@ == spec_code(GuiLanguage::En) || s@ == spec_display_name(GuiLanguage::En)) ==> r == Ok::<
                GuiLanguage,
                (),
            >(GuiLanguage::En),
            (s@ == spec_code(GuiLanguage::Hi) || s@ == spec_display_name(GuiLanguage::Hi)) ==> r == Ok::<
                GuiLanguage,
                (),
            >(GuiLanguage::Hi),
            (forall|i: int| 0 <= i < s@.len() ==> is_ascii_char(#[trigger] s@[i])) ==> r == (match spec_language_named(
                s@.map_values(|c: char| ascii_lower(c)),
            ) {
                Some(lang) => Ok::<GuiLanguage, ()>(lang),
                None => Err(()),
            }),
    {
        GuiLanguage::parse(s)
    }
}

/// Lower-casing a language's code or shown name, as far as the facts stated
/// of `to_lowercase` go, gives a name of that language.
proof fn lemma_lowercase_of_names(s: Seq<char>, lower: Seq<char>)
    requires
        (forall|i: int| 0 <= i < s.len() ==> is_ascii_char(#[trigger] s[i])) ==> lower == s.map_values(
            |c: char| ascii_lower(c),
        ),
        (forall|i: int| 0 <= i < s.len() ==> is_devanagari(#[trigger] s[i])) ==> lower == s,
    ensures
        (s == spec_code(GuiLanguage::En) || s == spec_display_name(GuiLanguage::En)) ==> spec_language_named(lower)
            == Some(GuiLanguage::En),
        (s == spec_code(GuiLanguage::Hi) || s == spec_display_name(GuiLanguage::Hi)) ==> spec_language_named(lower)
            == Some(GuiLanguage::Hi),
{
    reveal_strlit("en");
    reveal_strlit("english");
    reveal_strlit("English");
    reveal_strlit("hi");
    reveal_strlit("hindi");
    reveal_strlit("हिन्दी");
    if s == "en"@ || s == "English"@ || s == "hi"@ {
        assert(forall|i: int| 0 <= i < s.len() ==> is_ascii_char(#[trigger] s[i]));
        if s == "en"@ {
            assert(lower =~= "en"@);
        } else if s == "English"@ {
            assert(lower =~= "english"@);
        } else {
            assert(lower =~= "hi"@);
            assert("hi"@[0] != "en"@[0]);
            assert("hi"@.len() != "english"@.len());
        }
    } else if s == "हिन्दी"@ {
        assert(forall|i: int| 0 <= i < s.len() ==> is_devanagari(#[trigger] s[i]));
        assert(lower == "हिन्दी"@);
        assert("हिन्दी"@.len() != "en"@.len());
        assert("हिन्दी"@.len() != "english"@.len());
    }
    assert("English"@[0] != "en"@[0]);
    assert("English"@.len() != "hi"@.len());
    assert("हिन्दी"@.len() != "en"@.len());
    assert("हिन्दी"@.len() != "hi"@.len());
    assert("हिन्दी"@[0] != "English"@[0]);
}

/// Reading a language's own code back gives the language.
pub proof fn lemma_code_names_language(lang: GuiLanguage)
    ensures
        spec_language_named(spec_code(lang)) == Some(lang),
{
    reveal_strlit("en");
    reveal_strlit("english");
    reveal_strlit("hi");
    reveal_strlit("hindi");
    reveal_strlit("हिन्दी");
    assert("en"@[0] != "hi"@[0]);
    assert("hi"@.len() != "english"@.len());
}

} // verus!
