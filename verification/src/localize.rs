use vstd::prelude::*;
use crate::order::{lemma_lt_total, lemma_lt_transitive, seq_lt, str_lt, strictly_sorted};
use crate::telemetry::string_views;
use crate::text::same_chars;
use crate::units::{spec_code, GuiLanguage};

verus! {

/// The part of a `/`-separated path before its first separator (all of it
/// where there is none).
pub open spec fn first_segment(p: Seq<char>) -> Seq<char>
    decreases p.len(),
{
    if p.len() == 0 {
        seq![]
    } else if p[0] == '/' {
        seq![]
    } else {
        seq![p[0]] + first_segment(p.drop_first())
    }
}

/// Whether `unic_langid` parses a text as a Unicode language identifier.
pub uninterp spec fn spec_language_id_parses(code: Seq<char>) -> bool;

/// The first segment of a path is a prefix of it without `/`, and it is
/// either the whole path or followed by a `/`.
pub proof fn lemma_first_segment_is_leading_part(p: Seq<char>)
    ensures
        first_segment(p).len() <= p.len(),
        p.subrange(0, first_segment(p).len() as int) == first_segment(p),
        forall|i: int| 0 <= i < first_segment(p).len() ==> #[trigger] first_segment(p)[i] != '/',
        first_segment(p).len() == p.len() || p[first_segment(p).len() as int] == '/',
    decreases p.len(),
{
    if p.len() > 0 && p[0] != '/' {
        let q = p.drop_first();
        lemma_first_segment_is_leading_part(q);
        let f = first_segment(p);
        assert(f == seq![p[0]] + first_segment(q));
        assert(p.subrange(0, f.len() as int) =~= seq![p[0]] + q.subrange(0, first_segment(q).len() as int));
        assert forall|i: int| 0 <= i < f.len() implies #[trigger] f[i] != '/' by {
            if i > 0 {
                assert(f[i] == first_segment(q)[i - 1]);
            }
        }
        if first_segment(q).len() < q.len() {
            assert(p[f.len() as int] == q[first_segment(q).len() as int]);
        }
    } else {
        assert(p.subrange(0, 0) =~= Seq::<char>::empty());
    }
}

/// Whether a character is an ASCII letter.
pub open spec fn is_ascii_letter(c: char) -> bool {
    ('a' <= c && c <= 'z') || ('A' <= c && c <= 'Z')
}

/// Whether a text is a bare language subtag: 2, 3 or 5 to 8 ASCII letters.
pub open spec fn is_language_subtag(code: Seq<char>) -> bool {
    &&& 2 <= code.len() <= 8
    &&& code.len() != 4
    &&& forall|i: int| 0 <= i < code.len() ==> is_ascii_letter(#[trigger] code[i])
}

/// Calls `<i18n_embed::unic_langid::LanguageIdentifier as FromStr>::from_str`
/// and says whether it succeeded. Which texts are valid identifiers is named
/// by `spec_language_id_parses`; one fact of the parser is stated: a bare
/// language subtag (2, 3 or 5 to 8 ASCII letters, nothing else) is accepted.
#[verifier::external_body]
fn language_id_parses(code: &str) -> (ok: bool)
    ensures
        ok == spec_language_id_parses(code@),
        is_language_subtag(code@) ==> ok,
{
    code.parse::<i18n_embed::unic_langid::LanguageIdentifier>().is_ok()
}

/// Whether `c` is the language directory of one of the first `n` paths.
pub open spec fn language_of_some_path(paths: Seq<Seq<char>>, n: int, c: Seq<char>) -> bool {
    exists|i: int| 0 <= i < n && c == first_segment(#[trigger] paths[i]) && spec_language_id_parses(c)
}

/// The first segment of a path.
fn first_segment_of(p: &str) -> (s: String)
    ensures
        s@ == first_segment(p@),
{
    let n = p.unicode_len();
    let mut k: usize = 0;
    while k < n && p.get_char(k) != '/'
        invariant
            n == p@.len(),
            k <= n,
            forall|t: int| 0 <= t < k ==> p@[t] != '/',
        decreases n - k,
    {
        k = k + 1;
    }
    proof {
        lemma_first_segment(p@, k as int);
    }
    String::from_str(p.substring_char(0, k))
}

proof fn lemma_first_segment(p: Seq<char>, k: int)
    requires
        0 <= k <= p.len(),
        forall|t: int| 0 <= t < k ==> p[t] != '/',
        k == p.len() || p[k] == '/',
    ensures
        first_segment(p) == p.subrange(0, k),
    decreases p.len(),
{
    if k == 0 {
        assert(p.subrange(0, 0) =~= Seq::<char>::empty());
    } else {
        let q = p.drop_first();
        assert forall|t: int| 0 <= t < k - 1 implies q[t] != '/' by {
            assert(q[t] == p[t + 1]);
        }
        lemma_first_segment(q, k - 1);
        assert(p.subrange(0, k) =~= seq![p[0]] + q.subrange(0, k - 1));
    }
}

/// Whether a list of strings holds a string with the characters of `x`.
pub fn contains_str(v: &Vec<String>, x: &str) -> (r: bool)
    ensures
        r == string_views(v@).contains(x@),
{
    let mut i: usize = 0;
    while i < v.len()
        invariant
            i <= v@.len(),
            forall|j: int| 0 <= j < i ==> v@[j]@ != x@,
        decreases v@.len() - i,
    {
        if same_chars(v[i].as_str(), x) {
            assert(string_views(v@)[i as int] == x@);
            return true;
        }
        i = i + 1;
    }
    assert forall|j: int| 0 <= j < string_views(v@).len() implies string_views(v@)[j] != x@ by {
        assert(string_views(v@)[j] == v@[j]@);
    }
    false
}

/// Adds `x` to a strictly sorted list unless it is there already; the list
/// stays strictly sorted.
fn insert_sorted(v: &mut Vec<String>, x: String)
    requires
        strictly_sorted(string_views(old(v)@)),
    ensures
        strictly_sorted(string_views(final(v)@)),
        forall|c: Seq<char>| string_views(final(v)@).contains(c) <==> (string_views(old(v)@).contains(c) || c == x@),
{
    let ghost old_views = string_views(v@);
    let mut k: usize = 0;
    while k < v.len() && str_lt(v[k].as_str(), x.as_str())
        invariant
            k <= v@.len(),
            old_views == string_views(v@),
            forall|i: int| 0 <= i < k ==> seq_lt(#[trigger] old_views[i], x@),
        decreases v@.len() - k,
    {
        k = k + 1;
    }
    if k < v.len() && same_chars(v[k].as_str(), x.as_str()) {
        assert(old_views[k as int] == x@);
        return;
    }
    let ghost xv = x@;
    proof {
        if k < old_views.len() {
            assert(!seq_lt(old_views[k as int], xv));
            assert(old_views[k as int] != xv);
            lemma_lt_total(old_views[k as int], xv);
        }
    }
    v.insert(k, x);
    let ghost new_views = string_views(v@);
    proof {
        assert(new_views =~= old_views.insert(k as int, xv));
        assert forall|i: int, j: int| 0 <= i < j < new_views.len() implies seq_lt(
            #[trigger] new_views[i],
            #[trigger] new_views[j],
        ) by {
            if j < k {
            } else if j == k {
            } else if i < k {
                lemma_lt_transitive(new_views[i], xv, old_views[k as int]);
                if j - 1 > k {
                    lemma_lt_transitive(new_views[i], old_views[k as int], new_views[j]);
                }
            } else if i == k {
                if j - 1 > k {
                    lemma_lt_transitive(xv, old_views[k as int], new_views[j]);
                }
            } else {
            }
        }
        assert forall|c: Seq<char>| new_views.contains(c) <==> (old_views.contains(c) || c == xv) by {
            if new_views.contains(c) {
                let t = choose|t: int| 0 <= t < new_views.len() && new_views[t] == c;
                if t < k {
                    assert(old_views[t] == c);
                } else if t > k {
                    assert(old_views[t - 1] == c);
                }
            }
            if old_views.contains(c) {
                let t = choose|t: int| 0 <= t < old_views.len() && old_views[t] == c;
                if t < k {
                    assert(new_views[t] == c);
                } else {
                    assert(new_views[t + 1] == c);
                }
            }
            if c == xv {
                assert(new_views[k as int] == c);
            }
        }
    }
}

/// The languages that translation files are provided for: the first
/// directory of each file path, where it is a valid language identifier,
/// each once, in ascending order.
pub fn languages_in_paths(paths: &Vec<String>) -> (langs: Vec<String>)
    ensures
        strictly_sorted(string_views(langs@)),
        forall|c: Seq<char>| string_views(langs@).contains(c) <==> language_of_some_path(
            string_views(paths@),
            paths@.len() as int,
            c,
        ),
{
    let ghost pv = string_views(paths@);
    let mut langs: Vec<String> = Vec::new();
    let mut i: usize = 0;
    while i < paths.len()
        invariant
            i <= paths@.len(),
            pv == string_views(paths@),
            strictly_sorted(string_views(langs@)),
            forall|c: Seq<char>| string_views(langs@).contains(c) <==> language_of_some_path(pv, i as int, c),
        decreases paths@.len() - i,
    {
        let seg = first_segment_of(paths[i].as_str());
        let ghost before = string_views(langs@);
        let ghost sv = seg@;
        let ok = language_id_parses(seg.as_str());
        if ok {
            insert_sorted(&mut langs, seg);
        }
        proof {
            assert(pv[i as int] == paths@[i as int]@);
            assert forall|c: Seq<char>| string_views(langs@).contains(c) <==> language_of_some_path(
                pv,
                i + 1,
                c,
            ) by {
                if language_of_some_path(pv, i + 1, c) {
                    let t = choose|t: int| 0 <= t < i + 1 && c == first_segment(#[trigger] pv[t]) && spec_language_id_parses(c);
                    if t < i {
                        assert(language_of_some_path(pv, i as int, c));
                    }
                }
                if language_of_some_path(pv, i as int, c) {
                    let t = choose|t: int| 0 <= t < i && c == first_segment(#[trigger] pv[t]) && spec_language_id_parses(c);
                    assert(language_of_some_path(pv, i + 1, c));
                }
                if ok && c == sv {
                    assert(c == first_segment(pv[i as int]));
                    assert(language_of_some_path(pv, i + 1, c));
                }
            }
        }
        i = i + 1;
    }
    langs
}

/// The configured language to switch to: the configured one, where the
/// translation files provide its code and the code is a valid language
/// identifier (which `en` and `hi` are); otherwise none, and the system's
/// languages are used.
pub fn configured_language(config_lang: Option<GuiLanguage>, available: &Vec<String>) -> (r: Option<GuiLanguage>)
    ensures
        r == (match config_lang {
            Some(lang) => if string_views(available@).contains(spec_code(lang)) && spec_language_id_parses(
                spec_code(lang),
            ) {
                Some(lang)
            } else {
                None
            },
            None => None,
        }),
        config_lang matches Some(lang) && string_views(available@).contains(spec_code(lang)) ==> r
            == config_lang,
{
    proof {
        reveal_strlit("en");
        reveal_strlit("hi");
    }
    match config_lang {
        Some(lang) => {
            let code = lang.as_str();
            if contains_str(available, code) && language_id_parses(code) {
                Some(lang)
            } else {
                None
            }
        },
        None => None,
    }
}

} // verus!
