//! Language layout policy: a pure mapping from a language code to the
//! per-document stylesheet, the container-level reading direction, and the
//! extra container metadata the language calls for.

use vstd::prelude::*;

verus! {

/// Whether two string slices hold the same characters.
pub fn str_eq(a: &str, b: &str) -> (r: bool)
    ensures
        r == (a@ == b@),
{
    let sa = a.to_owned();
    let sb = b.to_owned();
    sa == sb
}

/// Per-document stylesheet enforcing vertical right-to-left writing mode
/// across the supported rendering-engine vendor prefixes.
pub open spec fn spec_vertical_stylesheet() -> Seq<char> {
    "html {\n  -webkit-writing-mode: vertical-rl;\n  -moz-writing-mode: vertical-rl;\n  -ms-writing-mode: vertical-rl;\n  writing-mode: vertical-rl;\n}\n            "@
}

/// The stylesheet attached for a language code: the vertical right-to-left
/// sheet for the vertical-capable scripts, otherwise empty.
pub open spec fn spec_css_from_lang(lang: Seq<char>) -> Seq<char> {
    if lang == "ja"@ || lang == "zh"@ {
        spec_vertical_stylesheet()
    } else {
        Seq::empty()
    }
}

/// The stylesheet text for a language code.
pub fn gen_css_from_lang(lang: &str) -> (css: &'static str)
    ensures
        css@ == spec_css_from_lang(lang@),
{
    if str_eq(lang, "ja") || str_eq(lang, "zh") {
        "html {\n  -webkit-writing-mode: vertical-rl;\n  -moz-writing-mode: vertical-rl;\n  -ms-writing-mode: vertical-rl;\n  writing-mode: vertical-rl;\n}\n            "
    } else {
        proof {
            reveal_strlit("");
            assert(""@ =~= Seq::<char>::empty());
        }
        ""
    }
}

/// Container-level page-turn direction.
#[derive(Clone, Copy, PartialEq, Eq, Structural, Debug)]
pub enum ReadingDirection {
    LeftToRight,
    RightToLeft,
}

/// The reading direction for a language code: right-to-left page turning for
/// Japanese, the default left-to-right for every other code.
pub open spec fn spec_direction_from_lang(lang: Seq<char>) -> ReadingDirection {
    if lang == "ja"@ {
        ReadingDirection::RightToLeft
    } else {
        ReadingDirection::LeftToRight
    }
}

/// Whether `entries` is exactly the extra container metadata owed to a
/// language code: for Japanese the single entry signalling vertical
/// right-to-left primary writing mode, otherwise no entry at all.
pub open spec fn spec_extra_metadata_matches(lang: Seq<char>, entries: Seq<(String, String)>) -> bool {
    if lang == "ja"@ {
        entries.len() == 1 && entries[0].0@ == "primary-writing-mode"@ && entries[0].1@
            == "vertical-rl"@
    } else {
        entries.len() == 0
    }
}

/// The layout choices derived once from a language code: a per-document
/// stylesheet (possibly empty), a container-level reading direction, and
/// extra container metadata entries (possibly none). Stylesheet and
/// direction are independent axes: a language may need one, both, or
/// neither.
pub struct LayoutPolicy {
    /// Stylesheet attached to the container and referenced by every chapter
    /// document; empty for horizontal scripts.
    pub stylesheet: String,
    /// Container-level page-turn direction.
    pub direction: ReadingDirection,
    /// Extra container metadata entries, as name and content pairs.
    pub extra_metadata: Vec<(String, String)>,
}

/// The layout policy for a language code. Total: a code outside the known
/// set maps to the safe default (empty stylesheet, left-to-right, no extra
/// metadata) rather than failing.
pub fn policy(lang: &str) -> (p: LayoutPolicy)
    ensures
        p.stylesheet@ == spec_css_from_lang(lang@),
        p.direction == spec_direction_from_lang(lang@),
        spec_extra_metadata_matches(lang@, p.extra_metadata@),
{
    let stylesheet = gen_css_from_lang(lang).to_owned();
    if str_eq(lang, "ja") {
        let mut extra: Vec<(String, String)> = Vec::new();
        extra.push(("primary-writing-mode".to_owned(), "vertical-rl".to_owned()));
        LayoutPolicy {
            stylesheet,
            direction: ReadingDirection::RightToLeft,
            extra_metadata: extra,
        }
    } else {
        LayoutPolicy {
            stylesheet,
            direction: ReadingDirection::LeftToRight,
            extra_metadata: Vec::new(),
        }
    }
}

/// Whether `needle` occurs contiguously inside `hay`.
pub open spec fn spec_contains(hay: Seq<char>, needle: Seq<char>) -> bool {
    exists|i: int|
        0 <= i && i + needle.len() <= hay.len() && #[trigger] hay.subrange(i, i + needle.len())
            == needle
}

/// For every language code outside the known set the policy is the default
/// one: empty stylesheet, left-to-right direction, and no extra container
/// metadata.
pub proof fn lemma_policy_unknown_lang(lang: Seq<char>, entries: Seq<(String, String)>)
    requires
        lang != "en"@,
        lang != "vi"@,
        lang != "ja"@,
        lang != "zh"@,
        spec_extra_metadata_matches(lang, entries),
    ensures
        spec_css_from_lang(lang) == Seq::<char>::empty(),
        spec_direction_from_lang(lang) == ReadingDirection::LeftToRight,
        entries.len() == 0,
{
}

/// For the known vertical-script codes the stylesheet is non-empty and
/// declares vertical right-to-left writing mode; for the known
/// horizontal-script codes it is empty.
pub proof fn lemma_policy_vertical_langs()
    ensures
        spec_css_from_lang("ja"@).len() > 0,
        spec_css_from_lang("zh"@) == spec_css_from_lang("ja"@),
        spec_contains(spec_css_from_lang("ja"@), "writing-mode: vertical-rl"@),
        spec_css_from_lang("en"@) == Seq::<char>::empty(),
        spec_css_from_lang("vi"@) == Seq::<char>::empty(),
{
    reveal_strlit("ja");
    reveal_strlit("zh");
    reveal_strlit("en");
    reveal_strlit("vi");
    assert("en"@[0] == 'e' && "ja"@[0] == 'j' && "zh"@[0] == 'z' && "vi"@[0] == 'v');
    assert("en"@ != "ja"@ && "en"@ != "zh"@);
    assert("vi"@ != "ja"@ && "vi"@ != "zh"@);
    reveal_strlit(
        "html {\n  -webkit-writing-mode: vertical-rl;\n  -moz-writing-mode: vertical-rl;\n  -ms-writing-mode: vertical-rl;\n  writing-mode: vertical-rl;\n}\n            ",
    );
    reveal_strlit("writing-mode: vertical-rl");
    let v = spec_vertical_stylesheet();
    let needle = "writing-mode: vertical-rl"@;
    assert(needle.len() == 25);
    assert(v.subrange(17, 42) =~= needle);
    assert(0 <= 17 && 17 + needle.len() <= v.len() && v.subrange(17, 17 + needle.len() as int)
        == needle);
}

} // verus!
