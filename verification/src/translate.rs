//! Polishing and translating in one request: the prompt that asks for two
//! sections, and the reading of the answer.

use crate::text::{
    blank, chars_of, contains_text, find_from, first_at, lemma_blank_iff_trimmed_empty, occurs_at,
    trim, trimmed,
};
use vstd::prelude::*;

verus! {

/// Announces the polished source in a model's answer.
pub const POLISH_TRANSLATE_SRC_MARKER: &'static str = "[[OPENLESS_POLISHED_SOURCE]]";

/// Announces the translation in a model's answer.
pub const POLISH_TRANSLATE_TGT_MARKER: &'static str = "[[OPENLESS_TRANSLATION]]";

/// The prompt that asks for both sections.
pub open spec fn polish_translate_prompt(base: Seq<char>, lang: Seq<char>) -> Seq<char> {
    base + "\n\n# 额外输出：润色后的源文（仅用于对话上下文，不展示给用户）\n在译文之前，先把上面的原始转写**按它本来的语言**润色一遍：去掉口癖（嗯 / 那个 / um）、补必要标点、纠正明显的识别错误，但**不翻译、不改写风格、不增删意思**。\n\n# 输出格式（覆盖上面“只输出译文”的说明，严格遵守）\n严格按下面两段输出，两个标记必须原样出现、各占一行，标记之外不要有任何多余文字：\n"@
        + POLISH_TRANSLATE_SRC_MARKER@ + "\n（这里放润色后的源文，保持原语言）\n"@
        + POLISH_TRANSLATE_TGT_MARKER@ + "\n（这里放翻译成「"@ + lang + "」的译文）"@
}

/// The prompt that asks for both sections, after the plain translation
/// prompt `base` for the language `target_language`.
pub fn build_polish_translate_system_prompt(base: &str, target_language: &str) -> (r: String)
    ensures
        r@ == polish_translate_prompt(base@, target_language@),
{
    base.to_owned().concat(
        "\n\n# 额外输出：润色后的源文（仅用于对话上下文，不展示给用户）\n在译文之前，先把上面的原始转写**按它本来的语言**润色一遍：去掉口癖（嗯 / 那个 / um）、补必要标点、纠正明显的识别错误，但**不翻译、不改写风格、不增删意思**。\n\n# 输出格式（覆盖上面“只输出译文”的说明，严格遵守）\n严格按下面两段输出，两个标记必须原样出现、各占一行，标记之外不要有任何多余文字：\n",
    ).concat(POLISH_TRANSLATE_SRC_MARKER).concat(
        "\n（这里放润色后的源文，保持原语言）\n",
    ).concat(POLISH_TRANSLATE_TGT_MARKER).concat("\n（这里放翻译成「").concat(
        target_language,
    ).concat("」的译文）")
}

/// A trimmed text, with an empty one taken for none.
pub open spec fn section(s: Seq<char>) -> Option<Seq<char>> {
    if trimmed(s).len() == 0 {
        None
    } else {
        Some(trimmed(s))
    }
}

/// What an answer with the translation marker at `at` holds: the translation,
/// and the polished source if there is one.
pub open spec fn answer_at(raw: Seq<char>, at: int) -> Option<(Option<Seq<char>>, Seq<char>)> {
    match section(raw.skip(at + POLISH_TRANSLATE_TGT_MARKER@.len())) {
        None => None,
        Some(translation) => {
            let before = raw.take(at);
            let source = if contains_text(before, POLISH_TRANSLATE_SRC_MARKER@) {
                let i = choose|i: int| first_at(before, POLISH_TRANSLATE_SRC_MARKER@, 0, i);
                section(before.skip(i + POLISH_TRANSLATE_SRC_MARKER@.len()))
            } else {
                None
            };
            Some((source, translation))
        },
    }
}

/// What an answer holds, read at the first translation marker.
pub open spec fn answer_of(raw: Seq<char>) -> Option<(Option<Seq<char>>, Seq<char>)> {
    if contains_text(raw, POLISH_TRANSLATE_TGT_MARKER@) {
        answer_at(raw, choose|i: int| first_at(raw, POLISH_TRANSLATE_TGT_MARKER@, 0, i))
    } else {
        None
    }
}

/// There is only one first place.
pub proof fn lemma_first_at_unique(s: Seq<char>, p: Seq<char>, from: int, i: int, j: int)
    requires
        first_at(s, p, from, i),
        first_at(s, p, from, j),
    ensures
        i == j,
{
}

/// The text from `from` to `to`, trimmed, with an empty one taken for none.
fn section_between(raw: &str, from: usize, to: usize) -> (r: Option<String>)
    requires
        from <= to <= raw@.len(),
    ensures
        match r {
            Some(s) => section(raw@.subrange(from as int, to as int)) == Some(s@),
            None => section(raw@.subrange(from as int, to as int)) is None,
        },
{
    let s: String = trim(raw.substring_char(from, to));
    if s.as_str().is_empty() {
        None
    } else {
        Some(s)
    }
}

/// Reads the two sections of an answer. An answer without the translation
/// marker, or with nothing behind it, holds no translation; a missing or
/// empty source is no source.
pub fn split_polish_translate_output(raw: &str) -> (r: Option<(Option<String>, String)>)
    ensures
        match r {
            Some((source, translation)) => answer_of(raw@) == Some(
                (
                    match source {
                        Some(s) => Some(s@),
                        None => None,
                    },
                    translation@,
                ),
            ),
            None => answer_of(raw@) is None,
        },
{
    let v: Vec<char> = chars_of(raw);
    let tgt: Vec<char> = chars_of(POLISH_TRANSLATE_TGT_MARKER);
    let src: Vec<char> = chars_of(POLISH_TRANSLATE_SRC_MARKER);
    let end: usize = v.len();
    let at: usize = match find_from(&v, &tgt, 0) {
        None => {
            assert forall|j: int| !#[trigger] occurs_at(raw@, tgt@, j) by {
            }
            return None;
        },
        Some(i) => i,
    };
    proof {
        assert(occurs_at(v@, tgt@, at as int));
        assert(at + tgt@.len() <= v@.len());
        let c = choose|i: int| first_at(raw@, POLISH_TRANSLATE_TGT_MARKER@, 0, i);
        lemma_first_at_unique(raw@, tgt@, 0, at as int, c);
        assert(raw@.skip(at + tgt@.len()) =~= raw@.subrange(at + tgt@.len(), raw@.len() as int));
    }
    let translation: String = match section_between(raw, at + tgt.len(), end) {
        None => return None,
        Some(t) => t,
    };
    let ghost before = raw@.take(at as int);
    let head: Vec<char> = chars_of(raw.substring_char(0, at));
    proof {
        assert(raw@.subrange(0, at as int) =~= before);
    }
    let source: Option<String> = match find_from(&head, &src, 0) {
        None => {
            assert forall|j: int| !#[trigger] occurs_at(before, src@, j) by {
            }
            None
        },
        Some(i) => {
            proof {
                assert(occurs_at(before, src@, i as int));
                let c = choose|k: int| first_at(before, POLISH_TRANSLATE_SRC_MARKER@, 0, k);
                lemma_first_at_unique(before, src@, 0, i as int, c);
                assert(before.skip(i + src@.len()) =~= raw@.subrange(
                    i + src@.len(),
                    at as int,
                ));
            }
            section_between(raw, i + src.len(), at)
        },
    };
    Some((source, translation))
}

/// The answer in the two-section form the prompt asks for.
pub open spec fn two_sections(source: Seq<char>, translation: Seq<char>) -> Seq<char> {
    POLISH_TRANSLATE_SRC_MARKER@ + seq!['\n'] + source + seq!['\n'] + POLISH_TRANSLATE_TGT_MARKER@
        + seq!['\n'] + translation
}

/// The characters of the markers that tell them apart and from a line break.
proof fn lemma_markers()
    ensures
        POLISH_TRANSLATE_SRC_MARKER@.len() == 28,
        POLISH_TRANSLATE_TGT_MARKER@.len() == 24,
        forall|i: int| 0 <= i < 28 ==> #[trigger] POLISH_TRANSLATE_SRC_MARKER@[i] != '\n',
        forall|i: int| 0 <= i < 24 ==> #[trigger] POLISH_TRANSLATE_TGT_MARKER@[i] != '\n',
        POLISH_TRANSLATE_SRC_MARKER@[11] == 'P',
        POLISH_TRANSLATE_TGT_MARKER@[11] == 'T',
        POLISH_TRANSLATE_TGT_MARKER@[0] == '[',
        POLISH_TRANSLATE_TGT_MARKER@[1] == '[',
        forall|i: int| 2 <= i <= 5 ==> #[trigger] POLISH_TRANSLATE_SRC_MARKER@[i] != '[',
{
    reveal_strlit("[[OPENLESS_POLISHED_SOURCE]]");
    reveal_strlit("[[OPENLESS_TRANSLATION]]");
}

/// Whitespace at the end does not outlive trimming.
proof fn lemma_trimmed_push(s: Seq<char>, c: char)
    requires
        crate::text::is_space(c),
    ensures
        trimmed(s.push(c)) == trimmed(s),
    decreases s.len(),
{
    let t = s.push(c);
    if s.len() == 0 {
        assert(t.drop_first() =~= s);
    } else if crate::text::is_space(s[0]) {
        assert(t.drop_first() =~= s.drop_first().push(c));
        lemma_trimmed_push(s.drop_first(), c);
    } else {
        assert(t.drop_last() =~= s);
    }
}

/// Whitespace at the start does not outlive trimming.
proof fn lemma_trimmed_prepend(s: Seq<char>, c: char)
    requires
        crate::text::is_space(c),
    ensures
        trimmed(seq![c] + s) == trimmed(s),
{
    assert((seq![c] + s).drop_first() =~= s);
}

/// The two sections as the head up to the translation marker and the rest.
proof fn lemma_two_sections_parts(source: Seq<char>, translation: Seq<char>)
    ensures
        ({
            let raw = two_sections(source, translation);
            let at = 30 + source.len() as int;
            &&& raw.len() == at + 25 + translation.len()
            &&& forall|k: int| 0 <= k < 28 ==> #[trigger] raw[k] == POLISH_TRANSLATE_SRC_MARKER@[k]
            &&& raw[28] == '\n'
            &&& forall|k: int| 29 <= k < at - 1 ==> #[trigger] raw[k] == source[k - 29]
            &&& raw[at - 1] == '\n'
            &&& raw.subrange(at, at + 24) == POLISH_TRANSLATE_TGT_MARKER@
            &&& raw.skip(at + 24) == seq!['\n'] + translation
            &&& raw.take(at) == POLISH_TRANSLATE_SRC_MARKER@ + (seq!['\n'] + source).push('\n')
        }),
{
    lemma_markers();
    let raw = two_sections(source, translation);
    let at = 30 + source.len() as int;
    assert(raw.subrange(at, at + 24) =~= POLISH_TRANSLATE_TGT_MARKER@);
    assert(raw.skip(at + 24) =~= seq!['\n'] + translation);
    assert(raw.take(at) =~= POLISH_TRANSLATE_SRC_MARKER@ + (seq!['\n'] + source).push('\n'));
}

/// The translation marker does not occur before its own place.
proof fn lemma_no_early_marker(source: Seq<char>, translation: Seq<char>, j: int)
    requires
        !contains_text(source, POLISH_TRANSLATE_TGT_MARKER@),
        0 <= j < 30 + source.len(),
    ensures
        !occurs_at(two_sections(source, translation), POLISH_TRANSLATE_TGT_MARKER@, j),
{
    let src = POLISH_TRANSLATE_SRC_MARKER@;
    let tgt = POLISH_TRANSLATE_TGT_MARKER@;
    let raw = two_sections(source, translation);
    let at = 30 + source.len() as int;
    lemma_markers();
    lemma_two_sections_parts(source, translation);
    if occurs_at(raw, tgt, j) {
        let w = raw.subrange(j, j + 24);
        assert(w == tgt);
        if j + 24 > at - 1 {
            assert(w[at - 1 - j] == raw[at - 1]);
            assert(tgt[at - 1 - j] != '\n');
        } else if j >= 29 {
            let u = source.subrange(j - 29, j - 29 + 24);
            assert forall|k: int| 0 <= k < 24 implies #[trigger] u[k] == tgt[k] by {
                assert(w[k] == raw[j + k]);
                assert(raw[j + k] == source[j + k - 29]);
            }
            assert(u =~= tgt);
            assert(occurs_at(source, tgt, j - 29));
        } else if j + 24 > 28 {
            assert(w[28 - j] == raw[28]);
            assert(tgt[28 - j] != '\n');
        } else if j == 0 {
            assert(w[11] == raw[11]);
            assert(raw[11] == src[11]);
        } else {
            assert(w[1] == raw[j + 1]);
            assert(raw[j + 1] == src[j + 1]);
        }
    }
}

/// What is written in the two-section form is read back: the trimmed
/// translation, and the trimmed source unless it is blank. The source may not
/// itself hold the translation marker.
pub proof fn law_two_sections_read_back(source: Seq<char>, translation: Seq<char>)
    requires
        !contains_text(source, POLISH_TRANSLATE_TGT_MARKER@),
        !blank(translation),
    ensures
        answer_of(two_sections(source, translation)) == Some(
            (section(source), trimmed(translation)),
        ),
{
    let src = POLISH_TRANSLATE_SRC_MARKER@;
    let tgt = POLISH_TRANSLATE_TGT_MARKER@;
    let raw = two_sections(source, translation);
    let at = 30 + source.len() as int;
    lemma_markers();
    lemma_two_sections_parts(source, translation);
    lemma_blank_iff_trimmed_empty(translation);
    assert(occurs_at(raw, tgt, at));
    assert forall|j: int| 0 <= j < at implies !#[trigger] occurs_at(raw, tgt, j) by {
        lemma_no_early_marker(source, translation, j);
    }
    assert(first_at(raw, tgt, 0, at));
    let c = choose|i: int| first_at(raw, tgt, 0, i);
    lemma_first_at_unique(raw, tgt, 0, at, c);
    lemma_trimmed_prepend(translation, '\n');
    let before = raw.take(at);
    let middle = (seq!['\n'] + source).push('\n');
    assert(before.subrange(0, 28) =~= src);
    assert(occurs_at(before, src, 0));
    assert(first_at(before, src, 0, 0));
    let d = choose|i: int| first_at(before, src, 0, i);
    lemma_first_at_unique(before, src, 0, 0, d);
    assert(before.skip(28) =~= middle);
    lemma_trimmed_push(seq!['\n'] + source, '\n');
    lemma_trimmed_prepend(source, '\n');
}

/// An answer never yields an empty translation.
pub proof fn law_translation_is_never_empty(raw: Seq<char>)
    ensures
        match answer_of(raw) {
            Some((source, translation)) => translation.len() > 0 && match source {
                Some(s) => s.len() > 0,
                None => true,
            },
            None => true,
        },
{
}

/// The prompt begins with the plain translation prompt, names the language and
/// both markers, the one for the source before the one for the translation.
pub proof fn law_prompt_asks_for_both_sections(base: &str, language: &str, r: String)
    requires
        call_ensures(build_polish_translate_system_prompt, (base, language), r),
    ensures
        r@.len() > base@.len(),
        r@.take(base@.len() as int) == base@,
        contains_text(r@, language@),
        exists|i: int, j: int|
            #![trigger occurs_at(r@, "[[OPENLESS_POLISHED_SOURCE]]"@, i), occurs_at(
                r@,
                "[[OPENLESS_TRANSLATION]]"@,
                j,
            )]
            {
                &&& occurs_at(r@, "[[OPENLESS_POLISHED_SOURCE]]"@, i)
                &&& occurs_at(r@, "[[OPENLESS_TRANSLATION]]"@, j)
                &&& base@.len() < i < j
            },
{
    let src = "[[OPENLESS_POLISHED_SOURCE]]"@;
    let tgt = "[[OPENLESS_TRANSLATION]]"@;
    let a = "\n\n# 额外输出：润色后的源文（仅用于对话上下文，不展示给用户）\n在译文之前，先把上面的原始转写**按它本来的语言**润色一遍：去掉口癖（嗯 / 那个 / um）、补必要标点、纠正明显的识别错误，但**不翻译、不改写风格、不增删意思**。\n\n# 输出格式（覆盖上面“只输出译文”的说明，严格遵守）\n严格按下面两段输出，两个标记必须原样出现、各占一行，标记之外不要有任何多余文字：\n"@;
    let b = "\n（这里放润色后的源文，保持原语言）\n"@;
    let c = "\n（这里放翻译成「"@;
    let d = "」的译文）"@;
    reveal_strlit("」的译文）");
    reveal_strlit("\n（这里放润色后的源文，保持原语言）\n");
    lemma_markers();
    lemma_starts_with_line_break();
    let i = (base@.len() + a.len()) as int;
    let j = i + src.len() + b.len();
    let k = j + tgt.len() + c.len();
    assert(r@ == base@ + a + src + b + tgt + c + language@ + d);
    assert(r@.take(base@.len() as int) =~= base@);
    assert(r@.subrange(i, i + src.len()) =~= src);
    assert(r@.subrange(j, j + tgt.len()) =~= tgt);
    assert(r@.subrange(k, k + language@.len()) =~= language@);
    assert(occurs_at(r@, src, i));
    assert(occurs_at(r@, tgt, j));
    assert(occurs_at(r@, language@, k));
}

proof fn lemma_starts_with_line_break()
    ensures
        "\n\n# 额外输出：润色后的源文（仅用于对话上下文，不展示给用户）\n在译文之前，先把上面的原始转写**按它本来的语言**润色一遍：去掉口癖（嗯 / 那个 / um）、补必要标点、纠正明显的识别错误，但**不翻译、不改写风格、不增删意思**。\n\n# 输出格式（覆盖上面“只输出译文”的说明，严格遵守）\n严格按下面两段输出，两个标记必须原样出现、各占一行，标记之外不要有任何多余文字：\n"@.len()
            > 0,
{
    reveal_strlit(
        "\n\n# 额外输出：润色后的源文（仅用于对话上下文，不展示给用户）\n在译文之前，先把上面的原始转写**按它本来的语言**润色一遍：去掉口癖（嗯 / 那个 / um）、补必要标点、纠正明显的识别错误，但**不翻译、不改写风格、不增删意思**。\n\n# 输出格式（覆盖上面“只输出译文”的说明，严格遵守）\n严格按下面两段输出，两个标记必须原样出现、各占一行，标记之外不要有任何多余文字：\n",
    );
}

/// A model that answers as it was asked to is understood: the translation that is
/// read is the one that was written, without whitespace around it, and so is the
/// source; a blank source is none.
pub proof fn law_both_sections_are_understood(
    answer: &str,
    source: Seq<char>,
    translation: Seq<char>,
    r: Option<(Option<String>, String)>,
)
    requires
        call_ensures(split_polish_translate_output, (answer,), r),
        answer@ == "[[OPENLESS_POLISHED_SOURCE]]"@ + seq!['\n'] + source + seq!['\n']
            + "[[OPENLESS_TRANSLATION]]"@ + seq!['\n'] + translation,
        !contains_text(source, "[[OPENLESS_TRANSLATION]]"@),
        !blank(translation),
    ensures
        r is Some,
        r matches Some((read, written)) ==> {
            &&& written@ == trimmed(translation)
            &&& read is Some <==> !blank(source)
            &&& read is Some ==> read->0@ == trimmed(source)
        },
{
    law_two_sections_read_back(source, translation);
    lemma_blank_iff_trimmed_empty(source);
}

/// An answer without the marker of the translation holds none, and no answer is
/// taken for an empty translation.
pub proof fn law_unmarked_answer_is_no_translation(
    answer: &str,
    r: Option<(Option<String>, String)>,
)
    requires
        call_ensures(split_polish_translate_output, (answer,), r),
    ensures
        !contains_text(answer@, "[[OPENLESS_TRANSLATION]]"@) ==> r is None,
        r matches Some((source, translation)) ==> translation@.len() > 0 && (source matches Some(s)
            ==> s@.len() > 0),
{
}

} // verus!
