//! What happens to a text between the recogniser and the cursor.

use crate::effects::Notice;
use crate::text::{
    blank, contains_text, is_blank, lemma_replaced_absent, replace_all, replaced, str_eq,
};
use crate::types::{
    opt_text, ChineseScriptPreference, CorrectionRule, DictationSession, InsertStatus, Platform,
    PolishMode,
};
use vstd::prelude::*;

verus! {

/// What OpenCC makes of a text: simplified script for `true`, traditional for
/// `false`. `None` stands for a converter that could not be set up.
pub uninterp spec fn opencc_convert(to_simplified: bool, text: Seq<char>) -> Option<Seq<char>>;

/// `ferrous_opencc::OpenCC::from_config` with its built-in `T2s` or `S2t`
/// dictionaries, and `convert` on the converter. The outcome depends on the
/// direction and the text alone; the dictionaries are not spelled out.
#[verifier::external_body]
fn convert_script(to_simplified: bool, text: &str) -> (r: Option<String>)
    ensures
        opt_text(r) == opencc_convert(to_simplified, text@),
{
    let config = match to_simplified {
        true => ferrous_opencc::config::BuiltinConfig::T2s,
        false => ferrous_opencc::config::BuiltinConfig::S2t,
    };
    ferrous_opencc::OpenCC::from_config(config).ok().map(|converter| converter.convert(text))
}

/// The converted text, or the text itself where no converter could be had.
pub fn converted_or_unchanged(text: &str, converted: Option<String>) -> (r: String)
    ensures
        r@ == (match converted {
            Some(c) => c@,
            None => text@,
        }),
{
    match converted {
        Some(c) => c,
        None => text.to_owned(),
    }
}

/// The text in the script that the user wants.
pub open spec fn in_script(text: Seq<char>, pref: ChineseScriptPreference) -> Seq<char> {
    if text.len() == 0 || pref == ChineseScriptPreference::Auto {
        text
    } else {
        match opencc_convert(pref == ChineseScriptPreference::Simplified, text) {
            Some(c) => c,
            None => text,
        }
    }
}

/// The text in the script that the user wants.
pub fn apply_chinese_script_preference(text: &str, pref: ChineseScriptPreference) -> (r: String)
    ensures
        r@ == in_script(text@, pref),
{
    if text.is_empty() {
        return String::new();
    }
    match pref {
        ChineseScriptPreference::Auto => text.to_owned(),
        ChineseScriptPreference::Simplified => converted_or_unchanged(
            text,
            convert_script(true, text),
        ),
        ChineseScriptPreference::Traditional => converted_or_unchanged(
            text,
            convert_script(false, text),
        ),
    }
}

/// The text after one rule; a disabled rule changes nothing.
pub open spec fn after_rule(text: Seq<char>, rule: CorrectionRule) -> Seq<char> {
    if rule.enabled {
        replaced(text, rule.pattern@, rule.replacement@)
    } else {
        text
    }
}

/// The text after all rules, in their order.
pub open spec fn corrected(text: Seq<char>, rules: Seq<CorrectionRule>) -> Seq<char>
    decreases rules.len(),
{
    if rules.len() == 0 {
        text
    } else {
        after_rule(corrected(text, rules.drop_last()), rules.last())
    }
}

/// The text after all rules, in their order.
pub fn apply_correction_rules(text: &str, rules: &Vec<CorrectionRule>) -> (r: String)
    ensures
        r@ == corrected(text@, rules@),
{
    let mut out: String = text.to_owned();
    let mut i: usize = 0;
    while i < rules.len()
        invariant
            i <= rules.len(),
            out@ == corrected(text@, rules@.take(i as int)),
        decreases rules.len() - i,
    {
        proof {
            assert(rules@.take(i + 1).drop_last() =~= rules@.take(i as int));
        }
        if rules[i].enabled {
            out =
            replace_all(
                out.as_str(),
                rules[i].pattern.as_str(),
                rules[i].replacement.as_str(),
            );
        }
        i = i + 1;
    }
    proof {
        assert(rules@.take(rules@.len() as int) =~= rules@);
    }
    out
}

/// Rules whose patterns do not stand in a text leave it as it is.
pub proof fn law_absent_patterns_change_nothing(text: Seq<char>, rules: Seq<CorrectionRule>)
    requires
        forall|i: int|
            0 <= i < rules.len() && (#[trigger] rules[i]).enabled ==> !contains_text(
                text,
                rules[i].pattern@,
            ),
    ensures
        corrected(text, rules) == text,
    decreases rules.len(),
{
    if rules.len() > 0 {
        let init = rules.drop_last();
        assert forall|i: int| 0 <= i < init.len() && (#[trigger] init[i]).enabled implies
            !contains_text(text, init[i].pattern@) by {
            assert(init[i] == rules[i]);
        }
        law_absent_patterns_change_nothing(text, init);
        if rules.last().enabled {
            lemma_replaced_absent(text, rules.last().pattern@, rules.last().replacement@);
        }
    }
}

/// How the text of a session came about.
#[derive(Clone, Copy, PartialEq, Eq, Structural, Debug)]
pub struct TextOrigin {
    pub translation_active: bool,
    /// The model failed, so the text is the transcript.
    pub polish_failed: bool,
}

/// A translation keeps the script its language asks for; any other text
/// follows the user's preference.
pub open spec fn follows_script(origin: TextOrigin) -> bool {
    !origin.translation_active || origin.polish_failed
}

/// The text that ends up at the cursor.
pub open spec fn finalized(
    polished: Seq<char>,
    origin: TextOrigin,
    pref: ChineseScriptPreference,
    rules: Seq<CorrectionRule>,
    already_streamed: bool,
) -> Seq<char> {
    if already_streamed {
        polished
    } else if follows_script(origin) {
        corrected(in_script(polished, pref), rules)
    } else {
        corrected(polished, rules)
    }
}

/// The last changes to a text before it is inserted. What was typed while it
/// streamed in is not touched any more.
pub fn finalize_polished_text(
    polished: String,
    origin: TextOrigin,
    pref: ChineseScriptPreference,
    rules: &Vec<CorrectionRule>,
    already_streamed: bool,
) -> (r: String)
    ensures
        r@ == finalized(polished@, origin, pref, rules@, already_streamed),
{
    if already_streamed {
        return polished;
    }
    if !origin.translation_active || origin.polish_failed {
        let scripted: String = apply_chinese_script_preference(polished.as_str(), pref);
        apply_correction_rules(scripted.as_str(), rules)
    } else {
        apply_correction_rules(polished.as_str(), rules)
    }
}

/// Whether the text may be typed while the model writes it.
pub fn streaming_insert_eligible(
    enabled: bool,
    translation_active: bool,
    mode: PolishMode,
    raw_uses_llm: bool,
) -> (r: bool)
    ensures
        r == (enabled && !translation_active && (mode != PolishMode::Raw || raw_uses_llm)),
{
    enabled && !translation_active && (mode != PolishMode::Raw || raw_uses_llm)
}

/// The message on the capsule of a finished session.
pub open spec fn done_notice(status: InsertStatus, polish_failed: bool) -> Option<Notice> {
    if polish_failed {
        Some(Notice::PolishFailed)
    } else if status == InsertStatus::PasteSent {
        Some(Notice::PasteAttempted)
    } else {
        None
    }
}

/// The message on the capsule of a finished session.
pub fn default_done_message(status: InsertStatus, polish_failed: bool) -> (r: Option<Notice>)
    ensures
        r == done_notice(status, polish_failed),
{
    if polish_failed {
        Some(Notice::PolishFailed)
    } else if status == InsertStatus::PasteSent {
        Some(Notice::PasteAttempted)
    } else {
        None
    }
}

/// Why the history marks a session as flawed.
#[derive(Clone, Copy, PartialEq, Eq, Structural, Debug)]
pub enum DictationErrorCode {
    FocusRestoreFailed,
    WindowsImeTsfRequired,
    PolishFailed,
    EmptyTranscript,
}

/// The name of an error code in the history.
pub open spec fn error_code_name(code: DictationErrorCode) -> Seq<char> {
    match code {
        DictationErrorCode::FocusRestoreFailed => "focusRestoreFailed"@,
        DictationErrorCode::WindowsImeTsfRequired => "windowsImeTsfRequired"@,
        DictationErrorCode::PolishFailed => "polishFailed"@,
        DictationErrorCode::EmptyTranscript => "emptyTranscript"@,
    }
}

impl DictationErrorCode {
    pub fn name(self) -> (r: &'static str)
        ensures
            r@ == error_code_name(self),
    {
        match self {
            DictationErrorCode::FocusRestoreFailed => "focusRestoreFailed",
            DictationErrorCode::WindowsImeTsfRequired => "windowsImeTsfRequired",
            DictationErrorCode::PolishFailed => "polishFailed",
            DictationErrorCode::EmptyTranscript => "emptyTranscript",
        }
    }
}

/// The flaw that the history names: a failed insertion before a failed model.
pub open spec fn error_code_of(
    platform: Platform,
    status: InsertStatus,
    polish_failed: bool,
    focus_ready: bool,
    allow_fallback: bool,
) -> Option<DictationErrorCode> {
    if !focus_ready && status == InsertStatus::Failed {
        Some(DictationErrorCode::FocusRestoreFailed)
    } else if platform == Platform::Windows && focus_ready && !allow_fallback && status
        == InsertStatus::Failed {
        Some(DictationErrorCode::WindowsImeTsfRequired)
    } else if polish_failed {
        Some(DictationErrorCode::PolishFailed)
    } else {
        None
    }
}

pub fn dictation_error_code(
    platform: Platform,
    status: InsertStatus,
    polish_failed: bool,
    focus_ready_for_paste: bool,
    allow_non_tsf_insertion_fallback: bool,
) -> (r: Option<DictationErrorCode>)
    ensures
        r == error_code_of(
            platform,
            status,
            polish_failed,
            focus_ready_for_paste,
            allow_non_tsf_insertion_fallback,
        ),
{
    if !focus_ready_for_paste && status == InsertStatus::Failed {
        Some(DictationErrorCode::FocusRestoreFailed)
    } else if platform == Platform::Windows && focus_ready_for_paste
        && !allow_non_tsf_insertion_fallback && status == InsertStatus::Failed {
        Some(DictationErrorCode::WindowsImeTsfRequired)
    } else if polish_failed {
        Some(DictationErrorCode::PolishFailed)
    } else {
        None
    }
}

/// A turn of the conversation with the model: what was said, what came of it.
pub open spec fn turn_of(
    s: DictationSession,
    active_pack: Seq<char>,
    translating: bool,
) -> Option<(Seq<char>, Seq<char>)> {
    if s.error_code is Some || blank(s.final_text@) {
        None
    } else if opt_text(s.style_pack_id) != Some(active_pack) {
        None
    } else if s.translation_active && !translating {
        match s.polish_source {
            Some(src) => if blank(src@) {
                None
            } else {
                Some((s.raw_transcript@, src@))
            },
            None => None,
        }
    } else {
        Some((s.raw_transcript@, s.final_text@))
    }
}

/// The turns that a history offers, in order.
pub open spec fn turns_of(
    sessions: Seq<DictationSession>,
    active_pack: Seq<char>,
    translating: bool,
) -> Seq<(Seq<char>, Seq<char>)>
    decreases sessions.len(),
{
    if sessions.len() == 0 {
        Seq::empty()
    } else {
        let rest = turns_of(sessions.drop_last(), active_pack, translating);
        match turn_of(sessions.last(), active_pack, translating) {
            Some(t) => rest.push(t),
            None => rest,
        }
    }
}

/// The views of a list of turns.
pub open spec fn turn_views(v: Seq<(String, String)>) -> Seq<(Seq<char>, Seq<char>)> {
    v.map_values(|t: (String, String)| (t.0@, t.1@))
}

/// One session as a turn.
fn session_turn(s: &DictationSession, active_pack: &str, translating: bool) -> (r: Option<
    (String, String),
>)
    ensures
        match r {
            Some(t) => turn_of(*s, active_pack@, translating) == Some((t.0@, t.1@)),
            None => turn_of(*s, active_pack@, translating) is None,
        },
{
    if s.error_code.is_some() || is_blank(s.final_text.as_str()) {
        return None;
    }
    let same_pack: bool = match &s.style_pack_id {
        Some(p) => str_eq(p.as_str(), active_pack),
        None => false,
    };
    if !same_pack {
        return None;
    }
    if s.translation_active && !translating {
        match &s.polish_source {
            Some(src) => if is_blank(src.as_str()) {
                None
            } else {
                Some((s.raw_transcript.clone(), src.clone()))
            },
            None => None,
        }
    } else {
        Some((s.raw_transcript.clone(), s.final_text.clone()))
    }
}

/// The earlier turns that the model gets to see. Failed and empty sessions
/// are left out, and so are those of another style pack. Of a translated
/// session an ordinary turn sees the polished source, never the translation.
pub fn eligible_polish_context_turns(
    sessions: &Vec<DictationSession>,
    active_style_pack_id: &str,
    current_translation_active: bool,
) -> (r: Vec<(String, String)>)
    ensures
        turn_views(r@) == turns_of(sessions@, active_style_pack_id@, current_translation_active),
{
    let mut out: Vec<(String, String)> = Vec::new();
    let mut i: usize = 0;
    while i < sessions.len()
        invariant
            i <= sessions.len(),
            turn_views(out@) == turns_of(
                sessions@.take(i as int),
                active_style_pack_id@,
                current_translation_active,
            ),
        decreases sessions.len() - i,
    {
        proof {
            assert(sessions@.take(i + 1).drop_last() =~= sessions@.take(i as int));
        }
        match session_turn(&sessions[i], active_style_pack_id, current_translation_active) {
            Some(t) => {
                let ghost before = out@;
                let ghost tv = (t.0@, t.1@);
                out.push(t);
                proof {
                    assert(turn_views(out@) =~= turn_views(before).push(tv));
                }
            },
            None => {},
        }
        i = i + 1;
    }
    proof {
        assert(sessions@.take(sessions@.len() as int) =~= sessions@);
    }
    out
}

/// Each turn shown to the model comes from one session of the history that
/// succeeded under the active style pack; unless the current turn translates
/// too, its second half is never the text of a translation.
pub proof fn law_context_has_no_foreign_text(
    sessions: Seq<DictationSession>,
    pack: Seq<char>,
    translating: bool,
    k: int,
)
    requires
        0 <= k < turns_of(sessions, pack, translating).len(),
    ensures
        exists|i: int|
            #![trigger sessions[i]]
            0 <= i < sessions.len() && {
                let s = sessions[i];
                let t = turns_of(sessions, pack, translating)[k];
                &&& s.error_code is None
                &&& opt_text(s.style_pack_id) == Some(pack)
                &&& t.0 == s.raw_transcript@
                &&& !blank(t.1)
                &&& s.translation_active && !translating ==> opt_text(s.polish_source) == Some(t.1)
                &&& !(s.translation_active && !translating) ==> t.1 == s.final_text@
            },
    decreases sessions.len(),
{
    if sessions.len() > 0 {
        let init = sessions.drop_last();
        let rest = turns_of(init, pack, translating);
        if k < rest.len() {
            law_context_has_no_foreign_text(init, pack, translating, k);
            let i = choose|i: int|
                #![trigger init[i]]
                0 <= i < init.len() && {
                    let s = init[i];
                    let t = rest[k];
                    &&& s.error_code is None
                    &&& opt_text(s.style_pack_id) == Some(pack)
                    &&& t.0 == s.raw_transcript@
                    &&& !blank(t.1)
                    &&& s.translation_active && !translating ==> opt_text(s.polish_source) == Some(
                        t.1,
                    )
                    &&& !(s.translation_active && !translating) ==> t.1 == s.final_text@
                };
            assert(sessions[i] == init[i]);
            assert(turns_of(sessions, pack, translating)[k] == rest[k]);
        } else {
            assert(sessions[sessions.len() - 1] == sessions.last());
        }
    }
}

proof fn lemma_corrected_concat(text: Seq<char>, a: Seq<CorrectionRule>, b: Seq<CorrectionRule>)
    ensures
        corrected(text, a + b) == corrected(corrected(text, a), b),
    decreases b.len(),
{
    if b.len() == 0 {
        assert(a + b =~= a);
    } else {
        assert((a + b).drop_last() =~= a + b.drop_last());
        assert((a + b).last() == b.last());
        lemma_corrected_concat(text, a, b.drop_last());
    }
}

/// Rules work one after the other: what the first ones make of a text is what the
/// later ones get to see.
pub proof fn law_rules_work_in_order(
    text: &str,
    front: &Vec<CorrectionRule>,
    back: &Vec<CorrectionRule>,
    all: &Vec<CorrectionRule>,
    middle: &str,
    first: String,
    second: String,
    whole: String,
)
    requires
        all@ == front@ + back@,
        call_ensures(apply_correction_rules, (text, front), first),
        middle@ == first@,
        call_ensures(apply_correction_rules, (middle, back), second),
        call_ensures(apply_correction_rules, (text, all), whole),
    ensures
        whole@ == second@,
        front@.len() == 0 ==> first@ == text@,
{
    lemma_corrected_concat(text@, front@, back@);
}

/// What one rule does: where it counts, its pattern gives way to its replacement
/// and nothing else changes; where it does not count, or its pattern is not there,
/// the text stays as it is.
pub proof fn law_one_rule(
    text: &str,
    rules: &Vec<CorrectionRule>,
    before: Seq<char>,
    after: Seq<char>,
    r: String,
)
    requires
        call_ensures(apply_correction_rules, (text, rules), r),
        rules@.len() == 1,
    ensures
        !rules@[0].enabled ==> r@ == text@,
        !contains_text(text@, rules@[0].pattern@) ==> r@ == text@,
        ({
            let p = rules@[0].pattern@;
            rules@[0].enabled && p.len() > 0 && text@ == before + p + after && !contains_text(
                after,
                p,
            ) && (forall|i: int|
                0 <= i < before.len() ==> !#[trigger] crate::text::occurs_at(
                    before + p + after,
                    p,
                    i,
                )) ==> r@ == before + rules@[0].replacement@ + after
        }),
{
    let rule = rules@[0];
    let p = rule.pattern@;
    assert(rules@.last() == rule);
    assert(rules@.drop_last() =~= Seq::<CorrectionRule>::empty());
    assert(corrected(text@, rules@.drop_last()) == text@);
    if !contains_text(text@, p) {
        lemma_replaced_absent(text@, p, rule.replacement@);
    }
    if rule.enabled && p.len() > 0 && text@ == before + p + after && !contains_text(after, p) && (
    forall|i: int|
        0 <= i < before.len() ==> !#[trigger] crate::text::occurs_at(before + p + after, p, i)) {
        crate::text::law_replacing_goes_from_place_to_place(before, p, after, rule.replacement@);
        lemma_replaced_absent(after, p, rule.replacement@);
    }
}

/// What was typed while it streamed in stays as it is. A translation that
/// succeeded keeps its script, whatever the user prefers; any other text is
/// brought into the preferred script first and corrected then.
pub proof fn law_last_changes_to_a_text(
    polished: String,
    source: &str,
    scripted: String,
    scripted_text: &str,
    origin: TextOrigin,
    pref: ChineseScriptPreference,
    other: ChineseScriptPreference,
    rules: &Vec<CorrectionRule>,
    plain: String,
    fixed: String,
    streamed: String,
    r: String,
    q: String,
)
    requires
        source@ == polished@,
        call_ensures(apply_chinese_script_preference, (source, pref), scripted),
        scripted_text@ == scripted@,
        call_ensures(apply_correction_rules, (scripted_text, rules), fixed),
        call_ensures(apply_correction_rules, (source, rules), plain),
        call_ensures(finalize_polished_text, (polished, origin, pref, rules, true), streamed),
        call_ensures(finalize_polished_text, (polished, origin, pref, rules, false), r),
        call_ensures(finalize_polished_text, (polished, origin, other, rules, false), q),
    ensures
        streamed@ == polished@,
        origin.translation_active && !origin.polish_failed ==> r@ == plain@ && r@ == q@,
        !origin.translation_active || origin.polish_failed ==> r@ == fixed@,
        pref == ChineseScriptPreference::Auto ==> scripted@ == polished@,
        polished@.len() == 0 ==> scripted@.len() == 0,
        rules@.len() == 0 && pref == ChineseScriptPreference::Auto ==> r@ == polished@,
{
}

/// A converter that could be had decides the text, and without one it stays as it
/// is.
pub proof fn law_script_conversion_never_loses_a_text(
    text: &str,
    converted: Option<String>,
    r: String,
)
    requires
        call_ensures(converted_or_unchanged, (text, converted), r),
    ensures
        converted is None ==> r@ == text@,
        converted matches Some(c) ==> r@ == c@,
{
}

/// A text is typed while it is written only if the user wants that, a model writes
/// it, and it is no translation.
pub proof fn law_typing_along_needs_a_model(
    enabled: bool,
    translating: bool,
    mode: PolishMode,
    raw_uses_llm: bool,
    r: bool,
)
    requires
        call_ensures(streaming_insert_eligible, (enabled, translating, mode, raw_uses_llm), r),
    ensures
        r ==> enabled && !translating,
        r && mode == PolishMode::Raw ==> raw_uses_llm,
        enabled && !translating && (mode == PolishMode::Light || mode == PolishMode::Structured)
            ==> r,
        enabled && !translating && raw_uses_llm ==> r,
{
}

/// The capsule says that the model failed whenever it did, and otherwise only
/// that a paste was attempted.
pub proof fn law_capsule_speaks_of_trouble(
    status: InsertStatus,
    polish_failed: bool,
    r: Option<Notice>,
)
    requires
        call_ensures(default_done_message, (status, polish_failed), r),
    ensures
        polish_failed <==> r == Some(Notice::PolishFailed),
        r == Some(Notice::PasteAttempted) <==> !polish_failed && status == InsertStatus::PasteSent,
        r is None <==> !polish_failed && status != InsertStatus::PasteSent,
{
}

/// The history names a flaw exactly where there was one: a text that could not be
/// brought to a window that was gone, one that the text service alone was allowed
/// to bring, and a model that failed. A text that reached the user has no other
/// flaw than the last.
pub proof fn law_history_names_the_flaw(
    platform: Platform,
    status: InsertStatus,
    polish_failed: bool,
    focus: bool,
    fallback: bool,
    r: Option<DictationErrorCode>,
)
    requires
        call_ensures(dictation_error_code, (platform, status, polish_failed, focus, fallback), r),
    ensures
        r == Some(DictationErrorCode::FocusRestoreFailed) <==> status == InsertStatus::Failed
            && !focus,
        r == Some(DictationErrorCode::WindowsImeTsfRequired) <==> status == InsertStatus::Failed
            && focus && !fallback && platform == Platform::Windows,
        status != InsertStatus::Failed ==> (r == Some(DictationErrorCode::PolishFailed)
            <==> polish_failed),
        r is None ==> !polish_failed,
        r != Some(DictationErrorCode::EmptyTranscript),
{
}

/// No two flaws share a name.
pub proof fn law_flaws_have_their_own_names(
    a: DictationErrorCode,
    b: DictationErrorCode,
    of_a: &'static str,
    of_b: &'static str,
)
    requires
        call_ensures(DictationErrorCode::name, (a,), of_a),
        call_ensures(DictationErrorCode::name, (b,), of_b),
    ensures
        of_a@ == of_b@ ==> a == b,
        a == DictationErrorCode::PolishFailed ==> of_a@ == "polishFailed"@,
        a == DictationErrorCode::EmptyTranscript ==> of_a@ == "emptyTranscript"@,
{
    reveal_strlit("focusRestoreFailed");
    reveal_strlit("windowsImeTsfRequired");
    reveal_strlit("polishFailed");
    reveal_strlit("emptyTranscript");
    assert("focusRestoreFailed"@.len() == 18);
    assert("windowsImeTsfRequired"@.len() == 21);
    assert("polishFailed"@.len() == 12);
    assert("emptyTranscript"@.len() == 15);
}

proof fn lemma_turns_concat(
    a: Seq<DictationSession>,
    b: Seq<DictationSession>,
    pack: Seq<char>,
    translating: bool,
)
    ensures
        turns_of(a + b, pack, translating) == turns_of(a, pack, translating) + turns_of(
            b,
            pack,
            translating,
        ),
    decreases b.len(),
{
    if b.len() == 0 {
        assert(a + b =~= a);
        assert(turns_of(a, pack, translating) + turns_of(b, pack, translating) =~= turns_of(
            a,
            pack,
            translating,
        ));
    } else {
        assert((a + b).drop_last() =~= a + b.drop_last());
        assert((a + b).last() == b.last());
        lemma_turns_concat(a, b.drop_last(), pack, translating);
        assert(turns_of(a + b, pack, translating) =~= turns_of(a, pack, translating) + turns_of(
            b,
            pack,
            translating,
        ));
    }
}

/// The turns keep the order of the sessions: those of an earlier part of the
/// history stand before those of a later part, and none is lost between them.
pub proof fn law_turns_keep_their_order(
    front: &Vec<DictationSession>,
    back: &Vec<DictationSession>,
    whole: &Vec<DictationSession>,
    pack: &str,
    translating: bool,
    of_front: Vec<(String, String)>,
    of_back: Vec<(String, String)>,
    of_whole: Vec<(String, String)>,
)
    requires
        whole@ == front@ + back@,
        call_ensures(eligible_polish_context_turns, (front, pack, translating), of_front),
        call_ensures(eligible_polish_context_turns, (back, pack, translating), of_back),
        call_ensures(eligible_polish_context_turns, (whole, pack, translating), of_whole),
    ensures
        turn_views(of_whole@) == turn_views(of_front@) + turn_views(of_back@),
        of_whole@.len() == of_front@.len() + of_back@.len(),
{
    lemma_turns_concat(front@, back@, pack@, translating);
    assert(turn_views(of_whole@).len() == of_whole@.len());
    assert(turn_views(of_front@).len() == of_front@.len());
    assert(turn_views(of_back@).len() == of_back@.len());
}

/// A session is shown to the model exactly if it succeeded with a text under the
/// same style pack; of a translated one an ordinary turn shows the polished source,
/// and it is left out where there is none. The transcript goes along.
pub proof fn law_which_session_makes_a_turn(
    sessions: &Vec<DictationSession>,
    pack: &str,
    translating: bool,
    r: Vec<(String, String)>,
)
    requires
        sessions@.len() == 1,
        call_ensures(eligible_polish_context_turns, (sessions, pack, translating), r),
    ensures
        ({
            let s = sessions@[0];
            let good = s.error_code is None && !blank(s.final_text@) && (
            s.style_pack_id matches Some(p) && p@ == pack@);
            let hidden = s.translation_active && !translating;
            let source = s.polish_source is Some && !blank(s.polish_source->0@);
            &&& r@.len() <= 1
            &&& r@.len() == 1 <==> good && (hidden ==> source)
            &&& r@.len() == 1 ==> r@[0].0@ == s.raw_transcript@
            &&& r@.len() == 1 && hidden ==> r@[0].1@ == s.polish_source->0@
            &&& r@.len() == 1 && !hidden ==> r@[0].1@ == s.final_text@
        }),
{
    let s = sessions@[0];
    assert(sessions@.last() == s);
    assert(sessions@.drop_last() =~= Seq::<DictationSession>::empty());
    assert(turns_of(sessions@.drop_last(), pack@, translating) =~= Seq::<
        (Seq<char>, Seq<char>),
    >::empty());
    assert(turn_views(r@).len() == r@.len());
    if r@.len() == 1 {
        assert(turn_views(r@)[0] == (r@[0].0@, r@[0].1@));
    }
}

} // verus!
