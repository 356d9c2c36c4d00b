//! The two global keys of the agent: which combinations can be registered,
//! and which of the arriving events belong to them.

use crate::providers::texts;
use crate::text::{join2, lower_ascii, lowered, str_eq};
use vstd::prelude::*;

verus! {

#[derive(Clone, Copy, PartialEq, Eq, Structural, Debug)]
pub enum CodingAgentHotkeyEvent {
    /// Speak to the agent.
    PanelPressed,
    /// Hand the selected text to the agent.
    QuickPressed,
}

#[derive(Debug)]
pub enum CodingAgentHotkeyError {
    UnsupportedModifier(String),
    UnsupportedKey(String),
    RegisterFailed(String),
    ManagerInitFailed(String),
}

/// The words of a hotkey error.
pub open spec fn hotkey_error_text(e: CodingAgentHotkeyError) -> Seq<char> {
    match e {
        CodingAgentHotkeyError::UnsupportedModifier(s) => "不支持的修饰键: "@ + s@,
        CodingAgentHotkeyError::UnsupportedKey(s) => "不支持的主键: "@ + s@,
        CodingAgentHotkeyError::RegisterFailed(s) => "注册全局快捷键失败: "@ + s@,
        CodingAgentHotkeyError::ManagerInitFailed(s) => "初始化全局快捷键管理器失败: "@ + s@,
    }
}

impl CodingAgentHotkeyError {
    pub fn text(&self) -> (r: String)
        ensures
            r@ == hotkey_error_text(*self),
    {
        match self {
            CodingAgentHotkeyError::UnsupportedModifier(s) => join2("不支持的修饰键: ", s.as_str()),
            CodingAgentHotkeyError::UnsupportedKey(s) => join2("不支持的主键: ", s.as_str()),
            CodingAgentHotkeyError::RegisterFailed(s) => join2("注册全局快捷键失败: ", s.as_str()),
            CodingAgentHotkeyError::ManagerInitFailed(s) => join2(
                "初始化全局快捷键管理器失败: ",
                s.as_str(),
            ),
        }
    }
}

/// A combination of keys.
#[derive(Clone, Debug, PartialEq, Eq)]
pub struct ShortcutBinding {
    pub primary: String,
    pub modifiers: Vec<String>,
}

/// The modifiers by name, in any case of letters.
pub open spec fn is_modifier(name: Seq<char>) -> bool {
    let n = lowered(name);
    n == "cmd"@ || n == "command"@ || n == "super"@ || n == "meta"@ || n == "ctrl"@ || n
        == "control"@ || n == "alt"@ || n == "option"@ || n == "shift"@
}

fn is_modifier_name(name: &str) -> (r: bool)
    ensures
        r == is_modifier(name@),
{
    let n: String = lower_ascii(name);
    let s: &str = n.as_str();
    str_eq(s, "cmd") || str_eq(s, "command") || str_eq(s, "super") || str_eq(s, "meta") || str_eq(
        s,
        "ctrl",
    ) || str_eq(s, "control") || str_eq(s, "alt") || str_eq(s, "option") || str_eq(s, "shift")
}

/// The combination as one text: the modifiers, then the main key, with plus
/// signs between them.
pub open spec fn accelerator(modifiers: Seq<Seq<char>>, primary: Seq<char>) -> Seq<char>
    decreases modifiers.len(),
{
    if modifiers.len() == 0 {
        primary
    } else {
        modifiers[0] + "+"@ + accelerator(modifiers.drop_first(), primary)
    }
}

/// The name of the main key that `global_hotkey` reads off a combination, or
/// `None` where it does not accept the combination.
pub uninterp spec fn hotkey_key(text: Seq<char>) -> Option<Seq<char>>;

/// `str::parse` to a `global_hotkey::hotkey::HotKey`, and the name of its
/// main key. Which texts are accepted is left to the crate, but for the two
/// default combinations of this program, which it accepts.
#[verifier::external_body]
fn parse_hotkey_text(text: &str) -> (r: Option<String>)
    ensures
        match r {
            Some(k) => hotkey_key(text@) == Some(k@),
            None => hotkey_key(text@) is None,
        },
        text@ == "cmd+shift+Enter"@ ==> r is Some && r->0@ == "Enter"@,
        text@ == "cmd+shift+J"@ ==> r is Some && r->0@ == "KeyJ"@,
{
    text.parse::<global_hotkey::hotkey::HotKey>().ok().map(|hotkey| hotkey.key.to_string())
}

/// A combination can be registered: its modifiers are modifiers, and the main
/// key is accepted.
pub open spec fn registrable(b: ShortcutBinding) -> bool {
    &&& forall|i: int| 0 <= i < b.modifiers@.len() ==> is_modifier(#[trigger] b.modifiers@[i]@)
    &&& hotkey_key(accelerator(texts(b.modifiers@), b.primary@)) is Some
}

/// The combination as one text.
pub fn accelerator_text(b: &ShortcutBinding) -> (r: String)
    ensures
        r@ == accelerator(texts(b.modifiers@), b.primary@),
{
    let mut out: String = b.primary.clone();
    let mut i: usize = b.modifiers.len();
    let ghost all = texts(b.modifiers@);
    proof {
        assert(all.skip(i as int) =~= Seq::<Seq<char>>::empty());
    }
    while 0 < i
        invariant
            i <= b.modifiers.len(),
            all == texts(b.modifiers@),
            out@ == accelerator(all.skip(i as int), b.primary@),
        decreases i,
    {
        i = i - 1;
        let head: String = join2(b.modifiers[i].as_str(), "+");
        proof {
            assert(all.skip(i as int)[0] == b.modifiers@[i as int]@);
            assert(all.skip(i as int).drop_first() =~= all.skip(i + 1));
        }
        out = head.concat(out.as_str());
    }
    proof {
        assert(all.skip(0) =~= all);
    }
    out
}

/// The first modifier of a combination that is none.
pub open spec fn first_bad_modifier(m: Seq<String>, i: int) -> bool {
    &&& 0 <= i < m.len()
    &&& !is_modifier(m[i]@)
    &&& forall|k: int| 0 <= k < i ==> is_modifier(#[trigger] m[k]@)
}

/// Reads a combination: the name of its main key, or what is wrong with it.
pub fn parse_binding(b: &ShortcutBinding) -> (r: Result<String, CodingAgentHotkeyError>)
    ensures
        match r {
            Ok(key) => registrable(*b) && hotkey_key(
                accelerator(texts(b.modifiers@), b.primary@),
            ) == Some(key@),
            Err(CodingAgentHotkeyError::UnsupportedModifier(m)) => exists|i: int|
                #[trigger] first_bad_modifier(b.modifiers@, i) && m@ == b.modifiers@[i]@,
            Err(CodingAgentHotkeyError::UnsupportedKey(k)) => {
                &&& forall|i: int|
                    0 <= i < b.modifiers@.len() ==> is_modifier(#[trigger] b.modifiers@[i]@)
                &&& hotkey_key(accelerator(texts(b.modifiers@), b.primary@)) is None
                &&& k@ == b.primary@
            },
            Err(_) => false,
        },
        is_cmd_shift(*b, "Enter"@) ==> (r matches Ok(key) && key@ == "Enter"@),
        is_cmd_shift(*b, "J"@) ==> (r matches Ok(key) && key@ == "KeyJ"@),
{
    let mut i: usize = 0;
    while i < b.modifiers.len()
        invariant
            i <= b.modifiers.len(),
            forall|k: int| 0 <= k < i ==> is_modifier(#[trigger] b.modifiers@[k]@),
        decreases b.modifiers.len() - i,
    {
        if !is_modifier_name(b.modifiers[i].as_str()) {
            proof {
                assert(first_bad_modifier(b.modifiers@, i as int));
                if is_cmd_shift(*b, "Enter"@) {
                    lemma_cmd_shift_accelerator(*b, "Enter"@);
                }
                if is_cmd_shift(*b, "J"@) {
                    lemma_cmd_shift_accelerator(*b, "J"@);
                }
            }
            return Err(CodingAgentHotkeyError::UnsupportedModifier(b.modifiers[i].clone()));
        }
        i = i + 1;
    }
    let text: String = accelerator_text(b);
    proof {
        if is_cmd_shift(*b, "Enter"@) {
            lemma_cmd_shift_accelerator(*b, "Enter"@);
            reveal_strlit("cmd+shift+");
            reveal_strlit("Enter");
            reveal_strlit("cmd+shift+Enter");
            assert("cmd+shift+"@ + "Enter"@ =~= "cmd+shift+Enter"@);
        }
        if is_cmd_shift(*b, "J"@) {
            lemma_cmd_shift_accelerator(*b, "J"@);
            reveal_strlit("cmd+shift+");
            reveal_strlit("J");
            reveal_strlit("cmd+shift+J");
            assert("cmd+shift+"@ + "J"@ =~= "cmd+shift+J"@);
        }
    }
    match parse_hotkey_text(text.as_str()) {
        Some(key) => Ok(key),
        None => Err(CodingAgentHotkeyError::UnsupportedKey(b.primary.clone())),
    }
}

/// Whether a combination can be registered. A bare modifier cannot; the
/// default combinations can.
pub fn agent_binding_is_registrable(binding: &ShortcutBinding) -> (r: bool)
    ensures
        r == registrable(*binding),
        is_cmd_shift(*binding, "Enter"@) || is_cmd_shift(*binding, "J"@) ==> r,
{
    match parse_binding(binding) {
        Ok(_) => true,
        Err(CodingAgentHotkeyError::UnsupportedModifier(_)) => false,
        Err(_) => false,
    }
}

/// `b` is the combination of cmd, shift and `key`.
pub open spec fn is_cmd_shift(b: ShortcutBinding, key: Seq<char>) -> bool {
    &&& b.primary@ == key
    &&& texts(b.modifiers@) == seq!["cmd"@, "shift"@]
}

fn cmd_shift(key: &str) -> (r: ShortcutBinding)
    ensures
        is_cmd_shift(r, key@),
{
    let modifiers: Vec<String> = vec!["cmd".to_owned(), "shift".to_owned()];
    proof {
        assert(texts(modifiers@) =~= seq!["cmd"@, "shift"@]);
    }
    ShortcutBinding { primary: key.to_owned(), modifiers }
}

pub fn default_coding_agent_panel_hotkey() -> (r: ShortcutBinding)
    ensures
        is_cmd_shift(r, "Enter"@),
{
    cmd_shift("Enter")
}

pub fn default_coding_agent_quick_hotkey() -> (r: ShortcutBinding)
    ensures
        is_cmd_shift(r, "J"@),
{
    cmd_shift("J")
}

/// `after` is what becomes of `before` under a verdict on it: a combination
/// that is not accepted gives way to the default for `key`.
pub open spec fn healed_under(
    before: Option<ShortcutBinding>,
    accepted: bool,
    after: Option<ShortcutBinding>,
    key: Seq<char>,
) -> bool {
    match before {
        None => after is None,
        Some(b) => if accepted {
            after == Some(b)
        } else {
            after is Some && is_cmd_shift(after->0, key)
        },
    }
}

/// `after` is what becomes of `before`: a combination that cannot be
/// registered gives way to the default for `key`.
pub open spec fn healed(
    before: Option<ShortcutBinding>,
    after: Option<ShortcutBinding>,
    key: Seq<char>,
) -> bool {
    healed_under(before, before is Some && registrable(before->0), after, key)
}

fn accepted_or(binding: Option<ShortcutBinding>, accepted: bool, key: &str) -> (r: Option<
    ShortcutBinding,
>)
    ensures
        healed_under(binding, accepted, r, key@),
{
    match binding {
        None => None,
        Some(b) => if accepted {
            Some(b)
        } else {
            Some(cmd_shift(key))
        },
    }
}

/// Replaces the combinations that were not accepted by the defaults. The last
/// part of the answer says whether anything was replaced. Where no combination
/// is set, its verdict does not matter.
pub fn heal_agent_hotkeys(
    panel: Option<ShortcutBinding>,
    panel_accepted: bool,
    quick: Option<ShortcutBinding>,
    quick_accepted: bool,
) -> (r: (Option<ShortcutBinding>, Option<ShortcutBinding>, bool))
    ensures
        healed_under(panel, panel_accepted, r.0, "Enter"@),
        healed_under(quick, quick_accepted, r.1, "J"@),
        r.2 == (panel is Some && !panel_accepted || quick is Some && !quick_accepted),
{
    let changed: bool = panel.is_some() && !panel_accepted || quick.is_some() && !quick_accepted;
    (
        accepted_or(panel, panel_accepted, "Enter"),
        accepted_or(quick, quick_accepted, "J"),
        changed,
    )
}

fn is_accepted(binding: &Option<ShortcutBinding>) -> (r: bool)
    ensures
        r == (*binding is Some && registrable(binding->0)),
        *binding is Some && (is_cmd_shift(binding->0, "Enter"@) || is_cmd_shift(
            binding->0,
            "J"@,
        )) ==> r,
{
    match binding {
        Some(b) => agent_binding_is_registrable(b),
        None => false,
    }
}

/// A combination is set that cannot be registered.
pub open spec fn needs_healing(b: Option<ShortcutBinding>) -> bool {
    b is Some && !registrable(b->0)
}

/// Replaces combinations that cannot be registered by the defaults. The last
/// part of the answer says whether anything was replaced. What comes out can
/// always be registered.
pub fn sanitize_agent_hotkeys(
    panel: Option<ShortcutBinding>,
    quick: Option<ShortcutBinding>,
) -> (r: (Option<ShortcutBinding>, Option<ShortcutBinding>, bool))
    ensures
        healed(panel, r.0, "Enter"@),
        healed(quick, r.1, "J"@),
        !needs_healing(r.0),
        !needs_healing(r.1),
        r.2 == (needs_healing(panel) || needs_healing(quick)),
{
    let panel_accepted: bool = is_accepted(&panel);
    let quick_accepted: bool = is_accepted(&quick);
    let healed: (Option<ShortcutBinding>, Option<ShortcutBinding>, bool) = heal_agent_hotkeys(
        panel,
        panel_accepted,
        quick,
        quick_accepted,
    );
    let _ = is_accepted(&healed.0);
    let _ = is_accepted(&healed.1);
    healed
}

/// Healing settles: what was healed once is kept as it is.
pub proof fn law_healing_settles(
    before: Option<ShortcutBinding>,
    after: Option<ShortcutBinding>,
    again: Option<ShortcutBinding>,
    key: Seq<char>,
)
    requires
        healed(before, after, key),
        !needs_healing(after),
        healed(after, again, key),
    ensures
        again == after,
{
}

/// A key to register.
#[derive(Debug)]
pub struct Registration {
    pub accelerator: String,
    pub event: CodingAgentHotkeyEvent,
}

/// The registrations that a binding leads to: one, or none where it is not
/// set or cannot be registered.
pub open spec fn registers(b: Option<ShortcutBinding>) -> bool {
    b is Some && registrable(b->0)
}

fn registration(b: &Option<ShortcutBinding>, event: CodingAgentHotkeyEvent) -> (r: Option<
    Registration,
>)
    ensures
        r is Some == registers(*b),
        r is Some ==> r->0.event == event && r->0.accelerator@ == accelerator(
            texts(b->0.modifiers@),
            b->0.primary@,
        ),
{
    match b {
        None => None,
        Some(b) => if agent_binding_is_registrable(b) {
            Some(Registration { accelerator: accelerator_text(b), event })
        } else {
            None
        },
    }
}

/// The keys to register. A combination that cannot be registered is passed
/// over and does not stand in the way of the other one.
pub fn plan_registrations(panel: &Option<ShortcutBinding>, quick: &Option<ShortcutBinding>) -> (r:
    Vec<Registration>)
    ensures
        r@.len() == (if registers(*panel) {
            1int
        } else {
            0
        }) + (if registers(*quick) {
            1int
        } else {
            0
        }),
        registers(*panel) ==> r@[0].event == CodingAgentHotkeyEvent::PanelPressed
            && r@[0].accelerator@ == accelerator(
            texts(panel->0.modifiers@),
            panel->0.primary@,
        ),
        registers(*quick) ==> r@.last().event == CodingAgentHotkeyEvent::QuickPressed
            && r@.last().accelerator@ == accelerator(
            texts(quick->0.modifiers@),
            quick->0.primary@,
        ),
{
    let mut out: Vec<Registration> = Vec::new();
    if let Some(p) = registration(panel, CodingAgentHotkeyEvent::PanelPressed) {
        out.push(p);
    }
    if let Some(q) = registration(quick, CodingAgentHotkeyEvent::QuickPressed) {
        out.push(q);
    }
    out
}

/// An event of the system's hotkey service.
#[derive(Clone, Copy, PartialEq, Eq, Structural, Debug)]
pub struct GlobalEvent {
    pub id: u32,
    pub pressed: bool,
}

/// The event is a press of the key `id`.
pub open spec fn is_press_of(e: GlobalEvent, id: u32) -> bool {
    e.id == id && e.pressed
}

/// How many of the events are presses of the key `id`.
pub open spec fn presses(events: Seq<GlobalEvent>, id: u32) -> nat
    decreases events.len(),
{
    if events.len() == 0 {
        0
    } else {
        presses(events.drop_last(), id) + (if is_press_of(events.last(), id) {
            1nat
        } else {
            0
        })
    }
}

/// What one event of the service means: releases and other keys mean nothing.
pub fn forward(hotkey_id: u32, global: GlobalEvent, event: CodingAgentHotkeyEvent) -> (r: Option<
    CodingAgentHotkeyEvent,
>)
    ensures
        r == (if is_press_of(global, hotkey_id) {
            Some(event)
        } else {
            None
        }),
{
    if global.id == hotkey_id && global.pressed {
        Some(event)
    } else {
        None
    }
}

/// How many of the events are read while a listener takes `taken` events of
/// ours: all of them, unless it is gone when a press is to be forwarded. That
/// press is the last event that is read.
pub open spec fn events_read(events: Seq<GlobalEvent>, id: u32, taken: nat) -> nat
    decreases events.len(),
{
    if events.len() == 0 {
        0
    } else if !is_press_of(events[0], id) {
        1 + events_read(events.drop_first(), id, taken)
    } else if taken == 0 {
        1
    } else {
        1 + events_read(events.drop_first(), id, (taken - 1) as nat)
    }
}

/// What was forwarded, and how many events were read for it.
#[derive(Debug)]
pub struct Forwarded {
    pub sent: Vec<CodingAgentHotkeyEvent>,
    pub read: usize,
}

/// What a run of events means: one event of ours for each press. `taken` is
/// how many of them the listener takes; forwarding ends with the first that
/// nobody takes.
pub fn forward_loop(
    hotkey_id: u32,
    events: &Vec<GlobalEvent>,
    event: CodingAgentHotkeyEvent,
    taken: usize,
) -> (r: Forwarded)
    ensures
        r.sent@.len() == (if presses(events@, hotkey_id) <= taken {
            presses(events@, hotkey_id) as int
        } else {
            taken as int
        }),
        forall|i: int| 0 <= i < r.sent@.len() ==> #[trigger] r.sent@[i] == event,
        r.read == events_read(events@, hotkey_id, taken as nat),
{
    let mut sent: Vec<CodingAgentHotkeyEvent> = Vec::new();
    let mut i: usize = 0;
    proof {
        assert(events@.skip(0) =~= events@);
    }
    while i < events.len()
        invariant
            i <= events.len(),
            sent@.len() == presses(events@.take(i as int), hotkey_id),
            sent@.len() <= taken,
            forall|k: int| 0 <= k < sent@.len() ==> #[trigger] sent@[k] == event,
            events_read(events@, hotkey_id, taken as nat) == i + events_read(
                events@.skip(i as int),
                hotkey_id,
                (taken - sent@.len()) as nat,
            ),
        decreases events.len() - i,
    {
        proof {
            assert(events@.take(i + 1).drop_last() =~= events@.take(i as int));
            assert(events@.take(i + 1).last() == events@[i as int]);
            assert(events@.skip(i as int)[0] == events@[i as int]);
            assert(events@.skip(i as int).drop_first() =~= events@.skip(i + 1));
        }
        if let Some(e) = forward(hotkey_id, events[i], event) {
            if sent.len() == taken {
                proof {
                    lemma_more_events_more_presses(events@, i + 1, hotkey_id);
                }
                return Forwarded { sent, read: i + 1 };
            }
            sent.push(e);
        }
        i = i + 1;
    }
    proof {
        assert(events@.take(events@.len() as int) =~= events@);
        assert(events@.skip(i as int) =~= Seq::<GlobalEvent>::empty());
    }
    Forwarded { sent, read: i }
}

proof fn lemma_more_events_more_presses(events: Seq<GlobalEvent>, n: int, id: u32)
    requires
        0 <= n <= events.len(),
    ensures
        presses(events.take(n), id) <= presses(events, id),
    decreases events.len() - n,
{
    if n == events.len() {
        assert(events.take(n) =~= events);
    } else {
        lemma_more_events_more_presses(events, n + 1, id);
        assert(events.take(n + 1).drop_last() =~= events.take(n));
    }
}

/// The combination of cmd, shift and one key, as one text.
pub proof fn lemma_cmd_shift_accelerator(b: ShortcutBinding, key: Seq<char>)
    requires
        is_cmd_shift(b, key),
    ensures
        accelerator(texts(b.modifiers@), b.primary@) == "cmd+shift+"@ + key,
        forall|i: int| 0 <= i < b.modifiers@.len() ==> is_modifier(#[trigger] b.modifiers@[i]@),
{
    let m = texts(b.modifiers@);
    reveal_strlit("cmd");
    reveal_strlit("shift");
    reveal_strlit("+");
    reveal_strlit("cmd+shift+");
    assert(m.drop_first() =~= seq!["shift"@]);
    assert(seq!["shift"@].drop_first() =~= Seq::<Seq<char>>::empty());
    reveal_with_fuel(accelerator, 3);
    assert(accelerator(m, key) =~= "cmd+shift+"@ + key);
    assert(lowered("cmd"@) =~= "cmd"@);
    assert(lowered("shift"@) =~= "shift"@);
    assert(b.modifiers@.len() == 2) by {
        assert(m.len() == b.modifiers@.len());
    }
    assert(m[0] == b.modifiers@[0]@);
    assert(m[1] == b.modifiers@[1]@);
}

/// A combination is written as its modifiers and its main key with a plus sign
/// between each two: one more modifier in front stands in front of the rest.
pub proof fn law_combination_as_text(
    b: &ShortcutBinding,
    longer: &ShortcutBinding,
    first: String,
    of_b: String,
    of_longer: String,
)
    requires
        longer.primary@ == b.primary@,
        longer.modifiers@ == seq![first] + b.modifiers@,
        call_ensures(accelerator_text, (b,), of_b),
        call_ensures(accelerator_text, (longer,), of_longer),
    ensures
        of_longer@ == first@ + "+"@ + of_b@,
        b.modifiers@.len() == 0 ==> of_b@ == b.primary@,
{
    let m = texts(longer.modifiers@);
    assert(m.len() == b.modifiers@.len() + 1);
    assert(m[0] == first@);
    assert(m.drop_first() =~= texts(b.modifiers@));
}

/// A combination is read exactly if every modifier is one and the service accepts the
/// whole; what is wrong is told by name, a modifier before the main key.
pub proof fn law_wrong_part_is_named(
    b: &ShortcutBinding,
    text: String,
    r: Result<String, CodingAgentHotkeyError>,
    ok: bool,
    k: int,
)
    requires
        call_ensures(accelerator_text, (b,), text),
        call_ensures(parse_binding, (b,), r),
        call_ensures(agent_binding_is_registrable, (b,), ok),
    ensures
        r is Ok <==> ok,
        r matches Ok(key) ==> hotkey_key(text@) == Some(key@),
        r is Err && r->Err_0 is UnsupportedKey ==> r->Err_0->UnsupportedKey_0@ == b.primary@
            && hotkey_key(text@) is None,
        0 <= k < b.modifiers@.len() && !is_modifier(b.modifiers@[k]@) ==> r is Err
            && r->Err_0 is UnsupportedModifier,
        r is Err ==> r->Err_0 is UnsupportedKey || r->Err_0 is UnsupportedModifier,
        (forall|i: int| 0 <= i < b.modifiers@.len() ==> is_modifier(#[trigger] b.modifiers@[i]@))
            && hotkey_key(text@) is Some ==> r is Ok,
{
}

/// The names of the modifiers, in any case of letters. Command, control, option and
/// shift are modifiers under each of their names, and an ordinary key is none.
pub proof fn law_names_of_modifiers(name: &str, low: String)
    requires
        call_ensures(lower_ascii, (name,), low),
    ensures
        is_modifier(name@) <==> low@ == "cmd"@ || low@ == "command"@ || low@ == "super"@ || low@
            == "meta"@ || low@ == "ctrl"@ || low@ == "control"@ || low@ == "alt"@ || low@
            == "option"@ || low@ == "shift"@,
        name@.len() < 3 || name@.len() > 7 ==> !is_modifier(name@),
{
    reveal_strlit("cmd");
    reveal_strlit("command");
    reveal_strlit("super");
    reveal_strlit("meta");
    reveal_strlit("ctrl");
    reveal_strlit("control");
    reveal_strlit("alt");
    reveal_strlit("option");
    reveal_strlit("shift");
    assert(low@.len() == name@.len());
}

/// The default combinations are cmd, shift and a key of their own, and both can be
/// registered.
pub proof fn law_default_combinations(
    panel: ShortcutBinding,
    quick: ShortcutBinding,
    panel_ok: bool,
    quick_ok: bool,
)
    requires
        call_ensures(default_coding_agent_panel_hotkey, (), panel),
        call_ensures(default_coding_agent_quick_hotkey, (), quick),
        call_ensures(agent_binding_is_registrable, (&panel,), panel_ok),
        call_ensures(agent_binding_is_registrable, (&quick,), quick_ok),
    ensures
        panel.primary@ == "Enter"@,
        quick.primary@ == "J"@,
        panel.modifiers@.len() == 2 && panel.modifiers@[0]@ == "cmd"@ && panel.modifiers@[1]@
            == "shift"@,
        quick.modifiers@.len() == 2 && quick.modifiers@[0]@ == "cmd"@ && quick.modifiers@[1]@
            == "shift"@,
        panel_ok && quick_ok,
{
    assert(texts(panel.modifiers@).len() == panel.modifiers@.len());
    assert(texts(panel.modifiers@)[0] == panel.modifiers@[0]@);
    assert(texts(panel.modifiers@)[1] == panel.modifiers@[1]@);
    assert(texts(quick.modifiers@).len() == quick.modifiers@.len());
    assert(texts(quick.modifiers@)[0] == quick.modifiers@[0]@);
    assert(texts(quick.modifiers@)[1] == quick.modifiers@[1]@);
}

/// A combination that can be registered is kept as the user set it, one that cannot
/// gives way to the default of its own key, and one that is not set stays unset. It
/// is told exactly if something was replaced, and afterwards there is nothing left to
/// replace.
pub proof fn law_healing_keeps_what_works(
    panel: Option<ShortcutBinding>,
    quick: Option<ShortcutBinding>,
    panel_ok: bool,
    quick_ok: bool,
    r: (Option<ShortcutBinding>, Option<ShortcutBinding>, bool),
    again: (Option<ShortcutBinding>, Option<ShortcutBinding>, bool),
)
    requires
        panel matches Some(b) ==> call_ensures(agent_binding_is_registrable, (&b,), panel_ok),
        quick matches Some(b) ==> call_ensures(agent_binding_is_registrable, (&b,), quick_ok),
        call_ensures(sanitize_agent_hotkeys, (panel, quick), r),
        call_ensures(sanitize_agent_hotkeys, (r.0, r.1), again),
    ensures
        r.0 is Some <==> panel is Some,
        r.1 is Some <==> quick is Some,
        panel is Some && panel_ok ==> r.0 == panel,
        panel is Some && !panel_ok ==> r.0->0.primary@ == "Enter"@,
        quick is Some && quick_ok ==> r.1 == quick,
        quick is Some && !quick_ok ==> r.1->0.primary@ == "J"@,
        r.2 <==> (panel is Some && !panel_ok) || (quick is Some && !quick_ok),
        again.0 == r.0 && again.1 == r.1 && !again.2,
{
}

/// The same for verdicts that are already there.
pub proof fn law_verdicts_decide(
    panel: Option<ShortcutBinding>,
    panel_ok: bool,
    quick: Option<ShortcutBinding>,
    quick_ok: bool,
    r: (Option<ShortcutBinding>, Option<ShortcutBinding>, bool),
)
    requires
        call_ensures(heal_agent_hotkeys, (panel, panel_ok, quick, quick_ok), r),
    ensures
        panel_ok ==> r.0 == panel,
        quick_ok ==> r.1 == quick,
        panel is None ==> r.0 is None,
        quick is None ==> r.1 is None,
        panel is Some && !panel_ok ==> r.0 is Some && r.0->0.primary@ == "Enter"@,
        quick is Some && !quick_ok ==> r.1 is Some && r.1->0.primary@ == "J"@,
        !r.2 ==> r.0 == panel && r.1 == quick,
{
}

/// Each combination that can be registered is registered, for its own event and as
/// the text of the combination; one that cannot is passed over, and does not keep the
/// other from being registered.
pub proof fn law_registrations_are_planned(
    panel: &Option<ShortcutBinding>,
    quick: &Option<ShortcutBinding>,
    p: &ShortcutBinding,
    q: &ShortcutBinding,
    panel_ok: bool,
    quick_ok: bool,
    panel_text: String,
    quick_text: String,
    r: Vec<Registration>,
)
    requires
        *panel matches Some(b) ==> *p == b,
        *quick matches Some(b) ==> *q == b,
        call_ensures(agent_binding_is_registrable, (p,), panel_ok),
        call_ensures(agent_binding_is_registrable, (q,), quick_ok),
        call_ensures(accelerator_text, (p,), panel_text),
        call_ensures(accelerator_text, (q,), quick_text),
        call_ensures(plan_registrations, (panel, quick), r),
    ensures
        *panel is Some && panel_ok ==> r@.len() > 0 && r@[0].event
            == CodingAgentHotkeyEvent::PanelPressed && r@[0].accelerator@ == panel_text@,
        *quick is Some && quick_ok ==> r@.len() > 0 && r@.last().event
            == CodingAgentHotkeyEvent::QuickPressed && r@.last().accelerator@ == quick_text@,
        r@.len() == 2 <==> *panel is Some && panel_ok && *quick is Some && quick_ok,
        r@.len() == 0 <==> !(*panel is Some && panel_ok) && !(*quick is Some && quick_ok),
{
}

/// Only a press of the registered key is forwarded, as its own event.
pub proof fn law_only_presses_are_forwarded(
    id: u32,
    global: GlobalEvent,
    event: CodingAgentHotkeyEvent,
    r: Option<CodingAgentHotkeyEvent>,
)
    requires
        call_ensures(forward, (id, global, event), r),
    ensures
        r is Some <==> global.id == id && global.pressed,
        r is Some ==> r->0 == event,
{
}

proof fn lemma_presses_prepend(e: GlobalEvent, rest: Seq<GlobalEvent>, id: u32)
    ensures
        presses(seq![e] + rest, id) == presses(rest, id) + if is_press_of(e, id) {
            1nat
        } else {
            0nat
        },
    decreases rest.len(),
{
    let all = seq![e] + rest;
    if rest.len() == 0 {
        assert(all.drop_last() =~= Seq::<GlobalEvent>::empty());
        assert(all.last() == e);
        assert(presses(all.drop_last(), id) == 0);
    } else {
        lemma_presses_prepend(e, rest.drop_last(), id);
        assert(all.drop_last() =~= seq![e] + rest.drop_last());
        assert(all.last() == rest.last());
    }
}

/// A run of events is forwarded press by press: what is forwarded of the first event
/// goes before what is forwarded of the others, while there is somebody to take it.
/// The first press that nobody takes is the last event that is read.
pub proof fn law_presses_are_forwarded_one_by_one(
    id: u32,
    events: &Vec<GlobalEvent>,
    rest: &Vec<GlobalEvent>,
    event: CodingAgentHotkeyEvent,
    taken: usize,
    left: usize,
    head: Option<CodingAgentHotkeyEvent>,
    r: Forwarded,
    q: Forwarded,
)
    requires
        events@.len() > 0,
        rest@ == events@.drop_first(),
        call_ensures(forward, (id, events@[0], event), head),
        call_ensures(forward_loop, (id, events, event, taken), r),
        head is None ==> left == taken,
        head is Some && taken > 0 ==> left == taken - 1,
        call_ensures(forward_loop, (id, rest, event, left), q),
    ensures
        head is Some && taken == 0 ==> r.sent@.len() == 0 && r.read == 1,
        head is None ==> r.sent@.len() == q.sent@.len() && r.read == q.read + 1,
        head is Some && taken > 0 ==> r.sent@.len() == q.sent@.len() + 1 && r.read == q.read + 1,
        r.sent@.len() <= taken,
        forall|i: int| 0 <= i < r.sent@.len() ==> #[trigger] r.sent@[i] == event,
{
    assert(events@ =~= seq![events@[0]] + rest@);
    lemma_presses_prepend(events@[0], rest@, id);
}

} // verus!
