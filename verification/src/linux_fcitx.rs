//! The windowed host as a client of the input method plugin.

use crate::fcitx::{FcitxArguments, FcitxCall};
use crate::text::{join2, join3};
use vstd::prelude::*;

verus! {

/// `call` is this call.
pub open spec fn calls(call: FcitxCall, method: Seq<char>, arguments: FcitxArguments) -> bool {
    call.method@ == method && call.arguments == arguments
}

/// The call that commits `text` at the cursor.
pub fn commit_text(text: &str) -> (r: FcitxCall)
    ensures
        r.method@ == "CommitText"@,
        r.arguments matches FcitxArguments::Text(t) && t@ == text@,
{
    FcitxCall { method: "CommitText".to_owned(), arguments: FcitxArguments::Text(text.to_owned()) }
}

/// The call that sets the dictation keys by name.
pub fn set_hotkey(keys: Vec<String>) -> (r: FcitxCall)
    ensures
        calls(r, "SetHotkey"@, FcitxArguments::TextList(keys)),
{
    FcitxCall { method: "SetHotkey".to_owned(), arguments: FcitxArguments::TextList(keys) }
}

/// The call that sets the dictation key by its number.
pub fn set_hotkey_raw(symbol: u32, states: u32) -> (r: FcitxCall)
    ensures
        calls(r, "SetHotkeyRaw"@, (FcitxArguments::Key { symbol, states })),
{
    FcitxCall {
        method: "SetHotkeyRaw".to_owned(),
        arguments: FcitxArguments::Key { symbol, states },
    }
}

/// What came of a call.
#[derive(Debug)]
pub enum CallOutcome {
    /// The message bus could not be reached.
    NoSession(String),
    /// The call could not be put into a message.
    NotBuilt(String),
    /// The plugin did not answer.
    NoReply(String),
    Answered,
}

/// What a call came to, in words where it failed.
pub fn call_result(call: &FcitxCall, outcome: CallOutcome) -> (r: Result<(), String>)
    ensures
        match outcome {
            CallOutcome::Answered => r is Ok,
            CallOutcome::NoSession(e) => r matches Err(m) && m@ == "dbus session: "@ + e@,
            CallOutcome::NotBuilt(e) => r matches Err(m) && m@ == "build msg: "@ + e@,
            CallOutcome::NoReply(e) => r matches Err(m) && m@ == call.method@ + ": "@ + e@,
        },
{
    match outcome {
        CallOutcome::Answered => Ok(()),
        CallOutcome::NoSession(e) => Err(join2("dbus session: ", e.as_str())),
        CallOutcome::NotBuilt(e) => Err(join2("build msg: ", e.as_str())),
        CallOutcome::NoReply(e) => Err(join3(call.method.as_str(), ": ", e.as_str())),
    }
}

/// Whether the plugin can be reached: a call that asks for nothing came back.
pub fn available(outcome: &CallOutcome) -> (r: bool)
    ensures
        r == (*outcome is Answered),
{
    match outcome {
        CallOutcome::Answered => true,
        _ => false,
    }
}

/// The keys that can start dictation.
#[derive(Clone, Copy, PartialEq, Eq, Structural, Debug)]
pub enum HotkeyTrigger {
    RightControl,
    LeftControl,
    RightOption,
    RightAlt,
    LeftOption,
    RightCommand,
    Fn,
    /// A combination of the user's own, which the plugin gets another way.
    Custom,
}

/// The X11 symbol of a trigger.
pub open spec fn trigger_symbol(t: HotkeyTrigger) -> Option<u32> {
    match t {
        HotkeyTrigger::RightControl => Some(0xffe4),
        HotkeyTrigger::LeftControl => Some(0xffe3),
        HotkeyTrigger::RightOption => Some(0xffea),
        HotkeyTrigger::RightAlt => Some(0xffea),
        HotkeyTrigger::LeftOption => Some(0xffe9),
        HotkeyTrigger::RightCommand => Some(0xffec),
        HotkeyTrigger::Fn => Some(0xffeb),
        HotkeyTrigger::Custom => None,
    }
}

/// The call that sets the key of a binding in the plugin. A bare modifier goes
/// by its number, because the plugin does not take it by name.
pub fn sync_binding_to_plugin(trigger: HotkeyTrigger) -> (r: Option<FcitxCall>)
    ensures
        match trigger_symbol(trigger) {
            Some(symbol) => r matches Some(call) && calls(
                call,
                "SetHotkeyRaw"@,
                (FcitxArguments::Key { symbol, states: 0 }),
            ),
            None => r is None,
        },
{
    let symbol: u32 = match trigger {
        HotkeyTrigger::RightControl => 0xffe4,
        HotkeyTrigger::LeftControl => 0xffe3,
        HotkeyTrigger::RightOption | HotkeyTrigger::RightAlt => 0xffea,
        HotkeyTrigger::LeftOption => 0xffe9,
        HotkeyTrigger::RightCommand => 0xffec,
        HotkeyTrigger::Fn => 0xffeb,
        HotkeyTrigger::Custom => return None,
    };
    Some(set_hotkey_raw(symbol, 0))
}

/// An edge of the dictation key.
#[derive(Clone, Copy, PartialEq, Eq, Structural, Debug)]
pub enum HotkeyEvent {
    Pressed,
    Released,
}

/// The edge that a signal of the plugin reports.
pub fn dictation_signal_event(is_press: bool) -> (r: HotkeyEvent)
    ensures
        r == (if is_press {
            HotkeyEvent::Pressed
        } else {
            HotkeyEvent::Released
        }),
{
    if is_press {
        HotkeyEvent::Pressed
    } else {
        HotkeyEvent::Released
    }
}

/// Each call names its method and carries what it was given.
pub proof fn law_calls_carry_their_arguments(
    text: &str,
    keys: Vec<String>,
    symbol: u32,
    states: u32,
    commit: FcitxCall,
    named: FcitxCall,
    raw: FcitxCall,
)
    requires
        call_ensures(commit_text, (text,), commit),
        call_ensures(set_hotkey, (keys,), named),
        call_ensures(set_hotkey_raw, (symbol, states), raw),
    ensures
        commit.method@ == "CommitText"@,
        commit.arguments matches FcitxArguments::Text(t) && t@ == text@,
        named.method@ == "SetHotkey"@,
        named.arguments == FcitxArguments::TextList(keys),
        raw.method@ == "SetHotkeyRaw"@,
        raw.arguments == (FcitxArguments::Key { symbol, states }),
{
}

/// The plugin can be reached exactly if a call was answered, and only such a call
/// succeeded. What failed is told in the words it came with.
pub proof fn law_answered_call_succeeded(
    call: &FcitxCall,
    outcome: CallOutcome,
    r: Result<(), String>,
    reached: bool,
)
    requires
        call_ensures(call_result, (call, outcome), r),
        call_ensures(available, (&outcome,), reached),
    ensures
        r is Ok <==> outcome is Answered,
        reached <==> r is Ok,
        outcome matches CallOutcome::NoReply(e) ==> r->Err_0@ == call.method@ + ": "@ + e@,
        outcome matches CallOutcome::NoSession(e) ==> crate::text::ends_with(r->Err_0@, e@),
        outcome matches CallOutcome::NotBuilt(e) ==> crate::text::ends_with(r->Err_0@, e@),
{
    if let CallOutcome::NoSession(e) = outcome {
        let all = r->Err_0@;
        assert(all.subrange(all.len() - e@.len(), all.len() as int) =~= e@);
    }
    if let CallOutcome::NotBuilt(e) = outcome {
        let all = r->Err_0@;
        assert(all.subrange(all.len() - e@.len(), all.len() as int) =~= e@);
    }
}

/// Every trigger but a combination of the user's own is set by the number of its key,
/// and different keys have different numbers; the right option key and the right alt
/// key are one key.
pub proof fn law_triggers_have_their_keys(
    a: HotkeyTrigger,
    b: HotkeyTrigger,
    of_a: Option<FcitxCall>,
    of_b: Option<FcitxCall>,
)
    requires
        call_ensures(sync_binding_to_plugin, (a,), of_a),
        call_ensures(sync_binding_to_plugin, (b,), of_b),
    ensures
        of_a is None <==> a == HotkeyTrigger::Custom,
        of_a is Some ==> of_a->0.method@ == "SetHotkeyRaw"@ && of_a->0.arguments is Key
            && of_a->0.arguments->states == 0,
        of_a is Some && of_b is Some && of_a->0.arguments == of_b->0.arguments ==> a == b || (a
            == HotkeyTrigger::RightOption && b == HotkeyTrigger::RightAlt) || (a
            == HotkeyTrigger::RightAlt && b == HotkeyTrigger::RightOption),
        a == HotkeyTrigger::RightOption && b == HotkeyTrigger::RightAlt ==> of_a->0.arguments
            == of_b->0.arguments,
        a == HotkeyTrigger::RightControl ==> of_a->0.arguments->symbol == 0xffe4,
        a == HotkeyTrigger::LeftControl ==> of_a->0.arguments->symbol == 0xffe3,
        a == HotkeyTrigger::RightAlt ==> of_a->0.arguments->symbol == 0xffea,
{
}

/// A signal reports the edge that it says.
pub proof fn law_signal_reports_its_edge(is_press: bool, r: HotkeyEvent)
    requires
        call_ensures(dictation_signal_event, (is_press,), r),
    ensures
        r == HotkeyEvent::Pressed <==> is_press,
        r == HotkeyEvent::Released <==> !is_press,
{
}

} // verus!
