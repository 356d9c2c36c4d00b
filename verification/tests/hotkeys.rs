use openless::agent_hotkey::{
    agent_binding_is_registrable, accelerator_text, default_coding_agent_panel_hotkey,
    default_coding_agent_quick_hotkey, forward_loop, heal_agent_hotkeys, parse_binding, plan_registrations,
    sanitize_agent_hotkeys, CodingAgentHotkeyError, CodingAgentHotkeyEvent, GlobalEvent,
    ShortcutBinding,
};

fn binding(modifiers: &[&str], primary: &str) -> ShortcutBinding {
    ShortcutBinding {
        primary: primary.into(),
        modifiers: modifiers.iter().map(|m| m.to_string()).collect(),
    }
}

fn bare_right_command() -> ShortcutBinding {
    binding(&[], "RightCommand")
}

#[test]
fn parses_default_panel_binding() {
    let parsed = parse_binding(&binding(&["cmd", "shift"], "Enter")).expect("Enter binding parses");
    assert_eq!(parsed, "Enter");
    assert_eq!(parsed, global_hotkey::hotkey::Code::Enter.to_string());
}

#[test]
fn parses_default_quick_binding() {
    let parsed = parse_binding(&binding(&["cmd", "shift"], "J")).expect("J binding parses");
    assert_eq!(parsed, "KeyJ");
    assert_eq!(parsed, global_hotkey::hotkey::Code::KeyJ.to_string());
}

#[test]
fn forward_loop_filters_other_ids_and_releases() {
    let events = vec![
        GlobalEvent { id: 1, pressed: true },
        GlobalEvent { id: 7, pressed: false },
        GlobalEvent { id: 7, pressed: true },
    ];
    let out = forward_loop(7, &events, CodingAgentHotkeyEvent::QuickPressed, usize::MAX);
    assert_eq!(out.sent, vec![CodingAgentHotkeyEvent::QuickPressed]);
    assert_eq!(out.read, 3);
}

#[test]
fn forwarding_ends_when_nobody_listens() {
    let press = || GlobalEvent { id: 7, pressed: true };
    let other = || GlobalEvent { id: 1, pressed: true };
    let events = vec![other(), press(), other(), press(), press()];
    let out = forward_loop(7, &events, CodingAgentHotkeyEvent::PanelPressed, 1);
    assert_eq!((out.sent.len(), out.read), (1, 4));
    let out = forward_loop(7, &events, CodingAgentHotkeyEvent::PanelPressed, 0);
    assert_eq!((out.sent.len(), out.read), (0, 2));
    let out = forward_loop(7, &events, CodingAgentHotkeyEvent::PanelPressed, 3);
    assert_eq!((out.sent.len(), out.read), (3, 5));
}

#[test]
fn sanitize_replaces_bare_modifier_panel() {
    let (panel, quick, changed) = sanitize_agent_hotkeys(Some(bare_right_command()), None);
    assert!(changed);
    assert_eq!(panel, Some(default_coding_agent_panel_hotkey()));
    assert!(agent_binding_is_registrable(&panel.unwrap()));
    assert_eq!(quick, None);
}

#[test]
fn sanitize_replaces_bare_modifier_quick() {
    let (panel, quick, changed) = sanitize_agent_hotkeys(None, Some(bare_right_command()));
    assert!(changed);
    assert_eq!(panel, None);
    assert_eq!(quick, Some(default_coding_agent_quick_hotkey()));
    assert!(agent_binding_is_registrable(&quick.unwrap()));
}

#[test]
fn sanitize_keeps_valid_combo_untouched() {
    let panel = Some(binding(&["cmd", "shift"], "Enter"));
    let quick = Some(binding(&["cmd", "shift"], "J"));
    let (p, q, changed) = sanitize_agent_hotkeys(panel.clone(), quick.clone());
    assert!(!changed);
    assert_eq!(p, panel);
    assert_eq!(q, quick);
}

#[test]
fn sanitize_none_is_noop() {
    let (p, q, changed) = sanitize_agent_hotkeys(None, None);
    assert!(!changed);
    assert_eq!(p, None);
    assert_eq!(q, None);
}

#[test]
fn healing_follows_the_verdicts() {
    let own = || Some(binding(&["cmd"], "K"));
    let (p, q, changed) = heal_agent_hotkeys(own(), true, own(), false);
    assert!(changed);
    assert_eq!((p, q), (own(), Some(default_coding_agent_quick_hotkey())));
    let (p, q, changed) = heal_agent_hotkeys(own(), false, None, false);
    assert!(changed);
    assert_eq!((p, q), (Some(default_coding_agent_panel_hotkey()), None));
    assert_eq!(heal_agent_hotkeys(None, false, None, false), (None, None, false));
}

#[test]
fn healing_settles() {
    let (p, q, _) = sanitize_agent_hotkeys(Some(bare_right_command()), Some(bare_right_command()));
    let (p2, q2, changed) = sanitize_agent_hotkeys(p.clone(), q.clone());
    assert!(!changed);
    assert_eq!((p2, q2), (p, q));
}

#[test]
fn what_is_wrong_with_a_binding_is_said() {
    let modifier = parse_binding(&binding(&["hyper"], "J")).unwrap_err();
    assert!(matches!(&modifier, CodingAgentHotkeyError::UnsupportedModifier(m) if m == "hyper"));
    assert_eq!(modifier.text(), "不支持的修饰键: hyper");
    let key = parse_binding(&binding(&["cmd"], "Banana")).unwrap_err();
    assert!(matches!(&key, CodingAgentHotkeyError::UnsupportedKey(k) if k == "Banana"));
    assert_eq!(key.text(), "不支持的主键: Banana");
    assert_eq!(
        CodingAgentHotkeyError::RegisterFailed("x".into()).text(),
        "注册全局快捷键失败: x"
    );
    assert_eq!(
        CodingAgentHotkeyError::ManagerInitFailed("x".into()).text(),
        "初始化全局快捷键管理器失败: x"
    );
}

#[test]
fn a_bad_binding_does_not_stand_in_the_way_of_the_other() {
    let plan = plan_registrations(
        &Some(bare_right_command()),
        &Some(default_coding_agent_quick_hotkey()),
    );
    assert_eq!(plan.len(), 1);
    assert_eq!(plan[0].event, CodingAgentHotkeyEvent::QuickPressed);
    assert_eq!(plan[0].accelerator, "cmd+shift+J");
    assert_eq!(accelerator_text(&binding(&[], "F5")), "F5");
}
