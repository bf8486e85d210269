use mapped_keyboard::engine::{EngineCommand, EngineQuery, EngineReply};
use mapped_keyboard::events::{Event, SessionResult, Step};
use mapped_keyboard::locale::choose_locale;
use mapped_keyboard::state::KbState;
use mapped_keyboard::types::{
    name_ok, KeyState, KeymapFormat, ModifierActivation, ModifiersState,
};

fn no_mods() -> ModifierActivation {
    ModifierActivation {
        ctrl: false,
        alt: false,
        shift: false,
        caps_lock: false,
        logo: false,
        num_lock: false,
    }
}

/// Drive a byte-blob keymap load to completion with the given handles.
fn load_keymap(kb: &mut KbState, keymap: u64, state: u64) {
    let out = kb.on_keymap(KeymapFormat::XkbV1);
    assert!(matches!(out.step, Step::Query(EngineQuery::CompileKeymapFromBytes)));
    let out = kb.resume(EngineReply::Keymap { handle: Some(keymap) });
    assert_eq!(out.step, Step::Query(EngineQuery::CreateState { keymap }));
    let out = kb.resume(EngineReply::State { handle: state });
    assert_eq!(out.step, Step::Query(EngineQuery::QueryModifiers { state }));
    let out = kb.resume(EngineReply::Modifiers { active: no_mods() });
    assert!(matches!(out.step, Step::Done(SessionResult::Quiet)));
}

#[test]
fn modifiers_start_inactive() {
    let m = ModifiersState::new();
    assert!(!m.ctrl && !m.alt && !m.shift && !m.caps_lock && !m.logo && !m.num_lock);
}

#[test]
fn fresh_state_is_not_ready() {
    let kb = KbState::new(1);
    assert!(!kb.ready());
    assert!(!kb.is_locked());
}

#[test]
fn key_before_any_keymap_yields_sym_zero_and_no_text() {
    let mut kb = KbState::new(1);
    let out = kb.on_key(7, 100, 30, KeyState::Pressed);
    assert!(out.commands.is_empty());
    match out.step {
        Step::Done(SessionResult::Event(Event::Key { serial, time, rawkey, keysym, utf8, .. })) => {
            assert_eq!(serial, 7);
            assert_eq!(time, 100);
            assert_eq!(rawkey, 30);
            assert_eq!(keysym, 0);
            assert_eq!(utf8, None);
        }
        other => panic!("unexpected step: {:?}", other),
    }
}

#[test]
fn enter_before_any_keymap_yields_all_zero_syms() {
    let mut kb = KbState::new(1);
    let out = kb.on_enter(5, vec![30, 31, 32]);
    match out.step {
        Step::Done(SessionResult::Event(Event::Enter { rawkeys, keysyms, .. })) => {
            assert_eq!(rawkeys, vec![30, 31, 32]);
            assert_eq!(keysyms, vec![0, 0, 0]);
        }
        other => panic!("unexpected step: {:?}", other),
    }
}

#[test]
fn keymap_load_makes_state_ready() {
    let mut kb = KbState::new(1);
    let mut released: Vec<EngineCommand> = Vec::new();
    let out = kb.on_keymap(KeymapFormat::XkbV1);
    released.extend(out.commands.iter().cloned());
    assert!(released.is_empty());
    load_keymap(&mut kb, 10, 20);
    assert!(kb.ready());
}

#[test]
fn no_keymap_format_is_ignored() {
    let mut kb = KbState::new(1);
    let out = kb.on_keymap(KeymapFormat::NoKeymap);
    assert!(out.commands.is_empty());
    assert!(matches!(out.step, Step::Done(SessionResult::Quiet)));
    assert!(!kb.ready());
}

#[test]
fn malformed_keymap_leaves_state_not_ready() {
    let mut kb = KbState::new(1);
    let out = kb.on_keymap(KeymapFormat::XkbV1);
    assert!(matches!(out.step, Step::Query(EngineQuery::CompileKeymapFromBytes)));
    let out = kb.resume(EngineReply::Keymap { handle: None });
    assert_eq!(
        out.step,
        Step::Done(SessionResult::Failed(
            mapped_keyboard::types::MappedKeyboardError::Malformed
        ))
    );
    assert!(!kb.ready());
}

#[test]
fn reload_releases_first_state_exactly_once_before_installing_second() {
    let mut kb = KbState::new(1);
    load_keymap(&mut kb, 10, 20);

    // Second load with different content: collect every release the
    // machine emits over the whole session, like an engine with
    // allocation counters would.
    let mut commands: Vec<EngineCommand> = Vec::new();
    let mut create_seen_after_release = false;

    let out = kb.on_keymap(KeymapFormat::XkbV1);
    commands.extend(out.commands.iter().cloned());
    // The old pair is released before the new keymap is even compiled.
    assert_eq!(
        commands,
        vec![
            EngineCommand::ReleaseState { state: 20 },
            EngineCommand::ReleaseKeymap { keymap: 10 },
        ]
    );
    let out = kb.resume(EngineReply::Keymap { handle: Some(11) });
    commands.extend(out.commands.iter().cloned());
    if let Step::Query(EngineQuery::CreateState { keymap }) = out.step {
        assert_eq!(keymap, 11);
        create_seen_after_release = true;
    }
    assert!(create_seen_after_release);
    let out = kb.resume(EngineReply::State { handle: 21 });
    commands.extend(out.commands.iter().cloned());
    let out = kb.resume(EngineReply::Modifiers { active: no_mods() });
    commands.extend(out.commands.iter().cloned());

    let releases_of_first_state = commands
        .iter()
        .filter(|c| **c == EngineCommand::ReleaseState { state: 20 })
        .count();
    assert_eq!(releases_of_first_state, 1);
    assert!(kb.ready());

    // The new state handle is the one queried afterwards.
    let out = kb.on_key(1, 2, 30, KeyState::Released);
    assert_eq!(
        out.step,
        Step::Query(EngineQuery::KeyGetOneSym { state: 21, keycode: 38 })
    );
}

#[test]
fn modifier_update_without_effective_bit_keeps_snapshot() {
    let mut kb = KbState::new(1);
    load_keymap(&mut kb, 10, 20);
    let before = kb.modifiers();
    let out = kb.on_modifiers(1, 2, 3, 4);
    assert_eq!(
        out.step,
        Step::Query(EngineQuery::UpdateMask {
            state: 20,
            depressed: 1,
            latched: 2,
            locked_mods: 3,
            group: 4,
        })
    );
    // Changed bitset without the effective-modifiers bit: no per-name
    // query, snapshot unchanged.
    let out = kb.resume(EngineReply::Mask { changed: 0x4 });
    assert!(matches!(out.step, Step::Done(SessionResult::Quiet)));
    assert_eq!(kb.modifiers(), before);
}

#[test]
fn modifier_update_with_effective_bit_recomputes_snapshot() {
    let mut kb = KbState::new(1);
    load_keymap(&mut kb, 10, 20);
    let out = kb.on_modifiers(4, 0, 0, 0);
    assert!(matches!(out.step, Step::Query(EngineQuery::UpdateMask { .. })));
    let out = kb.resume(EngineReply::Mask { changed: 0x8 });
    assert_eq!(out.step, Step::Query(EngineQuery::QueryModifiers { state: 20 }));
    let active = ModifierActivation {
        ctrl: true,
        alt: false,
        shift: true,
        caps_lock: false,
        logo: false,
        num_lock: true,
    };
    let out = kb.resume(EngineReply::Modifiers { active });
    assert!(matches!(out.step, Step::Done(SessionResult::Quiet)));
    let m = kb.modifiers();
    assert!(m.ctrl && !m.alt && m.shift && !m.caps_lock && !m.logo && m.num_lock);
}

#[test]
fn modifier_update_before_ready_is_a_no_op() {
    let mut kb = KbState::new(1);
    let out = kb.on_modifiers(1, 2, 3, 4);
    assert!(matches!(out.step, Step::Done(SessionResult::Quiet)));
}

#[test]
fn released_key_reports_sym_but_never_text() {
    let mut kb = KbState::new(1);
    load_keymap(&mut kb, 10, 20);
    let out = kb.on_key(3, 4, 30, KeyState::Released);
    assert_eq!(
        out.step,
        Step::Query(EngineQuery::KeyGetOneSym { state: 20, keycode: 38 })
    );
    let out = kb.resume(EngineReply::Sym { keysym: 120 });
    match out.step {
        Step::Done(SessionResult::Event(Event::Key { keysym, state, utf8, .. })) => {
            assert_eq!(keysym, 120);
            assert_eq!(state, KeyState::Released);
            assert_eq!(utf8, None);
        }
        other => panic!("unexpected step: {:?}", other),
    }
}

#[test]
fn enter_resolves_every_pressed_key_in_order() {
    let mut kb = KbState::new(1);
    load_keymap(&mut kb, 10, 20);
    let out = kb.on_enter(9, vec![30, 40]);
    assert_eq!(
        out.step,
        Step::Query(EngineQuery::KeyGetOneSym { state: 20, keycode: 38 })
    );
    let out = kb.resume(EngineReply::Sym { keysym: 100 });
    assert_eq!(
        out.step,
        Step::Query(EngineQuery::KeyGetOneSym { state: 20, keycode: 48 })
    );
    let out = kb.resume(EngineReply::Sym { keysym: 200 });
    match out.step {
        Step::Done(SessionResult::Event(Event::Enter { serial, rawkeys, keysyms, .. })) => {
            assert_eq!(serial, 9);
            assert_eq!(rawkeys, vec![30, 40]);
            assert_eq!(keysyms, vec![100, 200]);
        }
        other => panic!("unexpected step: {:?}", other),
    }
}

#[test]
fn enter_with_no_pressed_keys_reports_immediately() {
    let mut kb = KbState::new(1);
    load_keymap(&mut kb, 10, 20);
    let out = kb.on_enter(9, Vec::new());
    match out.step {
        Step::Done(SessionResult::Event(Event::Enter { rawkeys, keysyms, .. })) => {
            assert!(rawkeys.is_empty());
            assert!(keysyms.is_empty());
        }
        other => panic!("unexpected step: {:?}", other),
    }
}

#[test]
fn leave_and_repeat_info_pass_through() {
    let kb = KbState::new(1);
    let out = kb.on_leave(13);
    assert_eq!(out.step, Step::Done(SessionResult::Event(Event::Leave { serial: 13 })));
    let out = kb.on_repeat_info(25, 600);
    assert_eq!(
        out.step,
        Step::Done(SessionResult::Event(Event::RepeatInfo { rate: 25, delay: 600 }))
    );
}

#[test]
fn detached_state_emits_no_events_though_keymap_stays_loaded() {
    let mut kb = KbState::new(1);
    load_keymap(&mut kb, 10, 20);
    kb.detach();
    // The interpretation state is still consulted...
    let out = kb.on_key(1, 2, 30, KeyState::Released);
    assert_eq!(
        out.step,
        Step::Query(EngineQuery::KeyGetOneSym { state: 20, keycode: 38 })
    );
    // ...but nothing reaches the handler.
    let out = kb.resume(EngineReply::Sym { keysym: 120 });
    assert!(matches!(out.step, Step::Done(SessionResult::Quiet)));
    let out = kb.on_leave(3);
    assert!(matches!(out.step, Step::Done(SessionResult::Quiet)));
    assert!(kb.ready());
    // Reattaching restores delivery.
    kb.attach();
    let out = kb.on_leave(4);
    assert_eq!(out.step, Step::Done(SessionResult::Event(Event::Leave { serial: 4 })));
}

#[test]
fn teardown_releases_everything_context_last() {
    let mut kb = KbState::new(1);
    load_keymap(&mut kb, 10, 20);
    let out = kb.begin_compose_init();
    assert_eq!(out.step, Step::Query(EngineQuery::CreateComposeTable { context: 1 }));
    let out = kb.resume(EngineReply::ComposeHandle { handle: Some(30) });
    assert_eq!(out.step, Step::Query(EngineQuery::CreateComposeState { table: 30 }));
    let out = kb.resume(EngineReply::ComposeHandle { handle: Some(40) });
    assert!(matches!(out.step, Step::Done(SessionResult::Quiet)));
    let commands = kb.teardown();
    assert_eq!(
        commands,
        vec![
            EngineCommand::ReleaseComposeState { compose: 40 },
            EngineCommand::ReleaseComposeTable { table: 30 },
            EngineCommand::ReleaseState { state: 20 },
            EngineCommand::ReleaseKeymap { keymap: 10 },
            EngineCommand::ReleaseContext { context: 1 },
        ]
    );
}

#[test]
fn teardown_of_fresh_state_releases_only_the_context() {
    let kb = KbState::new(5);
    assert_eq!(kb.teardown(), vec![EngineCommand::ReleaseContext { context: 5 }]);
}

#[test]
fn aborted_load_releases_the_dangling_keymap() {
    let mut kb = KbState::new(1);
    let out = kb.on_keymap(KeymapFormat::XkbV1);
    assert!(matches!(out.step, Step::Query(EngineQuery::CompileKeymapFromBytes)));
    let out = kb.resume(EngineReply::Keymap { handle: Some(10) });
    assert!(matches!(out.step, Step::Query(EngineQuery::CreateState { .. })));
    // An answer that does not fit the session: the half-installed keymap
    // is released and the machine is back to rest.
    let out = kb.resume(EngineReply::Sym { keysym: 1 });
    assert_eq!(out.commands, vec![EngineCommand::ReleaseKeymap { keymap: 10 }]);
    assert!(matches!(out.step, Step::Done(SessionResult::Quiet)));
    assert!(!kb.ready());
}

#[test]
fn reply_while_no_session_is_in_flight_is_ignored() {
    let mut kb = KbState::new(1);
    let out = kb.resume(EngineReply::Sym { keysym: 42 });
    assert!(out.commands.is_empty());
    assert!(matches!(out.step, Step::Done(SessionResult::Quiet)));
    assert!(!kb.ready());
}

#[test]
fn compose_init_on_a_state_with_a_session_keeps_it() {
    let mut kb = KbState::new(1);
    let out = kb.begin_compose_init();
    assert_eq!(out.step, Step::Query(EngineQuery::CreateComposeTable { context: 1 }));
    let out = kb.resume(EngineReply::ComposeHandle { handle: Some(30) });
    assert!(matches!(out.step, Step::Query(EngineQuery::CreateComposeState { .. })));
    let out = kb.resume(EngineReply::ComposeHandle { handle: Some(40) });
    assert!(matches!(out.step, Step::Done(SessionResult::Quiet)));
    // A second initialization asks the engine for nothing.
    let out = kb.begin_compose_init();
    assert!(out.commands.is_empty());
    assert!(matches!(out.step, Step::Done(SessionResult::Quiet)));
    // The session built first is the one torn down.
    let commands = kb.teardown();
    assert_eq!(
        commands,
        vec![
            EngineCommand::ReleaseComposeState { compose: 40 },
            EngineCommand::ReleaseComposeTable { table: 30 },
            EngineCommand::ReleaseContext { context: 1 },
        ]
    );
}

#[test]
fn locale_prefers_lc_all_then_lc_ctype_then_lang() {
    let de = b"de_DE.UTF-8".to_vec();
    let fr = b"fr_FR.UTF-8".to_vec();
    let en = b"en_US.UTF-8".to_vec();
    assert_eq!(
        choose_locale(Some(de.clone()), Some(fr.clone()), Some(en.clone())),
        de
    );
    assert_eq!(choose_locale(None, Some(fr.clone()), Some(en.clone())), fr);
    assert_eq!(choose_locale(None, None, Some(en.clone())), en);
    assert_eq!(choose_locale(None, None, None), b"C".to_vec());
}

#[test]
fn parameter_strings_with_nul_bytes_are_rejected() {
    assert!(name_ok(&None));
    assert!(name_ok(&Some(String::from("pc104"))));
    assert!(!name_ok(&Some(String::from("pc\u{0}104"))));
}
