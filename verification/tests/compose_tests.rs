use mapped_keyboard::engine::{EngineCommand, EngineQuery, EngineReply};
use mapped_keyboard::events::{Event, SessionResult, Step};
use mapped_keyboard::state::KbState;
use mapped_keyboard::types::{
    ComposeFeedResult, ComposeStatus, KeyState, KeymapFormat, MappedKeyboardError,
    ModifierActivation, RMLVO,
};

fn no_mods() -> ModifierActivation {
    ModifierActivation {
        ctrl: false,
        alt: false,
        shift: false,
        caps_lock: false,
        logo: false,
        num_lock: false,
    }
}

fn load_keymap(kb: &mut KbState, keymap: u64, state: u64) {
    let out = kb.on_keymap(KeymapFormat::XkbV1);
    assert!(matches!(out.step, Step::Query(EngineQuery::CompileKeymapFromBytes)));
    let out = kb.resume(EngineReply::Keymap { handle: Some(keymap) });
    assert_eq!(out.step, Step::Query(EngineQuery::CreateState { keymap }));
    let out = kb.resume(EngineReply::State { handle: state });
    assert_eq!(out.step, Step::Query(EngineQuery::QueryModifiers { state }));
    let out = kb.resume(EngineReply::Modifiers { active: no_mods() });
    assert!(matches!(out.step, Step::Done(SessionResult::Quiet)));
}

fn init_compose(kb: &mut KbState, table: u64, compose: u64) {
    let out = kb.begin_compose_init();
    assert!(matches!(out.step, Step::Query(EngineQuery::CreateComposeTable { .. })));
    let out = kb.resume(EngineReply::ComposeHandle { handle: Some(table) });
    assert_eq!(out.step, Step::Query(EngineQuery::CreateComposeState { table }));
    let out = kb.resume(EngineReply::ComposeHandle { handle: Some(compose) });
    assert!(matches!(out.step, Step::Done(SessionResult::Quiet)));
}

/// Press a key and answer the keysym query; returns the step that
/// follows the sym resolution.
fn press(kb: &mut KbState, rawkey: u32, keysym: u32) -> Step {
    let out = kb.on_key(1, 2, rawkey, KeyState::Pressed);
    assert_eq!(
        out.step,
        Step::Query(EngineQuery::KeyGetOneSym { state: 20, keycode: rawkey + 8 })
    );
    kb.resume(EngineReply::Sym { keysym }).step
}

fn expect_key_text(step: Step, expected: Option<Vec<u8>>) {
    match step {
        Step::Done(SessionResult::Event(Event::Key { utf8, .. })) => assert_eq!(utf8, expected),
        other => panic!("unexpected step: {:?}", other),
    }
}

#[test]
fn compose_sequence_composes_cancels_and_falls_back() {
    let mut kb = KbState::new(1);
    load_keymap(&mut kb, 10, 20);
    init_compose(&mut kb, 30, 40);

    // Feed the first symbol of a known sequence: accepted, composing,
    // no text for this event.
    let step = press(&mut kb, 30, 0xFE51);  // a dead accent
    assert_eq!(step, Step::Query(EngineQuery::ComposeFeed { compose: 40, keysym: 0xFE51 }));
    let step = kb.resume(EngineReply::Feed { result: ComposeFeedResult::Accepted }).step;
    assert_eq!(step, Step::Query(EngineQuery::GetComposeStatus { compose: 40 }));
    let step = kb.resume(EngineReply::Status { status: ComposeStatus::Composing }).step;
    expect_key_text(step, None);

    // Feed the completing symbol: composed; the text is fetched in two
    // phases and reported with the terminator stripped.
    let step = press(&mut kb, 31, 0x65);  // letter e
    assert!(matches!(step, Step::Query(EngineQuery::ComposeFeed { .. })));
    let step = kb.resume(EngineReply::Feed { result: ComposeFeedResult::Accepted }).step;
    assert!(matches!(step, Step::Query(EngineQuery::GetComposeStatus { .. })));
    let step = kb.resume(EngineReply::Status { status: ComposeStatus::Composed }).step;
    assert_eq!(step, Step::Query(EngineQuery::ComposeUtf8Size { compose: 40 }));
    let step = kb.resume(EngineReply::Size { size: 3 }).step;
    assert_eq!(step, Step::Query(EngineQuery::ComposeUtf8Fill { compose: 40, size: 3 }));
    let step = kb.resume(EngineReply::Bytes { bytes: vec![0xC3, 0xA9, 0] }).step;
    expect_key_text(step, Some(vec![0xC3, 0xA9]));  // é

    // An unrelated symbol after a partial sequence: cancelled, no text.
    let step = press(&mut kb, 30, 0xFE51);
    assert!(matches!(step, Step::Query(EngineQuery::ComposeFeed { .. })));
    let step = kb.resume(EngineReply::Feed { result: ComposeFeedResult::Accepted }).step;
    let step = kb.resume(EngineReply::Status { status: ComposeStatus::Composing }).step;
    expect_key_text(step, None);
    let step = press(&mut kb, 32, 0x63);  // unrelated letter c
    let step = match step {
        Step::Query(EngineQuery::ComposeFeed { .. }) => {
            kb.resume(EngineReply::Feed { result: ComposeFeedResult::Accepted }).step
        }
        other => panic!("unexpected step: {:?}", other),
    };
    let step = match step {
        Step::Query(EngineQuery::GetComposeStatus { .. }) => {
            kb.resume(EngineReply::Status { status: ComposeStatus::Cancelled }).step
        }
        other => panic!("unexpected step: {:?}", other),
    };
    expect_key_text(step, None);

    // Resolving the same keycode directly afterwards yields its plain
    // text: the sequence is over, the feed is not accepted, and the
    // machine falls back to the two-phase direct query.
    let step = press(&mut kb, 32, 0x63);
    assert!(matches!(step, Step::Query(EngineQuery::ComposeFeed { .. })));
    let step = kb.resume(EngineReply::Feed { result: ComposeFeedResult::Ignored }).step;
    assert_eq!(
        step,
        Step::Query(EngineQuery::KeyGetUtf8Size { state: 20, keycode: 40 })
    );
    let step = kb.resume(EngineReply::Size { size: 2 }).step;
    assert_eq!(
        step,
        Step::Query(EngineQuery::KeyGetUtf8Fill { state: 20, keycode: 40, size: 2 })
    );
    let step = kb.resume(EngineReply::Bytes { bytes: vec![0x63, 0] }).step;
    expect_key_text(step, Some(vec![0x63]));
}

#[test]
fn compose_status_nothing_falls_back_to_direct_resolution() {
    let mut kb = KbState::new(1);
    load_keymap(&mut kb, 10, 20);
    init_compose(&mut kb, 30, 40);
    let step = press(&mut kb, 30, 0x61);
    assert!(matches!(step, Step::Query(EngineQuery::ComposeFeed { .. })));
    let step = kb.resume(EngineReply::Feed { result: ComposeFeedResult::Accepted }).step;
    let step = match step {
        Step::Query(EngineQuery::GetComposeStatus { .. }) => {
            kb.resume(EngineReply::Status { status: ComposeStatus::Nothing }).step
        }
        other => panic!("unexpected step: {:?}", other),
    };
    assert_eq!(
        step,
        Step::Query(EngineQuery::KeyGetUtf8Size { state: 20, keycode: 38 })
    );
}

#[test]
fn two_phase_query_fills_exactly_the_reported_size() {
    let mut kb = KbState::new(1);
    load_keymap(&mut kb, 10, 20);
    // No compose session: a press goes straight to the two-phase query.
    let step = press(&mut kb, 30, 0x61);
    assert_eq!(
        step,
        Step::Query(EngineQuery::KeyGetUtf8Size { state: 20, keycode: 38 })
    );
    // The engine reports 5 bytes including the terminator: the fill
    // query asks for a buffer of exactly 5 bytes.
    let step = kb.resume(EngineReply::Size { size: 5 }).step;
    match step {
        Step::Query(EngineQuery::KeyGetUtf8Fill { state, keycode, size }) => {
            assert_eq!(state, 20);
            assert_eq!(keycode, 38);
            assert_eq!(size, 5);
        }
        other => panic!("unexpected step: {:?}", other),
    }
    // The reported text is the fill result with the final byte stripped.
    let step = kb.resume(EngineReply::Bytes { bytes: vec![1, 2, 3, 4, 0] }).step;
    expect_key_text(step, Some(vec![1, 2, 3, 4]));
}

#[test]
fn two_phase_query_with_size_at_most_one_yields_no_text() {
    let mut kb = KbState::new(1);
    load_keymap(&mut kb, 10, 20);
    let step = press(&mut kb, 30, 0x61);
    assert!(matches!(step, Step::Query(EngineQuery::KeyGetUtf8Size { .. })));
    let step = kb.resume(EngineReply::Size { size: 1 }).step;
    expect_key_text(step, None);

    let step = press(&mut kb, 30, 0x61);
    assert!(matches!(step, Step::Query(EngineQuery::KeyGetUtf8Size { .. })));
    let step = kb.resume(EngineReply::Size { size: 0 }).step;
    expect_key_text(step, None);
}

#[test]
fn failed_compose_table_leaves_compose_disabled() {
    let mut kb = KbState::new(1);
    load_keymap(&mut kb, 10, 20);
    let out = kb.begin_compose_init();
    assert!(matches!(out.step, Step::Query(EngineQuery::CreateComposeTable { .. })));
    let out = kb.resume(EngineReply::ComposeHandle { handle: None });
    assert!(out.commands.is_empty());
    assert!(matches!(out.step, Step::Done(SessionResult::Quiet)));
    // Text input stays fully functional through direct resolution.
    let step = press(&mut kb, 30, 0x61);
    assert_eq!(
        step,
        Step::Query(EngineQuery::KeyGetUtf8Size { state: 20, keycode: 38 })
    );
}

#[test]
fn failed_compose_state_releases_the_table() {
    let mut kb = KbState::new(1);
    load_keymap(&mut kb, 10, 20);
    let out = kb.begin_compose_init();
    assert!(matches!(out.step, Step::Query(EngineQuery::CreateComposeTable { .. })));
    let out = kb.resume(EngineReply::ComposeHandle { handle: Some(30) });
    assert!(matches!(out.step, Step::Query(EngineQuery::CreateComposeState { .. })));
    let out = kb.resume(EngineReply::ComposeHandle { handle: None });
    assert_eq!(out.commands, vec![EngineCommand::ReleaseComposeTable { table: 30 }]);
    assert!(matches!(out.step, Step::Done(SessionResult::Quiet)));
}

#[test]
fn names_with_all_defaults_succeed_and_lock_the_state() {
    let mut kb = KbState::new(1);
    let rmlvo = RMLVO { rules: None, model: None, layout: None, variant: None, options: None };
    let out = kb.load_from_names(&rmlvo);
    assert_eq!(out.step, Step::Query(EngineQuery::CompileKeymapFromNames));
    let out = kb.resume(EngineReply::Keymap { handle: Some(10) });
    assert_eq!(out.step, Step::Query(EngineQuery::CreateState { keymap: 10 }));
    let out = kb.resume(EngineReply::State { handle: 20 });
    assert!(matches!(out.step, Step::Query(EngineQuery::QueryModifiers { .. })));
    let out = kb.resume(EngineReply::Modifiers { active: no_mods() });
    assert!(matches!(out.step, Step::Done(SessionResult::Quiet)));
    assert!(kb.ready());
    assert!(kb.is_locked());
    // A locked state ignores compositor keymaps.
    let out = kb.on_keymap(KeymapFormat::XkbV1);
    assert!(out.commands.is_empty());
    assert!(matches!(out.step, Step::Done(SessionResult::Quiet)));
    assert!(kb.ready());
}

#[test]
fn unresolvable_names_fail_and_leave_the_loaded_keymap_untouched() {
    let mut kb = KbState::new(1);
    load_keymap(&mut kb, 10, 20);
    let rmlvo = RMLVO {
        rules: None,
        model: None,
        layout: Some(String::from("nonexistent")),
        variant: None,
        options: None,
    };
    let out = kb.load_from_names(&rmlvo);
    assert_eq!(out.step, Step::Query(EngineQuery::CompileKeymapFromNames));
    let out = kb.resume(EngineReply::Keymap { handle: None });
    assert!(out.commands.is_empty());
    assert_eq!(
        out.step,
        Step::Done(SessionResult::Failed(MappedKeyboardError::BadNames))
    );
    assert!(kb.ready());
    assert!(!kb.is_locked());
    // The previously loaded pair still answers key events.
    let out = kb.on_key(1, 2, 30, KeyState::Released);
    assert_eq!(
        out.step,
        Step::Query(EngineQuery::KeyGetOneSym { state: 20, keycode: 38 })
    );
}

#[test]
fn names_with_embedded_nul_are_rejected_without_an_engine_call() {
    let mut kb = KbState::new(1);
    let rmlvo = RMLVO {
        rules: None,
        model: None,
        layout: None,
        variant: None,
        options: Some(String::from("grp:alt\u{0}shift_toggle")),
    };
    let out = kb.load_from_names(&rmlvo);
    assert!(out.commands.is_empty());
    assert_eq!(
        out.step,
        Step::Done(SessionResult::Failed(MappedKeyboardError::InvalidParameter))
    );
    assert!(!kb.ready());
}
