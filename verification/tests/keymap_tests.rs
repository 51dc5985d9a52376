use rustmission_core::action::{event_to_action, keycode_to_action, Action, Event, Mode};
use rustmission_core::catalog::{GeneralAction, TorrentsAction, UserAction};
use rustmission_core::keymap::{
    legend, ConfigError, FieldName, KeymapConfig, Keybinding, RawDocument, RawEntry, RawField,
    parse_key_token,
};
use rustmission_core::keys::{KeyCode, KeyEvent, KeyModifier};

fn entry(fields: Vec<RawField>) -> RawEntry {
    RawEntry { fields }
}

fn binding(on: &str, modifier: Option<KeyModifier>, action: &str) -> RawEntry {
    let mut fields = vec![RawField::On(on.to_string())];
    if let Some(m) = modifier {
        fields.push(RawField::Modifier(m));
    }
    fields.push(RawField::Action(action.to_string()));
    entry(fields)
}

fn doc(general: Vec<RawEntry>, torrents_tab: Vec<RawEntry>) -> RawDocument {
    RawDocument { general, torrents_tab }
}

#[test]
fn single_char_token_parses_to_char_key() {
    assert_eq!(parse_key_token("q"), Ok(KeyCode::Char('q')));
    assert_eq!(parse_key_token("?"), Ok(KeyCode::Char('?')));
    assert_eq!(parse_key_token("F"), Ok(KeyCode::Char('F')));
}

#[test]
fn single_char_chord_displays_as_that_char() {
    for c in ['a', 'z', '?', '/', '7'] {
        let token = c.to_string();
        let code = parse_key_token(&token).unwrap();
        let b = Keybinding::new(code, GeneralAction::Down, None);
        assert_eq!(b.keycode_string(), token);
    }
}

#[test]
fn function_key_tokens_parse_with_same_index() {
    assert_eq!(parse_key_token("F1"), Ok(KeyCode::F(1)));
    assert_eq!(parse_key_token("F9"), Ok(KeyCode::F(9)));
    assert_eq!(parse_key_token("F10"), Ok(KeyCode::F(10)));
    assert_eq!(parse_key_token("F99"), Ok(KeyCode::F(99)));
    // Short decimal parsing follows the standard integer parser: a
    // leading zero or an explicit plus sign is accepted.
    assert_eq!(parse_key_token("F0"), Ok(KeyCode::F(0)));
    assert_eq!(parse_key_token("F00"), Ok(KeyCode::F(0)));
    assert_eq!(parse_key_token("F+5"), Ok(KeyCode::F(5)));
}

#[test]
fn function_key_bad_suffix_is_invalid_key_spec() {
    assert_eq!(parse_key_token("Fx"), Err(ConfigError::InvalidKeySpec));
    assert_eq!(parse_key_token("F1x"), Err(ConfigError::InvalidKeySpec));
    assert_eq!(parse_key_token("F-1"), Err(ConfigError::InvalidKeySpec));
}

#[test]
fn named_tokens_parse_case_insensitively() {
    assert_eq!(parse_key_token("enter"), Ok(KeyCode::Enter));
    assert_eq!(parse_key_token("ENTER"), Ok(KeyCode::Enter));
    assert_eq!(parse_key_token("Esc"), Ok(KeyCode::Esc));
    assert_eq!(parse_key_token("up"), Ok(KeyCode::Up));
    assert_eq!(parse_key_token("down"), Ok(KeyCode::Down));
    assert_eq!(parse_key_token("left"), Ok(KeyCode::Left));
    assert_eq!(parse_key_token("right"), Ok(KeyCode::Right));
    assert_eq!(parse_key_token("home"), Ok(KeyCode::Home));
    assert_eq!(parse_key_token("end"), Ok(KeyCode::End));
    assert_eq!(parse_key_token("PageUp"), Ok(KeyCode::PageUp));
    assert_eq!(parse_key_token("pagedown"), Ok(KeyCode::PageDown));
    assert_eq!(parse_key_token("tab"), Ok(KeyCode::Tab));
    assert_eq!(parse_key_token("backspace"), Ok(KeyCode::Backspace));
    assert_eq!(parse_key_token("delete"), Ok(KeyCode::Delete));
}

#[test]
fn unknown_token_is_rejected() {
    assert_eq!(parse_key_token("middleclick"), Err(ConfigError::UnknownKeyToken));
    assert_eq!(parse_key_token("enterr"), Err(ConfigError::UnknownKeyToken));
}

#[test]
fn display_uses_modifier_prefix() {
    let plain = Keybinding::new(KeyCode::Enter, GeneralAction::Confirm, None);
    assert_eq!(plain.keycode_string(), "Enter");
    let ctrl = Keybinding::new(KeyCode::Enter, GeneralAction::Confirm, Some(KeyModifier::Ctrl));
    assert_eq!(ctrl.keycode_string(), "CTRL-Enter");
    let shift = Keybinding::new(KeyCode::Char('k'), GeneralAction::Up, Some(KeyModifier::Shift));
    assert_eq!(shift.keycode_string(), "SHIFT-k");
    let fkey = Keybinding::new(KeyCode::F(12), GeneralAction::ShowHelp, None);
    assert_eq!(fkey.keycode_string(), "F12");
}

#[test]
fn duplicate_field_within_one_entry_is_rejected() {
    let e = entry(vec![
        RawField::On("q".to_string()),
        RawField::On("k".to_string()),
        RawField::Action("Quit".to_string()),
    ]);
    let d = doc(vec![e], vec![]);
    assert_eq!(
        KeymapConfig::build(&d).err(),
        Some(ConfigError::DuplicateField(FieldName::On))
    );

    let e = entry(vec![
        RawField::On("q".to_string()),
        RawField::Modifier(KeyModifier::Ctrl),
        RawField::Modifier(KeyModifier::Shift),
        RawField::Action("Quit".to_string()),
    ]);
    let d = doc(vec![e], vec![]);
    assert_eq!(
        KeymapConfig::build(&d).err(),
        Some(ConfigError::DuplicateField(FieldName::Modifier))
    );
}

#[test]
fn errors_surface_in_field_order() {
    // The bad key token stands before the duplicated action field, so
    // it is the error reported.
    let e = entry(vec![
        RawField::On("zzz".to_string()),
        RawField::Action("Quit".to_string()),
        RawField::Action("Quit".to_string()),
    ]);
    let d = doc(vec![e], vec![]);
    assert_eq!(KeymapConfig::build(&d).err(), Some(ConfigError::UnknownKeyToken));
}

#[test]
fn missing_required_fields_are_rejected() {
    let d = doc(vec![entry(vec![RawField::Action("Quit".to_string())])], vec![]);
    assert_eq!(
        KeymapConfig::build(&d).err(),
        Some(ConfigError::MissingField(FieldName::On))
    );
    let d = doc(vec![entry(vec![RawField::On("q".to_string())])], vec![]);
    assert_eq!(
        KeymapConfig::build(&d).err(),
        Some(ConfigError::MissingField(FieldName::Action))
    );
}

#[test]
fn unknown_action_name_is_rejected() {
    let d = doc(vec![binding("q", None, "Vanish")], vec![]);
    assert_eq!(KeymapConfig::build(&d).err(), Some(ConfigError::UnknownAction));
    // A torrents-tab name is not part of the general catalog.
    let d = doc(vec![binding("q", None, "AddMagnet")], vec![]);
    assert_eq!(KeymapConfig::build(&d).err(), Some(ConfigError::UnknownAction));
}

#[test]
fn missing_modifier_defaults_to_plain() {
    let d = doc(vec![binding("q", None, "Quit")], vec![]);
    let config = KeymapConfig::build(&d).unwrap();
    assert_eq!(config.general.keybindings[0].modifier, KeyModifier::Plain);
    assert_eq!(config.general.keybindings[0].on, KeyCode::Char('q'));
}

#[test]
fn same_chord_twice_in_one_context_is_not_an_error_and_later_wins() {
    let d = doc(
        vec![
            binding("x", None, "Quit"),
            binding("x", None, "Search"),
        ],
        vec![],
    );
    let config = KeymapConfig::build(&d).expect("collisions across entries are allowed");
    let map = config.to_map();
    assert_eq!(
        map.get(KeyCode::Char('x'), KeyModifier::Plain),
        Some(Action::Search)
    );
}

#[test]
fn later_context_overrides_earlier_on_same_chord() {
    let d = doc(
        vec![binding("x", None, "Quit")],
        vec![binding("x", None, "Pause")],
    );
    let map = KeymapConfig::build(&d).unwrap().to_map();
    assert_eq!(
        map.get(KeyCode::Char('x'), KeyModifier::Plain),
        Some(Action::Pause)
    );
}

#[test]
fn distinct_modifiers_are_distinct_chords() {
    let d = doc(
        vec![
            binding("x", None, "Quit"),
            binding("x", Some(KeyModifier::Ctrl), "Search"),
        ],
        vec![],
    );
    let map = KeymapConfig::build(&d).unwrap().to_map();
    assert_eq!(map.get(KeyCode::Char('x'), KeyModifier::Plain), Some(Action::Quit));
    assert_eq!(map.get(KeyCode::Char('x'), KeyModifier::Ctrl), Some(Action::Search));
    assert_eq!(map.get(KeyCode::Char('x'), KeyModifier::Shift), None);
}

#[test]
fn resolver_uses_configured_binding_for_j() {
    // Without an override, `j` falls back to moving down.
    let empty = doc(vec![], vec![]);
    let map = KeymapConfig::build(&empty).unwrap().to_map();
    let j = KeyEvent { code: KeyCode::Char('j'), modifier: KeyModifier::Plain };
    assert_eq!(event_to_action(Mode::Normal, Event::Key(j), &map), Some(Action::Down));

    // With an override, the configured action wins.
    let d = doc(vec![binding("j", None, "Search")], vec![]);
    let map = KeymapConfig::build(&d).unwrap().to_map();
    assert_eq!(event_to_action(Mode::Normal, Event::Key(j), &map), Some(Action::Search));
}

#[test]
fn configured_delete_binding_resolves_end_to_end() {
    let d = doc(vec![], vec![binding("d", None, "DeleteWithoutFiles")]);
    let map = KeymapConfig::build(&d).unwrap().to_map();
    let key = KeyEvent { code: KeyCode::Char('d'), modifier: KeyModifier::Plain };
    assert_eq!(
        event_to_action(Mode::Normal, Event::Key(key), &map),
        Some(Action::DeleteWithoutFiles)
    );
}

#[test]
fn system_events_resolve_regardless_of_mode() {
    let map = KeymapConfig::build(&doc(vec![], vec![])).unwrap().to_map();
    assert_eq!(event_to_action(Mode::Input, Event::Quit, &map), Some(Action::Quit));
    assert_eq!(event_to_action(Mode::Normal, Event::Quit, &map), Some(Action::Quit));
    assert_eq!(event_to_action(Mode::Input, Event::Render, &map), Some(Action::Render));
    assert_eq!(event_to_action(Mode::Normal, Event::Render, &map), Some(Action::Render));
}

#[test]
fn input_mode_forwards_key_events_verbatim() {
    let map = KeymapConfig::build(&doc(vec![], vec![])).unwrap().to_map();
    let key = KeyEvent { code: KeyCode::Char('d'), modifier: KeyModifier::Ctrl };
    assert_eq!(event_to_action(Mode::Input, Event::Key(key), &map), Some(Action::Input(key)));
}

#[test]
fn unbound_key_in_normal_mode_is_dropped() {
    let map = KeymapConfig::build(&doc(vec![], vec![])).unwrap().to_map();
    let key = KeyEvent { code: KeyCode::Char('z'), modifier: KeyModifier::Plain };
    assert_eq!(event_to_action(Mode::Normal, Event::Key(key), &map), None);
}

#[test]
fn reserved_bindings_survive_configuration() {
    // Even with `enter` bound in the configuration, enter still confirms.
    let d = doc(vec![binding("enter", None, "ShowHelp")], vec![]);
    let map = KeymapConfig::build(&d).unwrap().to_map();
    let enter = KeyEvent { code: KeyCode::Enter, modifier: KeyModifier::Plain };
    assert_eq!(event_to_action(Mode::Normal, Event::Key(enter), &map), Some(Action::Confirm));
    let tab = KeyEvent { code: KeyCode::Tab, modifier: KeyModifier::Plain };
    assert_eq!(event_to_action(Mode::Normal, Event::Key(tab), &map), Some(Action::ChangeFocus));
    let three = KeyEvent { code: KeyCode::Char('3'), modifier: KeyModifier::Plain };
    assert_eq!(event_to_action(Mode::Normal, Event::Key(three), &map), Some(Action::ChangeTab(3)));
}

#[test]
fn fallback_table_matches_fixed_defaults() {
    let cases = [
        ('k', Action::Up),
        ('q', Action::Quit),
        ('?', Action::ShowHelp),
        ('t', Action::ShowStats),
        ('f', Action::ShowFiles),
        ('/', Action::Search),
        ('a', Action::AddMagnet),
        ('p', Action::Pause),
        ('D', Action::DeleteWithFiles),
        (' ', Action::Space),
    ];
    for (c, expected) in cases {
        let key = KeyEvent { code: KeyCode::Char(c), modifier: KeyModifier::Plain };
        assert_eq!(keycode_to_action(key), Some(expected));
    }
    let up = KeyEvent { code: KeyCode::Up, modifier: KeyModifier::Plain };
    assert_eq!(keycode_to_action(up), Some(Action::Up));
}

#[test]
fn legend_lists_display_and_description_in_order() {
    let d = doc(
        vec![binding("q", None, "Quit"), binding("down", Some(KeyModifier::Ctrl), "Down")],
        vec![binding("t", None, "ShowStats")],
    );
    let config = KeymapConfig::build(&d).unwrap();
    let general_legend = legend(&config.general.keybindings);
    assert_eq!(general_legend.len(), 2);
    assert_eq!(general_legend[0].0, "q");
    assert_eq!(general_legend[0].1, "quit Rustmission / a popup");
    assert_eq!(general_legend[1].0, "CTRL-\u{f063}");
    assert_eq!(general_legend[1].1, "move down");
    let torrents_legend = legend(&config.torrents_tab.keybindings);
    assert_eq!(torrents_legend[0].1, "show statistics");
}

#[test]
fn catalog_maps_and_describes_every_variant() {
    assert_eq!(GeneralAction::Down.to_action(), Action::Down);
    assert_eq!(GeneralAction::SwitchToTorrents.to_action(), Action::ChangeTab(1));
    assert_eq!(GeneralAction::SwitchToSearch.to_action(), Action::ChangeTab(2));
    assert_eq!(GeneralAction::GoToBeginning.to_action(), Action::Home);
    assert_eq!(TorrentsAction::Pause.to_action(), Action::Pause);
    assert_eq!(TorrentsAction::ShowStats.to_action(), Action::ShowStats);
    assert_eq!(GeneralAction::Down.desc(), "move down");
    assert_eq!(TorrentsAction::AddMagnet.desc(), "add a magnet");
    assert_eq!(GeneralAction::from_name("ScrollPageUp"), Some(GeneralAction::ScrollPageUp));
    assert_eq!(GeneralAction::from_name("scrollpageup"), None);
    assert_eq!(TorrentsAction::from_name("DeleteWithFiles"), Some(TorrentsAction::DeleteWithFiles));
}

#[test]
fn modifier_helpers_match_display_rules() {
    assert_eq!(KeyModifier::Plain.to_str(), "");
    assert_eq!(KeyModifier::Ctrl.to_str(), "CTRL");
    assert_eq!(KeyModifier::Shift.to_str(), "SHIFT");
    assert!(KeyModifier::Plain.is_none());
    assert!(!KeyModifier::Ctrl.is_none());
    assert_eq!(KeyModifier::default(), KeyModifier::Plain);
}

#[test]
fn is_render_recognizes_only_render() {
    assert!(Action::Render.is_render());
    assert!(!Action::Quit.is_render());
}
