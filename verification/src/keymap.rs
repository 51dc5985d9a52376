//! The keybinding registry: parses a configuration document's entries into
//! chord-to-action bindings per context, validates them, and compiles them
//! into one lookup map. Later contexts override earlier ones on collision.

use vstd::prelude::*;

use crate::action::Action;
use crate::action_map::CompiledActionMap;
use crate::catalog::{GeneralAction, TorrentsAction, UserAction};
use crate::keys::{KeyCode, KeyModifier};
use crate::text::{
    digit_char, digits_spec, eq_ignore_ascii_case, lower_spec, parse_short_u8, parse_short_u8_spec,
    push_char, push_digits,
};

verus! {

/// The fields a keybinding entry may carry.
#[derive(Clone, Copy, Debug, PartialEq, Eq, Structural)]
pub enum FieldName {
    On,
    Modifier,
    Action,
}

/// Why a configuration document was rejected at registry construction.
#[derive(Clone, Copy, Debug, PartialEq, Eq, Structural)]
pub enum ConfigError {
    /// A function-key token whose suffix is not a short decimal number.
    InvalidKeySpec,
    /// A literal key token outside the known set.
    UnknownKeyToken,
    /// A field given twice within a single entry.
    DuplicateField(FieldName),
    /// A required field absent from an entry.
    MissingField(FieldName),
    /// An action name outside the context's catalog.
    UnknownAction,
}

/// One field of one entry, as the structured-configuration layer hands it
/// over: duplicates are preserved so that validation can reject them.
#[derive(Clone, Debug)]
pub enum RawField {
    On(String),
    Modifier(KeyModifier),
    Action(String),
}

/// One keybinding entry of the document: its fields in document order.
#[derive(Clone, Debug)]
pub struct RawEntry {
    pub fields: Vec<RawField>,
}

/// The whole document: one entry list per context, contexts in merge order.
#[derive(Clone, Debug)]
pub struct RawDocument {
    pub general: Vec<RawEntry>,
    pub torrents_tab: Vec<RawEntry>,
}

/// What a key token denotes. A single character stands for itself; `F`
/// followed by one or two characters names a function key if the suffix
/// reads as a short decimal number; the remaining tokens are matched
/// case-insensitively against the named keys.
pub open spec fn parse_key_token_spec(t: Seq<char>) -> Result<KeyCode, ConfigError> {
    if t.len() == 1 {
        Ok(KeyCode::Char(t[0]))
    } else if (t.len() == 2 || t.len() == 3) && t[0] == 'F' {
        match parse_short_u8_spec(t.skip(1)) {
            Some(n) => Ok(KeyCode::F(n)),
            None => Err(ConfigError::InvalidKeySpec),
        }
    } else if lower_spec(t) == "enter"@ {
        Ok(KeyCode::Enter)
    } else if lower_spec(t) == "esc"@ {
        Ok(KeyCode::Esc)
    } else if lower_spec(t) == "up"@ {
        Ok(KeyCode::Up)
    } else if lower_spec(t) == "down"@ {
        Ok(KeyCode::Down)
    } else if lower_spec(t) == "left"@ {
        Ok(KeyCode::Left)
    } else if lower_spec(t) == "right"@ {
        Ok(KeyCode::Right)
    } else if lower_spec(t) == "home"@ {
        Ok(KeyCode::Home)
    } else if lower_spec(t) == "end"@ {
        Ok(KeyCode::End)
    } else if lower_spec(t) == "pageup"@ {
        Ok(KeyCode::PageUp)
    } else if lower_spec(t) == "pagedown"@ {
        Ok(KeyCode::PageDown)
    } else if lower_spec(t) == "tab"@ {
        Ok(KeyCode::Tab)
    } else if lower_spec(t) == "backspace"@ {
        Ok(KeyCode::Backspace)
    } else if lower_spec(t) == "delete"@ {
        Ok(KeyCode::Delete)
    } else {
        Err(ConfigError::UnknownKeyToken)
    }
}

/// Parses one key token of the configuration document.
pub fn parse_key_token(token: &str) -> (r: Result<KeyCode, ConfigError>)
    ensures
        r == parse_key_token_spec(token@),
{
    let n = token.unicode_len();
    if n == 1 {
        return Ok(KeyCode::Char(token.get_char(0)));
    }
    if (n == 2 || n == 3) && token.get_char(0) == 'F' {
        let suffix = token.substring_char(1, n);
        proof {
            assert(suffix@ =~= token@.skip(1));
        }
        return match parse_short_u8(suffix) {
            Some(i) => Ok(KeyCode::F(i)),
            None => Err(ConfigError::InvalidKeySpec),
        };
    }
    if eq_ignore_ascii_case(token, "enter") {
        Ok(KeyCode::Enter)
    } else if eq_ignore_ascii_case(token, "esc") {
        Ok(KeyCode::Esc)
    } else if eq_ignore_ascii_case(token, "up") {
        Ok(KeyCode::Up)
    } else if eq_ignore_ascii_case(token, "down") {
        Ok(KeyCode::Down)
    } else if eq_ignore_ascii_case(token, "left") {
        Ok(KeyCode::Left)
    } else if eq_ignore_ascii_case(token, "right") {
        Ok(KeyCode::Right)
    } else if eq_ignore_ascii_case(token, "home") {
        Ok(KeyCode::Home)
    } else if eq_ignore_ascii_case(token, "end") {
        Ok(KeyCode::End)
    } else if eq_ignore_ascii_case(token, "pageup") {
        Ok(KeyCode::PageUp)
    } else if eq_ignore_ascii_case(token, "pagedown") {
        Ok(KeyCode::PageDown)
    } else if eq_ignore_ascii_case(token, "tab") {
        Ok(KeyCode::Tab)
    } else if eq_ignore_ascii_case(token, "backspace") {
        Ok(KeyCode::Backspace)
    } else if eq_ignore_ascii_case(token, "delete") {
        Ok(KeyCode::Delete)
    } else {
        Err(ConfigError::UnknownKeyToken)
    }
}

/// One chord bound to one catalog entry.
#[derive(Clone, Copy, Debug)]
pub struct Keybinding<T> {
    pub on: KeyCode,
    pub modifier: KeyModifier,
    pub action: T,
}

/// The name of a key as the help legend shows it: named keys by their
/// word, arrows by a glyph, function keys as `F` plus the index.
pub open spec fn key_name_spec(on: KeyCode) -> Seq<char> {
    match on {
        KeyCode::Backspace => "Backspace"@,
        KeyCode::Enter => "Enter"@,
        KeyCode::Left => "\u{f060}"@,
        KeyCode::Right => "\u{f061}"@,
        KeyCode::Up => "\u{f062}"@,
        KeyCode::Down => "\u{f063}"@,
        KeyCode::Home => "Home"@,
        KeyCode::End => "End"@,
        KeyCode::PageUp => "PageUp"@,
        KeyCode::PageDown => "PageDown"@,
        KeyCode::Tab => "Tab"@,
        KeyCode::Delete => "Delete"@,
        KeyCode::Esc => "Esc"@,
        KeyCode::F(i) => "F"@ + digits_spec(i as int),
        KeyCode::Char(c) => seq![c],
    }
}

/// The display string of a chord: the key name alone for a plain chord,
/// otherwise the modifier, a dash, and the key name.
pub open spec fn display_spec(on: KeyCode, modifier: KeyModifier) -> Seq<char> {
    if modifier == KeyModifier::Plain {
        key_name_spec(on)
    } else {
        modifier.to_str_spec() + "-"@ + key_name_spec(on)
    }
}

impl<T> Keybinding<T> {
    pub fn new(on: KeyCode, action: T, modifier: Option<KeyModifier>) -> (r: Self)
        ensures
            r.on == on,
            r.action == action,
            r.modifier == (match modifier {
                Some(m) => m,
                None => KeyModifier::Plain,
            }),
    {
        Keybinding {
            on,
            modifier: match modifier {
                Some(m) => m,
                None => KeyModifier::Plain,
            },
            action,
        }
    }

    /// Renders the chord for the help legend.
    pub fn keycode_string(&self) -> (r: String)
        ensures
            r@ == display_spec(self.on, self.modifier),
    {
        let mut key: String;
        match self.on {
            KeyCode::Backspace => {
                key = String::from_str("Backspace");
            },
            KeyCode::Enter => {
                key = String::from_str("Enter");
            },
            KeyCode::Left => {
                key = String::from_str("\u{f060}");
            },
            KeyCode::Right => {
                key = String::from_str("\u{f061}");
            },
            KeyCode::Up => {
                key = String::from_str("\u{f062}");
            },
            KeyCode::Down => {
                key = String::from_str("\u{f063}");
            },
            KeyCode::Home => {
                key = String::from_str("Home");
            },
            KeyCode::End => {
                key = String::from_str("End");
            },
            KeyCode::PageUp => {
                key = String::from_str("PageUp");
            },
            KeyCode::PageDown => {
                key = String::from_str("PageDown");
            },
            KeyCode::Tab => {
                key = String::from_str("Tab");
            },
            KeyCode::Delete => {
                key = String::from_str("Delete");
            },
            KeyCode::Esc => {
                key = String::from_str("Esc");
            },
            KeyCode::F(i) => {
                key = String::from_str("F");
                push_digits(&mut key, i);
            },
            KeyCode::Char(c) => {
                key = String::new();
                push_char(&mut key, c);
                proof {
                    assert(key@ =~= seq![c]);
                }
            },
        }
        if !self.modifier.is_none() {
            let mut out = String::from_str(self.modifier.to_str());
            out.append("-");
            out.append(key.as_str());
            proof {
                assert(out@ =~= display_spec(self.on, self.modifier));
            }
            out
        } else {
            key
        }
    }
}

/// Walks an entry's fields in order, accumulating each at most once.
pub open spec fn scan_fields_spec<T: UserAction>(
    fields: Seq<RawField>,
    on: Option<KeyCode>,
    modifier: Option<KeyModifier>,
    action: Option<T>,
) -> Result<(Option<KeyCode>, Option<KeyModifier>, Option<T>), ConfigError>
    decreases fields.len(),
{
    if fields.len() == 0 {
        Ok((on, modifier, action))
    } else {
        match fields.first() {
            RawField::On(tok) => if on is Some {
                Err(ConfigError::DuplicateField(FieldName::On))
            } else {
                match parse_key_token_spec(tok@) {
                    Ok(k) => scan_fields_spec(fields.drop_first(), Some(k), modifier, action),
                    Err(e) => Err(e),
                }
            },
            RawField::Modifier(m) => if modifier is Some {
                Err(ConfigError::DuplicateField(FieldName::Modifier))
            } else {
                scan_fields_spec(fields.drop_first(), on, Some(m), action)
            },
            RawField::Action(name) => if action is Some {
                Err(ConfigError::DuplicateField(FieldName::Action))
            } else {
                match T::from_name_spec(name@) {
                    Some(a) => scan_fields_spec(fields.drop_first(), on, modifier, Some(a)),
                    None => Err(ConfigError::UnknownAction),
                }
            },
        }
    }
}

/// What one entry parses to: its fields each at most once, `on` and
/// `action` required, a missing modifier defaulting to a plain chord.
pub open spec fn parse_entry_spec<T: UserAction>(e: RawEntry) -> Result<
    Keybinding<T>,
    ConfigError,
> {
    match scan_fields_spec::<T>(e.fields@, None, None, None) {
        Err(err) => Err(err),
        Ok((on, modifier, action)) => match on {
            None => Err(ConfigError::MissingField(FieldName::On)),
            Some(k) => match action {
                None => Err(ConfigError::MissingField(FieldName::Action)),
                Some(a) => Ok(
                    Keybinding {
                        on: k,
                        modifier: match modifier {
                            Some(m) => m,
                            None => KeyModifier::Plain,
                        },
                        action: a,
                    },
                ),
            },
        },
    }
}

/// Parses one entry of a context's keybinding list.
pub fn parse_keybinding<T: UserAction>(entry: &RawEntry) -> (r: Result<
    Keybinding<T>,
    ConfigError,
>)
    ensures
        r == parse_entry_spec::<T>(*entry),
{
    let ghost fs = entry.fields@;
    let mut on: Option<KeyCode> = None;
    let mut modifier: Option<KeyModifier> = None;
    let mut action: Option<T> = None;
    let n = entry.fields.len();
    let mut i: usize = 0;
    proof {
        assert(fs.skip(0) =~= fs);
    }
    while i < n
        invariant
            i <= n,
            n == fs.len(),
            fs == entry.fields@,
            scan_fields_spec::<T>(fs, None, None, None) == scan_fields_spec::<T>(
                fs.skip(i as int),
                on,
                modifier,
                action,
            ),
        decreases n - i,
    {
        proof {
            assert(fs.skip(i as int).first() == fs[i as int]);
            assert(fs.skip(i as int).drop_first() =~= fs.skip(i + 1));
        }
        match &entry.fields[i] {
            RawField::On(tok) => {
                if on.is_some() {
                    return Err(ConfigError::DuplicateField(FieldName::On));
                }
                match parse_key_token(tok.as_str()) {
                    Ok(k) => {
                        on = Some(k);
                    },
                    Err(e) => {
                        return Err(e);
                    },
                }
            },
            RawField::Modifier(m) => {
                if modifier.is_some() {
                    return Err(ConfigError::DuplicateField(FieldName::Modifier));
                }
                modifier = Some(*m);
            },
            RawField::Action(name) => {
                if action.is_some() {
                    return Err(ConfigError::DuplicateField(FieldName::Action));
                }
                match T::from_name(name.as_str()) {
                    Some(a) => {
                        action = Some(a);
                    },
                    None => {
                        return Err(ConfigError::UnknownAction);
                    },
                }
            },
        }
        i += 1;
    }
    proof {
        assert(fs.skip(n as int) =~= Seq::<RawField>::empty());
    }
    let on_key = match on {
        Some(k) => k,
        None => {
            return Err(ConfigError::MissingField(FieldName::On));
        },
    };
    let act = match action {
        Some(a) => a,
        None => {
            return Err(ConfigError::MissingField(FieldName::Action));
        },
    };
    Ok(Keybinding::new(on_key, act, modifier))
}

/// What a context's whole entry list parses to: each entry in order, the
/// first rejection rejecting the list.
pub open spec fn parse_entries_spec<T: UserAction>(s: Seq<RawEntry>) -> Result<
    Seq<Keybinding<T>>,
    ConfigError,
>
    decreases s.len(),
{
    if s.len() == 0 {
        Ok(Seq::empty())
    } else {
        match parse_entry_spec::<T>(s.first()) {
            Err(e) => Err(e),
            Ok(b) => match parse_entries_spec::<T>(s.drop_first()) {
                Err(e) => Err(e),
                Ok(rest) => Ok(seq![b] + rest),
            },
        }
    }
}

/// Parses a context's keybinding list.
pub fn parse_keybindings<T: UserAction>(entries: &Vec<RawEntry>) -> (r: Result<
    Vec<Keybinding<T>>,
    ConfigError,
>)
    ensures
        (match (r, parse_entries_spec::<T>(entries@)) {
            (Ok(v), Ok(s)) => v@ == s,
            (Err(e1), Err(e2)) => e1 == e2,
            _ => false,
        }),
{
    let ghost es = entries@;
    let mut out: Vec<Keybinding<T>> = Vec::new();
    let n = entries.len();
    let mut i: usize = 0;
    proof {
        assert(es.skip(0) =~= es);
    }
    while i < n
        invariant
            i <= n,
            n == es.len(),
            es == entries@,
            parse_entries_spec::<T>(es) == (match parse_entries_spec::<T>(es.skip(i as int)) {
                Err(e) => Err(e),
                Ok(rest) => Ok(out@ + rest),
            }),
        decreases n - i,
    {
        proof {
            assert(es.skip(i as int).first() == es[i as int]);
            assert(es.skip(i as int).drop_first() =~= es.skip(i + 1));
        }
        match parse_keybinding::<T>(&entries[i]) {
            Ok(b) => {
                let ghost prev = out@;
                out.push(b);
                proof {
                    if parse_entries_spec::<T>(es.skip(i + 1)) is Ok {
                        let rest = parse_entries_spec::<T>(es.skip(i + 1))->Ok_0;
                        assert(prev + (seq![b] + rest) =~= out@ + rest);
                    }
                }
            },
            Err(e) => {
                return Err(e);
            },
        }
        i += 1;
    }
    proof {
        assert(es.skip(n as int) =~= Seq::<RawEntry>::empty());
        assert(out@ + Seq::<Keybinding<T>>::empty() =~= out@);
    }
    Ok(out)
}

/// Keybindings of the context shared by every tab.
#[derive(Clone, Debug)]
pub struct General<T> {
    pub keybindings: Vec<Keybinding<T>>,
}

/// Keybindings of the torrents tab's own context.
#[derive(Clone, Debug)]
pub struct TorrentsTab<T> {
    pub keybindings: Vec<Keybinding<T>>,
}

/// The parsed registry: one binding list per context.
#[derive(Clone, Debug)]
pub struct KeymapConfig {
    pub general: General<GeneralAction>,
    pub torrents_tab: TorrentsTab<TorrentsAction>,
}

/// What registry construction yields on a document: the two contexts'
/// binding lists, or the first rejection, general context first.
pub open spec fn build_spec(doc: RawDocument) -> Result<
    (Seq<Keybinding<GeneralAction>>, Seq<Keybinding<TorrentsAction>>),
    ConfigError,
> {
    match parse_entries_spec::<GeneralAction>(doc.general@) {
        Err(e) => Err(e),
        Ok(g) => match parse_entries_spec::<TorrentsAction>(doc.torrents_tab@) {
            Err(e) => Err(e),
            Ok(t) => Ok((g, t)),
        },
    }
}

/// Folds a binding list into the compiled map, later entries overriding
/// earlier ones on the same chord.
pub open spec fn fold_bindings<T: UserAction>(
    m: Map<(KeyCode, KeyModifier), Action>,
    s: Seq<Keybinding<T>>,
) -> Map<(KeyCode, KeyModifier), Action>
    decreases s.len(),
{
    if s.len() == 0 {
        m
    } else {
        fold_bindings(
            m.insert((s.first().on, s.first().modifier), s.first().action.to_action_spec()),
            s.drop_first(),
        )
    }
}

/// The compiled map of a whole registry: the general context first, the
/// torrents context merged over it.
pub open spec fn to_map_spec(c: KeymapConfig) -> Map<(KeyCode, KeyModifier), Action> {
    fold_bindings(
        fold_bindings(Map::empty(), c.general.keybindings@),
        c.torrents_tab.keybindings@,
    )
}

impl KeymapConfig {
    /// Validates and compiles a configuration document into a registry.
    pub fn build(doc: &RawDocument) -> (r: Result<KeymapConfig, ConfigError>)
        ensures
            (match (r, build_spec(*doc)) {
                (Ok(c), Ok((g, t))) => c.general.keybindings@ == g
                    && c.torrents_tab.keybindings@ == t,
                (Err(e1), Err(e2)) => e1 == e2,
                _ => false,
            }),
    {
        let general = match parse_keybindings::<GeneralAction>(&doc.general) {
            Ok(v) => v,
            Err(e) => {
                return Err(e);
            },
        };
        let torrents = match parse_keybindings::<TorrentsAction>(&doc.torrents_tab) {
            Ok(v) => v,
            Err(e) => {
                return Err(e);
            },
        };
        Ok(
            KeymapConfig {
                general: General { keybindings: general },
                torrents_tab: TorrentsTab { keybindings: torrents },
            },
        )
    }

    /// Flattens both contexts into the chord lookup map; on a collision
    /// the torrents context, merged later, wins.
    pub fn to_map(self) -> (r: CompiledActionMap)
        ensures
            r@ == to_map_spec(self),
    {
        let ghost g = self.general.keybindings@;
        let ghost t = self.torrents_tab.keybindings@;
        let mut map = CompiledActionMap::new();
        let n1 = self.general.keybindings.len();
        let mut i: usize = 0;
        proof {
            assert(g.skip(0) =~= g);
        }
        while i < n1
            invariant
                i <= n1,
                n1 == g.len(),
                g == self.general.keybindings@,
                t == self.torrents_tab.keybindings@,
                to_map_spec(self) == fold_bindings(fold_bindings(map@, g.skip(i as int)), t),
            decreases n1 - i,
        {
            proof {
                assert(g.skip(i as int).first() == g[i as int]);
                assert(g.skip(i as int).drop_first() =~= g.skip(i + 1));
            }
            let b = &self.general.keybindings[i];
            map.insert(b.on, b.modifier, b.action.to_action());
            i += 1;
        }
        proof {
            assert(g.skip(n1 as int) =~= Seq::<Keybinding<GeneralAction>>::empty());
            assert(t.skip(0) =~= t);
        }
        let n2 = self.torrents_tab.keybindings.len();
        let mut j: usize = 0;
        while j < n2
            invariant
                j <= n2,
                n2 == t.len(),
                t == self.torrents_tab.keybindings@,
                to_map_spec(self) == fold_bindings(map@, t.skip(j as int)),
            decreases n2 - j,
        {
            proof {
                assert(t.skip(j as int).first() == t[j as int]);
                assert(t.skip(j as int).drop_first() =~= t.skip(j + 1));
            }
            let b = &self.torrents_tab.keybindings[j];
            map.insert(b.on, b.modifier, b.action.to_action());
            j += 1;
        }
        proof {
            assert(t.skip(n2 as int) =~= Seq::<Keybinding<TorrentsAction>>::empty());
        }
        map
    }
}

/// The help legend of one context: each binding's chord display string
/// beside its action's description, in document order.
pub fn legend<T: UserAction>(bindings: &Vec<Keybinding<T>>) -> (r: Vec<(String, String)>)
    ensures
        r@.len() == bindings@.len(),
        forall|i: int|
            0 <= i < r@.len() ==> r@[i].0@ == display_spec(bindings@[i].on, bindings@[i].modifier)
                && r@[i].1@ == bindings@[i].action.desc_spec(),
{
    let mut out: Vec<(String, String)> = Vec::new();
    let n = bindings.len();
    let mut i: usize = 0;
    while i < n
        invariant
            i <= n,
            n == bindings@.len(),
            out@.len() == i,
            forall|k: int|
                0 <= k < i ==> out@[k].0@ == display_spec(
                    bindings@[k].on,
                    bindings@[k].modifier,
                ) && out@[k].1@ == bindings@[k].action.desc_spec(),
        decreases n - i,
    {
        let b = &bindings[i];
        let chord = b.keycode_string();
        let desc = String::from_str(b.action.desc());
        out.push((chord, desc));
        i += 1;
    }
    out
}


/// The field slot a raw field fills.
pub open spec fn field_name_of(f: RawField) -> FieldName {
    match f {
        RawField::On(_) => FieldName::On,
        RawField::Modifier(_) => FieldName::Modifier,
        RawField::Action(_) => FieldName::Action,
    }
}

/// No field slot occurs twice within the entry.
pub open spec fn entry_fields_distinct(e: RawEntry) -> bool {
    forall|i: int, j: int|
        0 <= i < j < e.fields@.len() ==> field_name_of(e.fields@[i]) != field_name_of(
            e.fields@[j],
        )
}

proof fn lemma_scan_no_duplicate<T: UserAction>(
    fields: Seq<RawField>,
    on: Option<KeyCode>,
    modifier: Option<KeyModifier>,
    action: Option<T>,
)
    requires
        forall|i: int, j: int|
            0 <= i < j < fields.len() ==> field_name_of(fields[i]) != field_name_of(fields[j]),
        on is Some ==> forall|i: int|
            0 <= i < fields.len() ==> field_name_of(fields[i]) != FieldName::On,
        modifier is Some ==> forall|i: int|
            0 <= i < fields.len() ==> field_name_of(fields[i]) != FieldName::Modifier,
        action is Some ==> forall|i: int|
            0 <= i < fields.len() ==> field_name_of(fields[i]) != FieldName::Action,
    ensures
        forall|f: FieldName|
            scan_fields_spec::<T>(fields, on, modifier, action) != Err::<
                (Option<KeyCode>, Option<KeyModifier>, Option<T>),
                ConfigError,
            >(ConfigError::DuplicateField(f)),
    decreases fields.len(),
{
    if fields.len() > 0 {
        let rest = fields.drop_first();
        assert(forall|i: int| 0 <= i < rest.len() ==> rest[i] == fields[i + 1]);
        match fields.first() {
            RawField::On(tok) => {
                match parse_key_token_spec(tok@) {
                    Ok(k) => {
                        lemma_scan_no_duplicate::<T>(rest, Some(k), modifier, action);
                    },
                    Err(e) => {
                        assert(e != ConfigError::DuplicateField(FieldName::On));
                        assert(e != ConfigError::DuplicateField(FieldName::Modifier));
                        assert(e != ConfigError::DuplicateField(FieldName::Action));
                    },
                }
            },
            RawField::Modifier(m) => {
                lemma_scan_no_duplicate::<T>(rest, on, Some(m), action);
            },
            RawField::Action(name) => {
                match T::from_name_spec(name@) {
                    Some(a) => {
                        lemma_scan_no_duplicate::<T>(rest, on, modifier, Some(a));
                    },
                    None => {},
                }
            },
        }
    }
}

proof fn lemma_entry_no_duplicate<T: UserAction>(e: RawEntry)
    requires
        entry_fields_distinct(e),
    ensures
        forall|f: FieldName|
            parse_entry_spec::<T>(e) != Err::<Keybinding<T>, ConfigError>(
                ConfigError::DuplicateField(f),
            ),
{
    lemma_scan_no_duplicate::<T>(e.fields@, None, None, None);
}

proof fn lemma_entries_no_duplicate<T: UserAction>(s: Seq<RawEntry>)
    requires
        forall|k: int| 0 <= k < s.len() ==> entry_fields_distinct(#[trigger] s[k]),
    ensures
        forall|f: FieldName|
            parse_entries_spec::<T>(s) != Err::<Seq<Keybinding<T>>, ConfigError>(
                ConfigError::DuplicateField(f),
            ),
    decreases s.len(),
{
    if s.len() > 0 {
        let rest = s.drop_first();
        assert(forall|k: int| 0 <= k < rest.len() ==> rest[k] == s[k + 1]);
        lemma_entry_no_duplicate::<T>(s.first());
        lemma_entries_no_duplicate::<T>(rest);
    }
}

/// Law: a duplicate-field rejection can only come from a field repeated
/// inside a single entry. Two entries binding the same chord, in one
/// context or across contexts, are not an error.
pub proof fn lemma_duplicate_only_within_entry(doc: RawDocument)
    requires
        forall|k: int| 0 <= k < doc.general@.len() ==> entry_fields_distinct(
            #[trigger] doc.general@[k],
        ),
        forall|k: int| 0 <= k < doc.torrents_tab@.len() ==> entry_fields_distinct(
            #[trigger] doc.torrents_tab@[k],
        ),
    ensures
        forall|f: FieldName|
            build_spec(doc) != Err::<
                (Seq<Keybinding<GeneralAction>>, Seq<Keybinding<TorrentsAction>>),
                ConfigError,
            >(ConfigError::DuplicateField(f)),
{
    lemma_entries_no_duplicate::<GeneralAction>(doc.general@);
    lemma_entries_no_duplicate::<TorrentsAction>(doc.torrents_tab@);
}

/// The action of the last binding in the list that binds this chord.
pub open spec fn last_bound_action<T: UserAction>(
    s: Seq<Keybinding<T>>,
    k: (KeyCode, KeyModifier),
) -> Option<Action>
    decreases s.len(),
{
    if s.len() == 0 {
        None
    } else {
        match last_bound_action(s.drop_first(), k) {
            Some(a) => Some(a),
            None => if (s.first().on, s.first().modifier) == k {
                Some(s.first().action.to_action_spec())
            } else {
                None
            },
        }
    }
}

proof fn lemma_fold_bindings_lookup<T: UserAction>(
    m: Map<(KeyCode, KeyModifier), Action>,
    s: Seq<Keybinding<T>>,
    k: (KeyCode, KeyModifier),
)
    ensures
        (match last_bound_action(s, k) {
            Some(a) => fold_bindings(m, s).contains_key(k) && fold_bindings(m, s)[k] == a,
            None => fold_bindings(m, s).contains_key(k) == m.contains_key(k) && (
            m.contains_key(k) ==> fold_bindings(m, s)[k] == m[k]),
        }),
    decreases s.len(),
{
    if s.len() > 0 {
        let chord = (s.first().on, s.first().modifier);
        lemma_fold_bindings_lookup(
            m.insert(chord, s.first().action.to_action_spec()),
            s.drop_first(),
            k,
        );
    }
}

/// Law: the compiled map carries, for each chord, the action of the last
/// binding written for it, the torrents context counting as later than
/// the general one; a chord no binding names is absent.
pub proof fn lemma_last_binding_wins(c: KeymapConfig, k: (KeyCode, KeyModifier))
    ensures
        (match (match last_bound_action(c.torrents_tab.keybindings@, k) {
            Some(a) => Some(a),
            None => last_bound_action(c.general.keybindings@, k),
        }) {
            Some(a) => to_map_spec(c).contains_key(k) && to_map_spec(c)[k] == a,
            None => !to_map_spec(c).contains_key(k),
        }),
{
    lemma_fold_bindings_lookup(
        Map::<(KeyCode, KeyModifier), Action>::empty(),
        c.general.keybindings@,
        k,
    );
    lemma_fold_bindings_lookup(
        fold_bindings(Map::<(KeyCode, KeyModifier), Action>::empty(), c.general.keybindings@),
        c.torrents_tab.keybindings@,
        k,
    );
}

/// Law: a single-character token parses to that character's key, and a
/// plain chord on that key displays as exactly that character again.
pub proof fn lemma_single_char_round_trip(c: char)
    ensures
        parse_key_token_spec(seq![c]) == Ok::<KeyCode, ConfigError>(KeyCode::Char(c)),
        display_spec(KeyCode::Char(c), KeyModifier::Plain) == seq![c],
{
}

/// Law: for every function-key index from 1 to 99, the token `F` plus the
/// index's digits parses to the function key with that same index.
pub proof fn lemma_function_key_parse(n: u8)
    requires
        1 <= n <= 99,
    ensures
        parse_key_token_spec(seq!['F'] + digits_spec(n as int)) == Ok::<KeyCode, ConfigError>(
            KeyCode::F(n),
        ),
{
    let t = seq!['F'] + digits_spec(n as int);
    if n < 10 {
        assert(t.skip(1) =~= seq![digit_char(n as int)]);
    } else {
        assert(t.skip(1) =~= seq![digit_char(n as int / 10), digit_char(n as int % 10)]);
    }
}

/// Law: an `F` token of the right length whose suffix does not read as a
/// short decimal number is rejected as an invalid key specification.
pub proof fn lemma_function_key_bad_suffix(t: Seq<char>)
    requires
        t.len() == 2 || t.len() == 3,
        t[0] == 'F',
        parse_short_u8_spec(t.skip(1)) is None,
    ensures
        parse_key_token_spec(t) == Err::<KeyCode, ConfigError>(ConfigError::InvalidKeySpec),
{
}

} // verus!
