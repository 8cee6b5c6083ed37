//! The theme creator: the draft, its fields, its keys, and saving it.
use vstd::prelude::*;

use super::{
    color_or, entries_spec, entry_views, current_index_spec, Action, AppMode, AppState,
    CreatorFocus, CreatorState, KeyInput, ThemeEntry, ThemeSource,
};
use crate::apply::string_views;
use crate::colors::{normalize_color_input, parse_color_input, parse_color_input_spec};
use crate::config::{
    copy_palette, copy_strings, save_builtin_override, save_custom_theme, without_slug,
    BuiltinOverride, Config, ConfigModel, ThemeModel,
};
use crate::text::{
    chars_of, concat3, lower_seq, pop_char, push_char, same_text, slug, slugify, trim, trim_chars,
};
use crate::theme::{builtin_themes, find_theme, first_theme_match};

verus! {

/// The draft for editing an entry: its colors and palette, its name with
/// " fork" added, and its accent and status colors (or the palette entries
/// that stand in for them).
pub open spec fn forked_draft(c: CreatorState, e: (ThemeModel, ThemeSource)) -> bool {
    &&& c.name@ == e.0.name + " fork"@
    &&& string_views(c.mood@) == e.0.mood
    &&& c.background@ == e.0.background
    &&& c.foreground@ == e.0.foreground
    &&& c.cursor@ == e.0.cursor
    &&& c.selection@ == e.0.selection
    &&& c.accent@ == color_or(e.0.accent, e.0.ansi[3])
    &&& c.success@ == color_or(e.0.success, e.0.ansi[2])
    &&& c.warning@ == color_or(e.0.warning, e.0.ansi[3])
    &&& c.error@ == color_or(e.0.error, e.0.ansi[1])
    &&& c.ansi_auto
    &&& string_views(c.ansi@) == e.0.ansi
    &&& c.error_msg is None
}

/// The text of the field that has the focus; the mood and palette switch
/// have none.
pub open spec fn field_of(c: CreatorState, f: CreatorFocus) -> Option<String> {
    match f {
        CreatorFocus::Name => Some(c.name),
        CreatorFocus::Background => Some(c.background),
        CreatorFocus::Foreground => Some(c.foreground),
        CreatorFocus::Cursor => Some(c.cursor),
        CreatorFocus::Selection => Some(c.selection),
        CreatorFocus::Accent => Some(c.accent),
        CreatorFocus::Success => Some(c.success),
        CreatorFocus::Warning => Some(c.warning),
        CreatorFocus::Error => Some(c.error),
        _ => None,
    }
}

/// The draft with the focused field's text replaced.
pub open spec fn with_field(c: CreatorState, f: CreatorFocus, v: String) -> CreatorState {
    match f {
        CreatorFocus::Name => CreatorState { name: v, ..c },
        CreatorFocus::Background => CreatorState { background: v, ..c },
        CreatorFocus::Foreground => CreatorState { foreground: v, ..c },
        CreatorFocus::Cursor => CreatorState { cursor: v, ..c },
        CreatorFocus::Selection => CreatorState { selection: v, ..c },
        CreatorFocus::Accent => CreatorState { accent: v, ..c },
        CreatorFocus::Success => CreatorState { success: v, ..c },
        CreatorFocus::Warning => CreatorState { warning: v, ..c },
        CreatorFocus::Error => CreatorState { error: v, ..c },
        _ => c,
    }
}

/// The mood tag that a key toggles.
pub open spec fn mood_tag(ch: char) -> Option<Seq<char>> {
    if ch == 'd' {
        Some("dark"@)
    } else if ch == 'l' {
        Some("light"@)
    } else if ch == 'w' {
        Some("warm"@)
    } else if ch == 'c' {
        Some("cool"@)
    } else if ch == 'n' {
        Some("neutral"@)
    } else {
        None
    }
}

/// Whether a tag differs from `tag`.
pub open spec fn other_than(tag: Seq<char>) -> spec_fn(Seq<char>) -> bool {
    |m: Seq<char>| m != tag
}

/// The mood tags with `tag` toggled: removed everywhere when present,
/// added at the end when absent.
pub open spec fn toggled(mood: Seq<Seq<char>>, tag: Seq<char>) -> Seq<Seq<char>> {
    if mood.contains(tag) {
        mood.filter(other_than(tag))
    } else {
        mood.push(tag)
    }
}

/// The entry that a draft stands for: a custom theme whose slug is the
/// slug of its name, whose palette is `derived` when the palette follows
/// the core colors, by "you".
pub open spec fn draft_entry(c: CreatorState, derived: Seq<Seq<char>>) -> (ThemeModel, ThemeSource) {
    (
        ThemeModel {
            name: c.name@,
            slug: slug(c.name@),
            foreground: c.foreground@,
            background: c.background@,
            cursor: c.cursor@,
            selection: c.selection@,
            ansi: if c.ansi_auto {
                derived
            } else {
                string_views(c.ansi@)
            },
            description: Seq::empty(),
            author: "you"@,
            kind: "custom"@,
            mood: string_views(c.mood@),
            accent: Some(c.accent@),
            success: Some(c.success@),
            warning: Some(c.warning@),
            error: Some(c.error@),
        },
        ThemeSource::Custom,
    )
}

impl CreatorState {
    /// A draft for editing an entry.
    pub fn from_theme(theme: &ThemeEntry) -> (r: CreatorState)
        ensures
            forked_draft(r, theme@),
    {
        let accent = match &theme.accent {
            Some(a) => a.clone(),
            None => theme.ansi[3].clone(),
        };
        let mut name = theme.name.clone();
        name.append(" fork");
        CreatorState {
            name,
            mood: copy_strings(&theme.mood),
            background: theme.background.clone(),
            foreground: theme.foreground.clone(),
            cursor: theme.cursor.clone(),
            selection: theme.selection.clone(),
            accent,
            success: String::from_str(theme.success_color()),
            warning: String::from_str(theme.warning_color()),
            error: String::from_str(theme.error_color()),
            ansi_auto: true,
            ansi: copy_palette(&theme.ansi),
            error_msg: None,
        }
    }

    /// The text of the focused field; empty for the mood and the palette
    /// switch.
    pub fn active_field_value(&self, focus: &CreatorFocus) -> (r: &str)
        ensures
            match field_of(*self, *focus) {
                Some(v) => r@ == v@,
                None => r@.len() == 0,
            },
    {
        match focus {
            CreatorFocus::Name => self.name.as_str(),
            CreatorFocus::Background => self.background.as_str(),
            CreatorFocus::Foreground => self.foreground.as_str(),
            CreatorFocus::Cursor => self.cursor.as_str(),
            CreatorFocus::Selection => self.selection.as_str(),
            CreatorFocus::Accent => self.accent.as_str(),
            CreatorFocus::Success => self.success.as_str(),
            CreatorFocus::Warning => self.warning.as_str(),
            CreatorFocus::Error => self.error.as_str(),
            _ => {
                proof {
                    reveal_strlit("");
                }
                ""
            },
        }
    }

    /// Replaces the text of the focused field.
    pub fn set_active_field(&mut self, focus: CreatorFocus, value: String)
        ensures
            *final(self) == with_field(*old(self), focus, value),
    {
        match focus {
            CreatorFocus::Name => self.name = value,
            CreatorFocus::Background => self.background = value,
            CreatorFocus::Foreground => self.foreground = value,
            CreatorFocus::Cursor => self.cursor = value,
            CreatorFocus::Selection => self.selection = value,
            CreatorFocus::Accent => self.accent = value,
            CreatorFocus::Success => self.success = value,
            CreatorFocus::Warning => self.warning = value,
            CreatorFocus::Error => self.error = value,
            _ => {},
        }
    }

    /// The entry that the draft stands for; `derived` is the palette that
    /// follows from the core colors, used when the palette switch is on.
    pub fn to_theme_entry(&self, derived: &[String; 16]) -> (r: ThemeEntry)
        ensures
            r@ == draft_entry(*self, string_views(derived@)),
    {
        let ansi = if self.ansi_auto {
            copy_palette(derived)
        } else {
            copy_palette(&self.ansi)
        };
        let r = ThemeEntry {
            name: self.name.clone(),
            slug: slugify(self.name.as_str()),
            foreground: self.foreground.clone(),
            background: self.background.clone(),
            cursor: self.cursor.clone(),
            selection: self.selection.clone(),
            ansi,
            source: ThemeSource::Custom,
            description: String::new(),
            author: String::from_str("you"),
            kind: String::from_str("custom"),
            mood: copy_strings(&self.mood),
            accent: Some(self.accent.clone()),
            success: Some(self.success.clone()),
            warning: Some(self.warning.clone()),
            error: Some(self.error.clone()),
        };
        assert(r@.0.description =~= Seq::<char>::empty());
        r
    }
}

/// Toggles a mood tag.
fn toggle_mood(mood: &mut Vec<String>, tag: &str)
    ensures
        string_views(final(mood)@) == toggled(string_views(old(mood)@), tag@),
{
    let ghost orig = string_views(mood@);
    let mut present = false;
    let mut i: usize = 0;
    while i < mood.len()
        invariant
            i <= mood.len(),
            orig == string_views(mood@),
            present == exists|j: int| 0 <= j < i && #[trigger] orig[j] == tag@,
        decreases mood.len() - i,
    {
        assert(orig[i as int] == mood@[i as int]@);
        if same_text(mood[i].as_str(), tag) {
            present = true;
        }
        i = i + 1;
    }
    proof {
        if present {
            let j = choose|j: int| 0 <= j < mood.len() && #[trigger] orig[j] == tag@;
            assert(orig.contains(tag@));
        } else {
            assert(!orig.contains(tag@));
        }
    }
    if !present {
        mood.push(String::from_str(tag));
        assert(string_views(mood@) =~= orig.push(tag@));
        return;
    }
    let mut rest: Vec<String> = Vec::new();
    std::mem::swap(&mut rest, mood);
    let ghost pred = other_than(tag@);
    let mut k: usize = 0;
    assert(orig.len() == rest.len());
    assert(string_views(mood@) =~= orig.take(0).filter(pred)) by {
        reveal(Seq::filter);
    }
    assert(string_views(rest@) =~= orig.skip(0));
    while rest.len() > 0
        invariant
            k + rest.len() == orig.len(),
            orig.len() <= usize::MAX,
            string_views(rest@) == orig.skip(k as int),
            string_views(mood@) == orig.take(k as int).filter(pred),
            pred == other_than(tag@),
        decreases rest.len(),
    {
        let ghost prev = string_views(rest@);
        let x = rest.remove(0);
        proof {
            assert(string_views(rest@) =~= prev.drop_first());
            assert(x@ == orig[k as int]) by {
                assert(orig.skip(k as int)[0] == orig[k as int]);
            }
            assert(orig.take(k + 1).drop_last() =~= orig.take(k as int));
            assert(orig.take(k + 1).last() == orig[k as int]);
            reveal(Seq::filter);
        }
        if !same_text(x.as_str(), tag) {
            mood.push(x);
            assert(string_views(mood@) =~= orig.take(k as int).filter(pred).push(orig[k as int]));
        }
        k = k + 1;
        assert(string_views(rest@) =~= orig.skip(k as int));
    }
    assert(orig.take(k as int) =~= orig);
}

/// The message for a color input that does not read as a color.
pub open spec fn invalid_color_message() -> Seq<char> {
    "Invalid color. Use #RRGGBB, name, or 0-255."@
}

/// What a creator key does (see [`AppState::creator_key`]).
pub open spec fn creator_key_spec(s: AppState, key: KeyInput, t: AppState, r: Action) -> bool {
    let focus = s.creator_focus;
    let command = key matches KeyInput::Char { ch, .. } && focus != CreatorFocus::Name && (ch == 's'
        || ch == 'p' || ch == 'r');
    if key is Esc {
        &&& r is Stay
        &&& t == (AppState {
            mode: AppMode::Library,
            creator: t.creator,
            editing_slug: None,
            status: t.status,
            ..s
        })
        &&& super::default_draft(t.creator)
        &&& t.status@ == "Creator cancelled."@
    } else if command {
        let ch = key->ch;
        if ch == 's' {
            r is SaveDraft && t == s
        } else if ch == 'p' {
            &&& r is PreviewDraft
            &&& t == (AppState { status: t.status, ..s })
            &&& t.status@ == "Previewing draft."@
        } else {
            &&& r is Randomize
            &&& t == (AppState { status: t.status, ..s })
            &&& t.status@ == "Randomized colors."@
        }
    } else if key is Tab {
        &&& r is Stay
        &&& t == (AppState { creator_focus: t.creator_focus, ..s })
        &&& super::focus_index(t.creator_focus) == (super::focus_index(focus) + 1) % 11
    } else if key is BackTab {
        &&& r is Stay
        &&& t == (AppState { creator_focus: t.creator_focus, ..s })
        &&& super::focus_index(t.creator_focus) == (super::focus_index(focus) + 10) % 11
    } else if focus == CreatorFocus::Mood {
        &&& r is Stay
        &&& t == (AppState { creator: t.creator, ..s })
        &&& t.creator == (CreatorState { mood: t.creator.mood, ..s.creator })
        &&& string_views(t.creator.mood@) == (if key is Char && mood_tag(key->ch) is Some {
            toggled(string_views(s.creator.mood@), mood_tag(key->ch)->0)
        } else {
            string_views(s.creator.mood@)
        })
    } else if focus == CreatorFocus::AnsiToggle {
        &&& r is Stay
        &&& if key is Enter || key == (KeyInput::Char { ch: ' ', plain: true }) || key == (
        KeyInput::Char { ch: ' ', plain: false }) {
            t == (AppState {
                creator: CreatorState { ansi_auto: !s.creator.ansi_auto, ..s.creator },
                ..s
            })
        } else {
            t == s
        }
    } else {
        let field = field_of(s.creator, focus)->0;
        &&& r is Stay
        &&& match key {
            KeyInput::Char { ch, plain } => if plain {
                &&& t == (AppState { creator: t.creator, ..s })
                &&& field_of(t.creator, focus) matches Some(v) && v@ == field@.push(ch)
                &&& t.creator == CreatorState {
                    error_msg: None,
                    ..with_field(s.creator, focus, field_of(t.creator, focus)->0)
                }
            } else {
                t == s
            },
            KeyInput::Backspace => {
                &&& t == (AppState { creator: t.creator, ..s })
                &&& field_of(t.creator, focus) matches Some(v) && v@ == (if field@.len() == 0 {
                    field@
                } else {
                    field@.drop_last()
                })
                &&& t.creator == with_field(s.creator, focus, field_of(t.creator, focus)->0)
            },
            KeyInput::Enter => if focus == CreatorFocus::Name {
                &&& t == (AppState { creator_focus: CreatorFocus::Mood, ..s })
            } else {
                match parse_color_input_spec(lower_seq(trim(field@))) {
                    Some(hex) => {
                        &&& t == (AppState {
                            creator: t.creator,
                            creator_focus: t.creator_focus,
                            ..s
                        })
                        &&& super::focus_index(t.creator_focus) == (super::focus_index(focus) + 1)
                            % 11
                        &&& field_of(t.creator, focus) matches Some(v) && v@ == hex
                        &&& t.creator == CreatorState {
                            error_msg: None,
                            ..with_field(s.creator, focus, field_of(t.creator, focus)->0)
                        }
                    },
                    None => {
                        &&& t == (AppState { creator: t.creator, ..s })
                        &&& t.creator == CreatorState { error_msg: t.creator.error_msg, ..s.creator }
                        &&& t.creator.error_msg matches Some(m) && m@ == invalid_color_message()
                    },
                }
            },
            _ => t == s,
        }
    }
}

/// What saving a draft does to the configuration (see
/// [`AppState::save_draft`]): an edit of a bundled theme becomes its
/// override; an edit of another theme replaces it under its slug; a new
/// theme is saved under the slug of its name.
pub open spec fn saved_config_spec(
    c: ConfigModel,
    entry: ThemeModel,
    editing: Option<Seq<char>>,
) -> ConfigModel {
    match editing {
        Some(e) => if first_theme_match(builtin_themes(), slug(e), 0) is Some {
            let o = ThemeModel { slug: e, ..entry };
            ConfigModel {
                theme: e,
                custom_themes: c.custom_themes,
                builtin_overrides: without_slug(c.builtin_overrides, e).push(o),
            }
        } else {
            let t = ThemeModel { slug: e, ..entry };
            ConfigModel {
                theme: e,
                custom_themes: without_slug(c.custom_themes, e).push(t),
                builtin_overrides: c.builtin_overrides,
            }
        },
        None => ConfigModel {
            theme: entry.slug,
            custom_themes: without_slug(c.custom_themes, entry.slug).push(entry),
            builtin_overrides: c.builtin_overrides,
        },
    }
}

/// The text of an optional string.
pub open spec fn opt_text(o: Option<String>) -> Option<Seq<char>> {
    match o {
        Some(s) => Some(s@),
        None => None,
    }
}

/// On the mood field, `d`, `l`, `w`, `c` and `n` each toggle their own tag
/// (dark, light, warm, cool, neutral): an absent tag is added at the end; a
/// present one is removed, and the other tags stay as they were.
pub proof fn law_mood_keys_toggle(mood: Seq<Seq<char>>, tag: Seq<char>)
    ensures
        mood_tag('d') == Some("dark"@),
        mood_tag('l') == Some("light"@),
        mood_tag('w') == Some("warm"@),
        mood_tag('c') == Some("cool"@),
        mood_tag('n') == Some("neutral"@),
        !mood.contains(tag) ==> toggled(mood, tag) == mood.push(tag),
        mood.contains(tag) ==> !toggled(mood, tag).contains(tag),
        forall|t: Seq<char>| t != tag ==> (#[trigger] toggled(mood, tag).contains(t) <==> mood.contains(t)),
{
    let pred = other_than(tag);
    if mood.contains(tag) {
        let f = mood.filter(pred);
        assert(toggled(mood, tag) == f);
        if f.contains(tag) {
            let i = choose|i: int| 0 <= i < f.len() && f[i] == tag;
            mood.lemma_filter_pred(pred, i);
        }
        assert forall|t: Seq<char>| t != tag implies (#[trigger] toggled(mood, tag).contains(t)
            <==> mood.contains(t)) by {
            assert(toggled(mood, tag) == f);
            if mood.contains(t) {
                let i = choose|i: int| 0 <= i < mood.len() && mood[i] == t;
                assert(pred(mood[i]));
                mood.lemma_filter_contains(pred, i);
            }
            if f.contains(t) {
                mood.lemma_filter_contains_rev(pred, t);
            }
        }
    } else {
        assert forall|t: Seq<char>| t != tag implies (#[trigger] toggled(mood, tag).contains(t)
            <==> mood.contains(t)) by {
            assert(toggled(mood, tag) == mood.push(tag));
            if mood.push(tag).contains(t) {
                let i = choose|i: int| 0 <= i < mood.push(tag).len() && mood.push(tag)[i] == t;
                assert(i < mood.len());
                assert(mood[i] == t);
            }
            if mood.contains(t) {
                let i = choose|i: int| 0 <= i < mood.len() && mood[i] == t;
                assert(mood.push(tag)[i] == t);
            }
        }
    }
}

/// Saving a draft stores it under the slug that the status reports: the
/// edited theme's slug when editing, otherwise the slug of the draft's name.
/// That slug becomes the active theme, and the list it goes into (the
/// overrides for a bundled theme being edited, the custom themes otherwise)
/// ends with the draft's contents under that slug and holds no other theme
/// with it: an edited theme is replaced, not duplicated. The other list is
/// left as it was.
pub proof fn law_saved_draft_replaces(c: ConfigModel, entry: ThemeModel, editing: Option<Seq<char>>)
    ensures
        ({
            let key = match editing {
                Some(e) => e,
                None => entry.slug,
            };
            let n = saved_config_spec(c, entry, editing);
            let stored = ThemeModel { slug: key, ..entry };
            let bundled = editing is Some && first_theme_match(builtin_themes(), slug(key), 0) is Some;
            &&& n.theme == key
            &&& bundled ==> {
                &&& n.custom_themes == c.custom_themes
                &&& n.builtin_overrides.len() > 0
                &&& n.builtin_overrides.last() == stored
                &&& forall|i: int|
                    0 <= i < n.builtin_overrides.len() - 1 ==> (#[trigger] n.builtin_overrides[i]).slug
                        != key
            }
            &&& !bundled ==> {
                &&& n.builtin_overrides == c.builtin_overrides
                &&& n.custom_themes.len() > 0
                &&& n.custom_themes.last() == stored
                &&& forall|i: int|
                    0 <= i < n.custom_themes.len() - 1 ==> (#[trigger] n.custom_themes[i]).slug != key
            }
        }),
{
    let key = match editing {
        Some(e) => e,
        None => entry.slug,
    };
    let stored = ThemeModel { slug: key, ..entry };
    assert(editing is None ==> stored == entry);
    crate::config::law_saved_theme_is_unique(c.custom_themes, stored);
    crate::config::law_saved_theme_is_unique(c.builtin_overrides, stored);
}

impl AppState {
    /// The creator's keys: Esc leaves; `s`, `p` and `r` (outside the name)
    /// save, preview and randomize; Tab and BackTab move the focus; on the
    /// mood field letters toggle tags; on the palette switch Space and Enter
    /// flip it; on the other fields keys edit the text, and Enter reads a
    /// color field's text as a color.
    pub fn creator_key(&mut self, key: KeyInput) -> (r: Action)
        requires
            old(self).wf(),
        ensures
            final(self).wf(),
            creator_key_spec(*old(self), key, *final(self), r),
    {
        if key == KeyInput::Esc {
            self.mode = AppMode::Library;
            self.creator = CreatorState::default();
            self.editing_slug = None;
            self.status = String::from_str("Creator cancelled.");
            return Action::Stay;
        }
        if let KeyInput::Char { ch, .. } = key {
            if self.creator_focus != CreatorFocus::Name {
                if ch == 's' {
                    return Action::SaveDraft;
                }
                if ch == 'p' {
                    self.status = String::from_str("Previewing draft.");
                    return Action::PreviewDraft;
                }
                if ch == 'r' {
                    self.status = String::from_str("Randomized colors.");
                    return Action::Randomize;
                }
            }
        }
        if key == KeyInput::Tab {
            self.creator_focus = self.creator_focus.next();
            return Action::Stay;
        }
        if key == KeyInput::BackTab {
            self.creator_focus = self.creator_focus.prev();
            return Action::Stay;
        }
        if self.creator_focus == CreatorFocus::Mood {
            if let KeyInput::Char { ch, .. } = key {
                let tag: Option<&str> = if ch == 'd' {
                    Some("dark")
                } else if ch == 'l' {
                    Some("light")
                } else if ch == 'w' {
                    Some("warm")
                } else if ch == 'c' {
                    Some("cool")
                } else if ch == 'n' {
                    Some("neutral")
                } else {
                    None
                };
                if let Some(t) = tag {
                    toggle_mood(&mut self.creator.mood, t);
                }
            }
            return Action::Stay;
        }
        if self.creator_focus == CreatorFocus::AnsiToggle {
            let flip = match key {
                KeyInput::Enter => true,
                KeyInput::Char { ch, .. } => ch == ' ',
                _ => false,
            };
            if flip {
                self.creator.ansi_auto = !self.creator.ansi_auto;
            }
            return Action::Stay;
        }
        let focus = self.creator_focus;
        let current = String::from_str(self.creator.active_field_value(&focus));
        match key {
            KeyInput::Char { ch, plain } => {
                if plain {
                    let mut v = current;
                    push_char(&mut v, ch);
                    self.creator.set_active_field(focus, v);
                    self.creator.error_msg = None;
                }
            },
            KeyInput::Backspace => {
                let mut v = current;
                pop_char(&mut v);
                self.creator.set_active_field(focus, v);
            },
            KeyInput::Enter => {
                if focus != CreatorFocus::Name {
                    let normalized = normalize_color_input(current.as_str());
                    match parse_color_input(normalized.as_str()) {
                        Some(hex) => {
                            self.creator.set_active_field(focus, hex);
                            self.creator.error_msg = None;
                            self.creator_focus = focus.next();
                        },
                        None => {
                            self.creator.error_msg = Some(
                                String::from_str("Invalid color. Use #RRGGBB, name, or 0-255."),
                            );
                        },
                    }
                } else {
                    self.creator_focus = focus.next();
                }
            },
            _ => {},
        }
        Action::Stay
    }

    /// Saves the creator's draft into the configuration, unless its name is
    /// blank; `derived` is the palette that follows from the draft's core
    /// colors. On success the entries are rebuilt from the updated
    /// configuration, the saved theme is selected, the library shows, and
    /// the index of the saved entry is returned for recoloring.
    pub fn save_draft(&mut self, config: &mut Config, derived: &[String; 16]) -> (r: Option<usize>)
        requires
            old(self).wf(),
        ensures
            final(self).wf(),
            trim(old(self).creator.name@).len() == 0 ==> {
                &&& r is None
                &&& final(config)@ == old(config)@
                &&& *final(self) == (AppState {
                    creator: CreatorState {
                        error_msg: final(self).creator.error_msg,
                        ..old(self).creator
                    },
                    ..*old(self)
                })
                &&& final(self).creator.error_msg matches Some(m) && m@
                    == "Theme name is required."@
            },
            trim(old(self).creator.name@).len() > 0 ==> {
                let entry = draft_entry(old(self).creator, string_views(derived@)).0;
                let editing = opt_text(old(self).editing_slug);
                let saved_slug = match editing {
                    Some(e) => e,
                    None => entry.slug,
                };
                &&& final(config)@ == saved_config_spec(old(config)@, entry, editing)
                &&& entry_views(final(self).themes@) == entries_spec(final(config)@)
                &&& r == Some(final(self).selected)
                &&& final(self).selected as int == current_index_spec(
                    entries_spec(final(config)@),
                    saved_slug,
                )
                &&& final(self).mode == AppMode::Library
                &&& super::default_draft(final(self).creator)
                &&& final(self).editing_slug is None
                &&& final(self).status@ == "Saved "@ + saved_slug + "."@
                &&& final(config)@.theme == saved_slug
                &&& final(self).home_selected == old(self).home_selected
                &&& final(self).creator_focus == old(self).creator_focus
                &&& final(self).pending_delete_slug == old(self).pending_delete_slug
                &&& final(self).lib_search_query == old(self).lib_search_query
                &&& final(self).lib_search_active == old(self).lib_search_active
                &&& final(self).lib_filter == old(self).lib_filter
                &&& final(self).lib_filtered_indices@ == super::library::filtered_spec(
                    entries_spec(final(config)@),
                    old(self).lib_filter,
                    old(self).lib_search_query@,
                    entries_spec(final(config)@).len() as int,
                )
            },
    {
        let trimmed = trim_chars(&chars_of(self.creator.name.as_str()));
        if trimmed.len() == 0 {
            self.creator.error_msg = Some(String::from_str("Theme name is required."));
            return None;
        }
        let live = self.creator.to_theme_entry(derived);
        let custom = live.to_custom_theme();
        let saved_slug = match &self.editing_slug {
            Some(e) => e.clone(),
            None => custom.slug.clone(),
        };
        match &self.editing_slug {
            Some(editing) => {
                if find_theme(editing.as_str()).is_some() {
                    let o = BuiltinOverride {
                        name: custom.name,
                        slug: editing.clone(),
                        foreground: custom.foreground,
                        background: custom.background,
                        cursor: custom.cursor,
                        selection: custom.selection,
                        ansi: custom.ansi,
                        description: custom.description,
                        author: custom.author,
                        kind: custom.kind,
                        mood: custom.mood,
                        accent: custom.accent,
                        success: custom.success,
                        warning: custom.warning,
                        error: custom.error,
                    };
                    save_builtin_override(config, o);
                } else {
                    let mut ct = custom;
                    ct.slug = editing.clone();
                    save_custom_theme(config, ct);
                }
            },
            None => {
                save_custom_theme(config, custom);
            },
        }
        self.reload_themes(config);
        self.selected = super::current_index(&self.themes, saved_slug.as_str());
        proof {
            crate::config::law_resolved_layout(config@);
            crate::config::lemma_first_with_slug(
                super::entry_models(entries_spec(config@)),
                saved_slug@,
                0,
            );
        }
        self.mode = AppMode::Library;
        self.creator = CreatorState::default();
        self.editing_slug = None;
        self.status = concat3("Saved ", saved_slug.as_str(), ".");
        Some(self.selected)
    }
}

} // verus!
