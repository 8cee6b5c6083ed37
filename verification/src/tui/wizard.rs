//! The step-by-step picker: a launcher with two items, a library without
//! filters, and a creator that asks for the four core colors, then a name,
//! then a confirmation.
use vstd::prelude::*;

use super::{
    current_index, current_index_spec, entries_spec, entry_views, Action, AppMode, KeyInput,
    ThemeEntry, ThemeSource,
};
use crate::apply::string_views;
use crate::colors::{
    channels_sliceable, hex_to_rgb, hex_to_rgb_spec, normalize_color_input, normalize_hex,
    normalize_hex_spec, parse_color_input, parse_color_input_spec, rgb_hex, rgb_to_hex,
};
use crate::config::{
    copy_palette, save_builtin_override, save_custom_theme, without_slug, BuiltinOverride, Config,
    ConfigModel, CustomTheme, ThemeModel,
};
use crate::text::{
    chars_of, concat3, lower_seq, pop_char, push_char, same_text, slug, slugify, string_of, trim,
    trim_chars,
};
use crate::theme::{builtin_themes, find_theme, first_theme_match};

verus! {

/// The steps of the creator, in order.
#[derive(Clone, Copy, Debug, PartialEq, Eq, Structural)]
pub enum WizardStep {
    Guide,
    Background,
    Foreground,
    Cursor,
    Selection,
    Name,
    Review,
}

/// The creator's answers so far.
#[derive(Debug, PartialEq, Eq)]
pub struct WizardDraft {
    pub step: WizardStep,
    pub background: String,
    pub foreground: String,
    pub cursor: String,
    pub selection: String,
    pub name: String,
    pub error: Option<String>,
}

/// A creator at its first step with no answers.
pub open spec fn fresh_draft(d: WizardDraft) -> bool {
    &&& d.step == WizardStep::Guide
    &&& d.background@.len() == 0
    &&& d.foreground@.len() == 0
    &&& d.cursor@.len() == 0
    &&& d.selection@.len() == 0
    &&& d.name@.len() == 0
    &&& d.error is None
}

impl Default for WizardDraft {
    fn default() -> (r: Self)
        ensures
            fresh_draft(r),
    {
        WizardDraft {
            step: WizardStep::Guide,
            background: String::new(),
            foreground: String::new(),
            cursor: String::new(),
            selection: String::new(),
            name: String::new(),
            error: None,
        }
    }
}

/// The step-by-step picker's state.
pub struct WizardState {
    pub mode: AppMode,
    pub home_selected: usize,
    pub themes: Vec<ThemeEntry>,
    pub selected: usize,
    pub status: String,
    pub creator: WizardDraft,
    pub editing_slug: Option<String>,
    pub pending_delete_slug: Option<String>,
}

/// A color text read as channels and written back as `#RRGGBB`.
pub open spec fn read_back(color: Seq<char>) -> Seq<char> {
    rgb_hex(hex_to_rgb_spec(color))
}

/// The custom theme that the creator makes: named as asked, with the slug
/// of its name, the four core colors normalized, the palette that follows
/// from them (given in `ansi`, except entries 4 and 6, which are the cursor
/// and selection colors read back), and "you" as author.
pub open spec fn generated_spec(
    name: Seq<char>,
    background: Seq<char>,
    foreground: Seq<char>,
    cursor: Seq<char>,
    selection: Seq<char>,
    ansi: Seq<Seq<char>>,
) -> ThemeModel {
    ThemeModel {
        name: name,
        slug: slug(name),
        foreground: normalize_hex_spec(foreground),
        background: normalize_hex_spec(background),
        cursor: normalize_hex_spec(cursor),
        selection: normalize_hex_spec(selection),
        ansi: ansi.update(4, read_back(cursor)).update(6, read_back(selection)),
        description: Seq::empty(),
        author: "you"@,
        kind: "custom"@,
        mood: Seq::empty(),
        accent: None,
        success: None,
        warning: None,
        error: None,
    }
}

/// The custom theme made from a name, the four core colors and the palette
/// derived from them. Palette entries 4 and 6 are set here to the cursor and
/// selection colors, read as channels and written back; for colors that are
/// valid after normalizing, that is their normalized form. The other
/// entries come from `ansi`. Every core color must be one whose channels
/// can be taken apart, as the palette is derived from all four.
pub fn generate_custom_theme(
    name: &str,
    background: &str,
    foreground: &str,
    cursor: &str,
    selection: &str,
    ansi: [String; 16],
) -> (r: CustomTheme)
    requires
        channels_sliceable(background@),
        channels_sliceable(foreground@),
        channels_sliceable(cursor@),
        channels_sliceable(selection@),
    ensures
        r@ == generated_spec(
            name@,
            background@,
            foreground@,
            cursor@,
            selection@,
            string_views(ansi@),
        ),
        crate::colors::is_valid_hex_spec(normalize_hex_spec(cursor@)) ==> r@.ansi[4]
            == normalize_hex_spec(cursor@),
        crate::colors::is_valid_hex_spec(normalize_hex_spec(selection@)) ==> r@.ansi[6]
            == normalize_hex_spec(selection@),
{
    let ghost given = string_views(ansi@);
    let mut ansi = ansi;
    ansi[4] = rgb_to_hex(hex_to_rgb(cursor));
    ansi[6] = rgb_to_hex(hex_to_rgb(selection));
    assert(string_views(ansi@) =~= given.update(4, read_back(cursor@)).update(
        6,
        read_back(selection@),
    ));
    proof {
        if crate::colors::is_valid_hex_spec(normalize_hex_spec(cursor@)) {
            crate::colors::law_hex_reads_back(cursor@);
        }
        if crate::colors::is_valid_hex_spec(normalize_hex_spec(selection@)) {
            crate::colors::law_hex_reads_back(selection@);
        }
    }
    let r = CustomTheme {
        name: String::from_str(name),
        slug: slugify(name),
        foreground: normalize_hex(foreground),
        background: normalize_hex(background),
        cursor: normalize_hex(cursor),
        selection: normalize_hex(selection),
        ansi,
        description: String::new(),
        author: String::from_str("you"),
        kind: String::from_str("custom"),
        mood: Vec::new(),
        accent: None,
        success: None,
        warning: None,
        error: None,
    };
    assert(r@.description =~= Seq::<char>::empty());
    assert(r@.mood =~= Seq::<Seq<char>>::empty());
    r
}

/// The step after a color step.
pub open spec fn next_step(step: WizardStep) -> WizardStep {
    match step {
        WizardStep::Guide => WizardStep::Background,
        WizardStep::Background => WizardStep::Foreground,
        WizardStep::Foreground => WizardStep::Cursor,
        WizardStep::Cursor => WizardStep::Selection,
        WizardStep::Selection => WizardStep::Name,
        WizardStep::Name => WizardStep::Review,
        WizardStep::Review => WizardStep::Review,
    }
}

/// The answer that a color step edits.
pub open spec fn step_field(d: WizardDraft) -> String {
    match d.step {
        WizardStep::Background => d.background,
        WizardStep::Foreground => d.foreground,
        WizardStep::Cursor => d.cursor,
        WizardStep::Selection => d.selection,
        _ => d.name,
    }
}

/// The draft with the current step's answer replaced.
pub open spec fn with_step_field(d: WizardDraft, v: String) -> WizardDraft {
    match d.step {
        WizardStep::Background => WizardDraft { background: v, ..d },
        WizardStep::Foreground => WizardDraft { foreground: v, ..d },
        WizardStep::Cursor => WizardDraft { cursor: v, ..d },
        WizardStep::Selection => WizardDraft { selection: v, ..d },
        _ => WizardDraft { name: v, ..d },
    }
}

/// The message for a color answer that does not read as a color.
pub open spec fn wizard_invalid_color() -> Seq<char> {
    "Invalid color. Use #RRGGBB, name, or ANSI index."@
}

/// What a creator key does at a step that asks for text (a color or the
/// name): Backspace and plain characters edit the answer; Enter or Tab
/// accept it, a color only when it reads as one and then in its normal
/// form, the name only when it is not blank.
pub open spec fn text_step_spec(d: WizardDraft, key: KeyInput, e: WizardDraft) -> bool {
    let field = step_field(d);
    match key {
        KeyInput::Backspace => {
            &&& step_field(e)@ == (if field@.len() == 0 {
                field@
            } else {
                field@.drop_last()
            })
            &&& e == with_step_field(d, step_field(e))
        },
        KeyInput::Char { ch, plain } => if plain {
            &&& step_field(e)@ == field@.push(ch)
            &&& e == with_step_field(d, step_field(e))
        } else {
            e == d
        },
        KeyInput::Enter | KeyInput::Tab => if d.step == WizardStep::Name {
            if trim(field@).len() == 0 {
                &&& e == WizardDraft { error: e.error, ..d }
                &&& e.error matches Some(m) && m@ == "Theme name is required."@
            } else {
                e == WizardDraft { error: None, step: WizardStep::Review, ..d }
            }
        } else {
            match parse_color_input_spec(lower_seq(trim(field@))) {
                Some(hex) => {
                    let v = step_field(WizardDraft { step: d.step, ..e });
                    &&& v@ == hex
                    &&& e == WizardDraft { error: None, step: next_step(d.step), ..with_step_field(d, v) }
                },
                None => {
                    &&& e == WizardDraft { error: e.error, ..d }
                    &&& e.error matches Some(m) && m@ == wizard_invalid_color()
                },
            }
        },
        _ => e == d,
    }
}

/// Leaving the creator for the library with a fresh draft.
pub open spec fn leave_creator(s: WizardState, t: WizardState, message: Seq<char>) -> bool {
    &&& t == (WizardState {
        mode: AppMode::Library,
        creator: t.creator,
        editing_slug: None,
        status: t.status,
        ..s
    })
    &&& fresh_draft(t.creator)
    &&& t.status@ == message
}

/// What a creator key does (see [`WizardState::creator_key`]).
pub open spec fn wizard_creator_spec(s: WizardState, key: KeyInput, t: WizardState, r: Action) -> bool {
    let d = s.creator;
    if key is Esc || key == (KeyInput::Char { ch: 'q', plain: true }) || key == (KeyInput::Char {
        ch: 'q',
        plain: false,
    }) {
        r is Stay && leave_creator(s, t, "Creator aborted."@)
    } else {
        match d.step {
            WizardStep::Guide => {
                &&& r is Stay
                &&& if key is Enter || key == (KeyInput::Char { ch: 'p', plain: true }) || key == (
                KeyInput::Char { ch: 'p', plain: false }) {
                    t == (WizardState {
                        creator: WizardDraft { step: WizardStep::Background, error: None, ..d },
                        ..s
                    })
                } else {
                    t == s
                }
            },
            WizardStep::Review => if key is Enter || (key is Char && (key->ch == 'y' || key->ch == 'Y')) {
                r is SaveDraft && t == s
            } else if key is Char && (key->ch == 'n' || key->ch == 'N') {
                r is Stay && leave_creator(s, t, "Creator cancelled."@)
            } else {
                r is Stay && t == s
            },
            _ => {
                &&& r is Stay
                &&& t == (WizardState { creator: t.creator, ..s })
                &&& text_step_spec(d, key, t.creator)
            },
        }
    }
}

/// What confirming the review does to the configuration (see
/// [`WizardState::save_generated`]).
pub open spec fn wizard_saved_config(c: ConfigModel, g: ThemeModel, editing: Option<Seq<char>>) -> ConfigModel {
    match editing {
        Some(e) => {
            let t = ThemeModel { slug: e, ..g };
            if first_theme_match(builtin_themes(), slug(e), 0) is Some {
                ConfigModel {
                    theme: e,
                    custom_themes: c.custom_themes,
                    builtin_overrides: without_slug(c.builtin_overrides, e).push(t),
                }
            } else {
                ConfigModel {
                    theme: e,
                    custom_themes: without_slug(c.custom_themes, e).push(t),
                    builtin_overrides: c.builtin_overrides,
                }
            }
        },
        None => ConfigModel {
            theme: g.slug,
            custom_themes: without_slug(c.custom_themes, g.slug).push(g),
            builtin_overrides: c.builtin_overrides,
        },
    }
}

/// Confirming the review stores the generated theme under the slug that the
/// status reports: the edited theme's slug when editing, otherwise the slug
/// of its name. That slug becomes the active theme, and the list it goes
/// into (the overrides for a bundled theme being edited, the custom themes
/// otherwise) ends with the theme under that slug and holds no other theme
/// with it: an edited theme is replaced, not duplicated.
pub proof fn law_wizard_save_replaces(c: ConfigModel, g: ThemeModel, editing: Option<Seq<char>>)
    ensures
        ({
            let key = match editing {
                Some(e) => e,
                None => g.slug,
            };
            let n = wizard_saved_config(c, g, editing);
            let stored = ThemeModel { slug: key, ..g };
            let bundled = editing is Some && first_theme_match(builtin_themes(), slug(key), 0) is Some;
            &&& n.theme == key
            &&& bundled ==> {
                &&& n.custom_themes == c.custom_themes
                &&& n.builtin_overrides.len() > 0
                &&& n.builtin_overrides.last() == stored
                &&& forall|i: int|
                    0 <= i < n.builtin_overrides.len() - 1 ==> (#[trigger] n.builtin_overrides[i]).slug
                        != key
            }
            &&& !bundled ==> {
                &&& n.builtin_overrides == c.builtin_overrides
                &&& n.custom_themes.len() > 0
                &&& n.custom_themes.last() == stored
                &&& forall|i: int|
                    0 <= i < n.custom_themes.len() - 1 ==> (#[trigger] n.custom_themes[i]).slug != key
            }
        }),
{
    let key = match editing {
        Some(e) => e,
        None => g.slug,
    };
    let stored = ThemeModel { slug: key, ..g };
    assert(editing is None ==> stored == g);
    crate::config::law_saved_theme_is_unique(c.custom_themes, stored);
    crate::config::law_saved_theme_is_unique(c.builtin_overrides, stored);
}

impl WizardState {
    /// What the picker keeps true: there is at least one entry, the
    /// selection points at one, and the launcher's selection is one of its
    /// two items.
    pub open spec fn wf(&self) -> bool {
        &&& self.themes.len() > 0
        &&& self.selected < self.themes.len()
        &&& self.home_selected < 2
    }

    /// The picker as it opens on a configuration.
    pub fn new(saved: &Config) -> (r: WizardState)
        ensures
            r.wf(),
            r.mode == AppMode::Home,
            r.home_selected == 0,
            entry_views(r.themes@) == entries_spec(saved@),
            r.selected as int == current_index_spec(entries_spec(saved@), saved@.theme),
            r.status@ == "SYSTEM_STATUS: OK | Active: Local_Default"@,
            fresh_draft(r.creator),
            r.editing_slug is None,
            r.pending_delete_slug is None,
    {
        let themes = super::build_theme_entries(saved);
        proof {
            crate::config::law_resolved_layout(saved@);
            crate::config::lemma_first_with_slug(
                super::entry_models(entries_spec(saved@)),
                saved@.theme,
                0,
            );
        }
        let selected = current_index(&themes, saved.theme.as_str());
        WizardState {
            mode: AppMode::Home,
            home_selected: 0,
            themes,
            selected,
            status: String::from_str("SYSTEM_STATUS: OK | Active: Local_Default"),
            creator: WizardDraft::default(),
            editing_slug: None,
            pending_delete_slug: None,
        }
    }

    /// Rebuilds the entries from a configuration and selects the first entry
    /// with the given slug (or the first entry).
    fn reload_selecting(&mut self, saved: &Config, slug: &str)
        requires
            old(self).home_selected < 2,
        ensures
            final(self).wf(),
            entry_views(final(self).themes@) == entries_spec(saved@),
            final(self).selected as int == current_index_spec(entries_spec(saved@), slug@),
            *final(self) == (WizardState {
                themes: final(self).themes,
                selected: final(self).selected,
                ..*old(self)
            }),
    {
        let themes = super::build_theme_entries(saved);
        proof {
            crate::config::law_resolved_layout(saved@);
            crate::config::lemma_first_with_slug(
                super::entry_models(entries_spec(saved@)),
                slug@,
                0,
            );
        }
        let selected = current_index(&themes, slug);
        self.themes = themes;
        self.selected = selected;
    }

    fn start_creator(&mut self)
        requires
            old(self).wf(),
        ensures
            final(self).wf(),
            *final(self) == (WizardState {
                mode: AppMode::Creator,
                creator: final(self).creator,
                editing_slug: None,
                status: final(self).status,
                ..*old(self)
            }),
            fresh_draft(final(self).creator),
            final(self).status@ == "Theme creator launched."@,
    {
        self.mode = AppMode::Creator;
        self.creator = WizardDraft::default();
        self.editing_slug = None;
        self.status = String::from_str("Theme creator launched.");
    }

    fn open_library(&mut self)
        requires
            old(self).wf(),
        ensures
            final(self).wf(),
            *final(self) == (WizardState {
                mode: AppMode::Library,
                status: final(self).status,
                ..*old(self)
            }),
            final(self).status@ == "Library opened."@,
    {
        self.mode = AppMode::Library;
        self.status = String::from_str("Library opened.");
    }

    /// The launcher's keys: two items (create, browse), chosen with Enter or
    /// with `1` and `2`.
    pub fn home_key(&mut self, key: KeyInput) -> (r: Action)
        requires
            old(self).wf(),
        ensures
            final(self).wf(),
            wizard_home_spec(*old(self), key, *final(self), r),
    {
        match key {
            KeyInput::Esc => Action::Quit,
            KeyInput::Down => {
                self.home_selected = (self.home_selected + 1) % 2;
                Action::Stay
            },
            KeyInput::Up => {
                self.home_selected = if self.home_selected == 0 {
                    1
                } else {
                    self.home_selected - 1
                };
                Action::Stay
            },
            KeyInput::Enter => {
                if self.home_selected == 0 {
                    self.start_creator();
                } else {
                    self.open_library();
                }
                Action::Stay
            },
            KeyInput::Char { ch, .. } => {
                if ch == 'q' {
                    return Action::Quit;
                } else if ch == 'j' {
                    self.home_selected = (self.home_selected + 1) % 2;
                } else if ch == 'k' {
                    self.home_selected = if self.home_selected == 0 {
                        1
                    } else {
                        self.home_selected - 1
                    };
                } else if ch == '1' {
                    self.start_creator();
                } else if ch == '2' {
                    self.open_library();
                }
                Action::Stay
            },
            _ => Action::Stay,
        }
    }

    /// Whether some entry with this slug is an override.
    fn has_override_entry(&self, slug: &str) -> (r: bool)
        ensures
            r == exists|i: int|
                0 <= i < self.themes.len() && #[trigger] self.themes@[i].slug@ == slug@
                    && self.themes@[i].source == ThemeSource::BuiltInOverride,
    {
        let mut i: usize = 0;
        while i < self.themes.len()
            invariant
                i <= self.themes.len(),
                forall|j: int|
                    0 <= j < i ==> !(#[trigger] self.themes@[j].slug@ == slug@
                        && self.themes@[j].source == ThemeSource::BuiltInOverride),
            decreases self.themes.len() - i,
        {
            if same_text(self.themes[i].slug.as_str(), slug) && self.themes[i].source
                == ThemeSource::BuiltInOverride {
                return true;
            }
            i = i + 1;
        }
        false
    }

    /// The library's keys. While a delete waits for confirmation, `y`
    /// confirms, `n` or Esc cancels and other keys are ignored; otherwise
    /// keys move the selection (wrapping), save, edit, create a new theme
    /// (`n` or `c`) or delete.
    pub fn library_key(&mut self, key: KeyInput) -> (r: Action)
        requires
            old(self).wf(),
        ensures
            final(self).wf(),
            final(self).themes == old(self).themes,
            wizard_library_spec(*old(self), key, *final(self), r),
    {
        if let Some(slug) = &self.pending_delete_slug {
            let slug = slug.clone();
            match key {
                KeyInput::Char { ch, .. } => {
                    if ch == 'y' || ch == 'Y' {
                        let builtin_override = self.has_override_entry(slug.as_str());
                        self.pending_delete_slug = None;
                        return Action::Delete { slug, builtin_override };
                    } else if ch == 'n' || ch == 'N' {
                        self.pending_delete_slug = None;
                        self.status = String::from_str("Delete cancelled.");
                    }
                },
                KeyInput::Esc => {
                    self.pending_delete_slug = None;
                    self.status = String::from_str("Delete cancelled.");
                },
                _ => {},
            }
            return Action::Stay;
        }
        let n = self.themes.len();
        let forward = key == KeyInput::Down || key == (KeyInput::Char { ch: 'j', plain: true })
            || key == (KeyInput::Char { ch: 'j', plain: false });
        let backward = key == KeyInput::Up || key == (KeyInput::Char { ch: 'k', plain: true })
            || key == (KeyInput::Char { ch: 'k', plain: false });
        let save = key == KeyInput::Enter || key == (KeyInput::Char { ch: 'a', plain: true })
            || key == (KeyInput::Char { ch: 'a', plain: false });
        if key == KeyInput::Esc {
            return Action::Quit;
        }
        if forward {
            self.selected = (self.selected + 1) % n;
            self.status = concat3("Previewing ", self.themes[self.selected].name.as_str(), ".");
            return Action::Preview(self.selected);
        }
        if backward {
            self.selected = if self.selected == 0 {
                n - 1
            } else {
                self.selected - 1
            };
            self.status = concat3("Previewing ", self.themes[self.selected].name.as_str(), ".");
            return Action::Preview(self.selected);
        }
        if save {
            let i = self.selected;
            self.status = concat3("Saved ", self.themes[i].slug.as_str(), ".");
            return Action::SaveAndApply(i);
        }
        if let KeyInput::Char { ch, .. } = key {
            if ch == 'q' {
                return Action::Quit;
            } else if ch == 'h' {
                self.mode = AppMode::Home;
                self.status = String::from_str("Returned to launcher.");
            } else if ch == 'n' || ch == 'c' {
                self.start_creator();
            } else if ch == 'e' {
                let i = self.selected;
                let draft = WizardDraft {
                    step: WizardStep::Background,
                    background: self.themes[i].background.clone(),
                    foreground: self.themes[i].foreground.clone(),
                    cursor: self.themes[i].cursor.clone(),
                    selection: self.themes[i].selection.clone(),
                    name: self.themes[i].name.clone(),
                    error: None,
                };
                let slug = self.themes[i].slug.clone();
                self.mode = AppMode::Creator;
                self.creator = draft;
                self.status = concat3("Editing theme '", slug.as_str(), "'.");
                self.editing_slug = Some(slug);
            } else if ch == 'd' {
                let i = self.selected;
                match self.themes[i].source {
                    ThemeSource::Custom => {
                        let slug = self.themes[i].slug.clone();
                        self.status = concat3(
                            "Delete '",
                            slug.as_str(),
                            "' ? Press y to confirm, n to cancel.",
                        );
                        self.pending_delete_slug = Some(slug);
                    },
                    ThemeSource::BuiltInOverride => {
                        let slug = self.themes[i].slug.clone();
                        self.status = concat3(
                            "Revert built-in override '",
                            slug.as_str(),
                            "' ? Press y to confirm, n to cancel.",
                        );
                        self.pending_delete_slug = Some(slug);
                    },
                    ThemeSource::BuiltIn => {
                        self.status = String::from_str(
                            "No override to delete for this built-in theme.",
                        );
                    },
                }
            }
        }
        Action::Stay
    }

    /// After a confirmed delete: reload the entries from the updated
    /// configuration and select its active theme (the caller recolors with
    /// it), or say that nothing was deleted.
    pub fn after_delete(&mut self, slug: &str, deleted: bool, saved: &Config) -> (r: Option<usize>)
        requires
            old(self).wf(),
        ensures
            final(self).wf(),
            deleted ==> {
                &&& entry_views(final(self).themes@) == entries_spec(saved@)
                &&& final(self).selected as int == current_index_spec(
                    entries_spec(saved@),
                    saved@.theme,
                )
                &&& r == Some(final(self).selected)
                &&& final(self).status@ == "Deleted theme customization '"@ + slug@ + "'."@
                &&& *final(self) == (WizardState {
                    themes: final(self).themes,
                    selected: final(self).selected,
                    status: final(self).status,
                    ..*old(self)
                })
            },
            !deleted ==> r is None && *final(self) == (WizardState {
                status: final(self).status,
                ..*old(self)
            }) && final(self).status@ == "Theme not found; nothing deleted."@,
    {
        if deleted {
            self.reload_selecting(saved, saved.theme.as_str());
            self.status = concat3("Deleted theme customization '", slug, "'.");
            Some(self.selected)
        } else {
            self.status = String::from_str("Theme not found; nothing deleted.");
            None
        }
    }

    /// A click in the library's list: a left click on a row (below the two
    /// title rows) selects the entry shown there and asks to preview it.
    pub fn library_click(&mut self, column: u16, row: u16, area_x: u16, area_y: u16, width: u16, height: u16) -> (r: Action)
        requires
            old(self).wf(),
            area_x + width <= u16::MAX,
            area_y + height <= u16::MAX,
        ensures
            final(self).wf(),
            ({
                let inside = old(self).mode == AppMode::Library && area_x <= column < area_x + width
                    && area_y <= row < area_y + height;
                let idx = if row >= area_y + 2 {
                    row - area_y - 2
                } else {
                    0
                };
                if inside && idx < old(self).themes.len() {
                    &&& r matches Action::Preview(i) && i == idx
                    &&& *final(self) == (WizardState {
                        selected: idx as usize,
                        status: final(self).status,
                        ..*old(self)
                    })
                    &&& final(self).status@ == "Previewing "@ + old(self).themes@[idx].name@ + "."@
                } else {
                    r is Stay && *final(self) == *old(self)
                }
            }),
    {
        if self.mode != AppMode::Library {
            return Action::Stay;
        }
        if column < area_x || column >= area_x + width || row < area_y || row >= area_y + height {
            return Action::Stay;
        }
        let offset = row - area_y;
        let idx: usize = if offset >= 2 {
            (offset - 2) as usize
        } else {
            0
        };
        if idx < self.themes.len() {
            self.selected = idx;
            self.status = concat3("Previewing ", self.themes[idx].name.as_str(), ".");
            return Action::Preview(idx);
        }
        Action::Stay
    }

    /// The answer that the current color step edits, or the name.
    fn current_answer(&self) -> (r: String)
        ensures
            r@ == step_field(self.creator)@,
    {
        match self.creator.step {
            WizardStep::Background => self.creator.background.clone(),
            WizardStep::Foreground => self.creator.foreground.clone(),
            WizardStep::Cursor => self.creator.cursor.clone(),
            WizardStep::Selection => self.creator.selection.clone(),
            _ => self.creator.name.clone(),
        }
    }

    fn set_answer(&mut self, v: String)
        ensures
            *final(self) == (WizardState {
                creator: with_step_field(old(self).creator, v),
                ..*old(self)
            }),
    {
        match self.creator.step {
            WizardStep::Background => self.creator.background = v,
            WizardStep::Foreground => self.creator.foreground = v,
            WizardStep::Cursor => self.creator.cursor = v,
            WizardStep::Selection => self.creator.selection = v,
            _ => self.creator.name = v,
        }
    }

    /// A key at a step that asks for text.
    fn text_step_key(&mut self, key: KeyInput)
        requires
            old(self).wf(),
            old(self).creator.step != WizardStep::Guide,
            old(self).creator.step != WizardStep::Review,
        ensures
            final(self).wf(),
            *final(self) == (WizardState { creator: final(self).creator, ..*old(self) }),
            text_step_spec(old(self).creator, key, final(self).creator),
    {
        let current = self.current_answer();
        match key {
            KeyInput::Backspace => {
                let mut v = current;
                pop_char(&mut v);
                self.set_answer(v);
            },
            KeyInput::Char { ch, plain } => {
                if plain {
                    let mut v = current;
                    push_char(&mut v, ch);
                    self.set_answer(v);
                }
            },
            KeyInput::Enter | KeyInput::Tab => {
                if self.creator.step == WizardStep::Name {
                    let trimmed = trim_chars(&chars_of(current.as_str()));
                    if trimmed.len() == 0 {
                        self.creator.error = Some(String::from_str("Theme name is required."));
                    } else {
                        self.creator.error = None;
                        self.creator.step = WizardStep::Review;
                    }
                } else {
                    let value = normalize_color_input(current.as_str());
                    match parse_color_input(value.as_str()) {
                        Some(normalized) => {
                            self.set_answer(normalized);
                            self.creator.error = None;
                            self.creator.step = match self.creator.step {
                                WizardStep::Background => WizardStep::Foreground,
                                WizardStep::Foreground => WizardStep::Cursor,
                                WizardStep::Cursor => WizardStep::Selection,
                                _ => WizardStep::Name,
                            };
                        },
                        None => {
                            self.creator.error = Some(
                                String::from_str(
                                    "Invalid color. Use #RRGGBB, name, or ANSI index.",
                                ),
                            );
                        },
                    }
                }
            },
            _ => {},
        }
    }

    fn leave_creator_with(&mut self, message: &str)
        requires
            old(self).wf(),
        ensures
            final(self).wf(),
            leave_creator(*old(self), *final(self), message@),
    {
        self.mode = AppMode::Library;
        self.creator = WizardDraft::default();
        self.editing_slug = None;
        self.status = String::from_str(message);
    }

    /// The creator's keys: Esc or `q` aborts; the guide starts on Enter or
    /// `p`; the text steps edit and accept answers; the review saves on
    /// Enter or `y` and cancels on `n`.
    pub fn creator_key(&mut self, key: KeyInput) -> (r: Action)
        requires
            old(self).wf(),
        ensures
            final(self).wf(),
            wizard_creator_spec(*old(self), key, *final(self), r),
    {
        let quit = key == KeyInput::Esc || key == (KeyInput::Char { ch: 'q', plain: true }) || key
            == (KeyInput::Char { ch: 'q', plain: false });
        if quit {
            self.leave_creator_with("Creator aborted.");
            return Action::Stay;
        }
        match self.creator.step {
            WizardStep::Guide => {
                let start = key == KeyInput::Enter || key == (KeyInput::Char { ch: 'p', plain: true })
                    || key == (KeyInput::Char { ch: 'p', plain: false });
                if start {
                    self.creator.step = WizardStep::Background;
                    self.creator.error = None;
                }
                Action::Stay
            },
            WizardStep::Review => {
                match key {
                    KeyInput::Enter => Action::SaveDraft,
                    KeyInput::Char { ch, .. } => {
                        if ch == 'y' || ch == 'Y' {
                            Action::SaveDraft
                        } else if ch == 'n' || ch == 'N' {
                            self.leave_creator_with("Creator cancelled.");
                            Action::Stay
                        } else {
                            Action::Stay
                        }
                    },
                    _ => Action::Stay,
                }
            },
            _ => {
                self.text_step_key(key);
                Action::Stay
            },
        }
    }

    /// Confirms the review: saves the theme made from the answers (with
    /// `derived`, the palette that follows from the answered colors; see
    /// [`generate_custom_theme`] for entries 4 and 6) into
    /// the configuration, reloads the entries from it, selects the saved
    /// theme and returns its index for recoloring.
    pub fn save_generated(&mut self, config: &mut Config, derived: [String; 16]) -> (r: usize)
        requires
            old(self).wf(),
            channels_sliceable(old(self).creator.background@),
            channels_sliceable(old(self).creator.foreground@),
            channels_sliceable(old(self).creator.cursor@),
            channels_sliceable(old(self).creator.selection@),
        ensures
            final(self).wf(),
            ({
                let g = generated_spec(
                    trim(old(self).creator.name@),
                    old(self).creator.background@,
                    old(self).creator.foreground@,
                    old(self).creator.cursor@,
                    old(self).creator.selection@,
                    string_views(derived@),
                );
                let editing = super::creator::opt_text(old(self).editing_slug);
                let saved_slug = match editing {
                    Some(e) => e,
                    None => g.slug,
                };
                &&& final(config)@ == wizard_saved_config(old(config)@, g, editing)
                &&& entry_views(final(self).themes@) == entries_spec(final(config)@)
                &&& final(self).selected as int == current_index_spec(
                    entries_spec(final(config)@),
                    saved_slug,
                )
                &&& r == final(self).selected
                &&& final(self).mode == AppMode::Library
                &&& fresh_draft(final(self).creator)
                &&& final(self).editing_slug is None
                &&& final(self).status@ == "Saved "@ + saved_slug + "."@
                &&& final(config)@.theme == saved_slug
                &&& final(self).home_selected == old(self).home_selected
                &&& final(self).pending_delete_slug == old(self).pending_delete_slug
            }),
    {
        let name = string_of(&trim_chars(&chars_of(self.creator.name.as_str())));
        let generated = generate_custom_theme(
            name.as_str(),
            self.creator.background.as_str(),
            self.creator.foreground.as_str(),
            self.creator.cursor.as_str(),
            self.creator.selection.as_str(),
            derived,
        );
        let saved_slug = match &self.editing_slug {
            Some(e) => e.clone(),
            None => generated.slug.clone(),
        };
        match &self.editing_slug {
            Some(editing) => {
                if find_theme(editing.as_str()).is_some() {
                    let o = BuiltinOverride {
                        name: generated.name,
                        slug: editing.clone(),
                        foreground: generated.foreground,
                        background: generated.background,
                        cursor: generated.cursor,
                        selection: generated.selection,
                        ansi: generated.ansi,
                        description: generated.description,
                        author: generated.author,
                        kind: generated.kind,
                        mood: generated.mood,
                        accent: generated.accent,
                        success: generated.success,
                        warning: generated.warning,
                        error: generated.error,
                    };
                    save_builtin_override(config, o);
                } else {
                    let mut ct = generated;
                    ct.slug = editing.clone();
                    save_custom_theme(config, ct);
                }
            },
            None => {
                save_custom_theme(config, generated);
            },
        }
        self.reload_selecting(config, saved_slug.as_str());
        self.mode = AppMode::Library;
        self.creator = WizardDraft::default();
        self.editing_slug = None;
        self.status = concat3("Saved ", saved_slug.as_str(), ".");
        self.selected
    }
}

/// Starting a fresh creator from the launcher or the library.
pub open spec fn creator_started(s: WizardState, t: WizardState) -> bool {
    &&& t == (WizardState {
        mode: AppMode::Creator,
        creator: t.creator,
        editing_slug: None,
        status: t.status,
        ..s
    })
    &&& fresh_draft(t.creator)
    &&& t.status@ == "Theme creator launched."@
}

/// Opening the library from the launcher.
pub open spec fn library_opened(s: WizardState, t: WizardState) -> bool {
    &&& t == (WizardState { mode: AppMode::Library, status: t.status, ..s })
    &&& t.status@ == "Library opened."@
}

/// The launcher's selection one item down, wrapping.
pub open spec fn home_down(s: WizardState) -> WizardState {
    WizardState { home_selected: ((s.home_selected + 1) % 2) as usize, ..s }
}

/// The launcher's selection one item up, wrapping.
pub open spec fn home_up(s: WizardState) -> WizardState {
    WizardState {
        home_selected: if s.home_selected == 0 {
            1
        } else {
            (s.home_selected - 1) as usize
        },
        ..s
    }
}

/// What a launcher key does (see [`WizardState::home_key`]).
pub open spec fn wizard_home_spec(s: WizardState, key: KeyInput, t: WizardState, r: Action) -> bool {
    match key {
        KeyInput::Esc => r is Quit && t == s,
        KeyInput::Down => r is Stay && t == home_down(s),
        KeyInput::Up => r is Stay && t == home_up(s),
        KeyInput::Enter => r is Stay && if s.home_selected == 0 {
            creator_started(s, t)
        } else {
            library_opened(s, t)
        },
        KeyInput::Char { ch, .. } => if ch == 'q' {
            r is Quit && t == s
        } else if ch == 'j' {
            r is Stay && t == home_down(s)
        } else if ch == 'k' {
            r is Stay && t == home_up(s)
        } else if ch == '1' {
            r is Stay && creator_started(s, t)
        } else if ch == '2' {
            r is Stay && library_opened(s, t)
        } else {
            r is Stay && t == s
        },
        _ => r is Stay && t == s,
    }
}

/// What a library key does (see [`WizardState::library_key`]).
pub open spec fn wizard_library_spec(s: WizardState, key: KeyInput, t: WizardState, r: Action) -> bool {
    let n = s.themes.len() as int;
    if s.pending_delete_slug is Some {
        let slug = s.pending_delete_slug->0;
        if key is Char && (key->ch == 'y' || key->ch == 'Y') {
            &&& r matches Action::Delete { slug: d, builtin_override } && d@ == slug@ && builtin_override
                == exists|i: int|
                0 <= i < s.themes.len() && #[trigger] s.themes@[i].slug@ == slug@
                    && s.themes@[i].source == ThemeSource::BuiltInOverride
            &&& t == (WizardState { pending_delete_slug: None, ..s })
        } else if key is Esc || (key is Char && (key->ch == 'n' || key->ch == 'N')) {
            &&& r is Stay
            &&& t == (WizardState { pending_delete_slug: None, status: t.status, ..s })
            &&& t.status@ == "Delete cancelled."@
        } else {
            r is Stay && t == s
        }
    } else if key is Esc || (key is Char && key->ch == 'q') {
        r is Quit && t == s
    } else if key is Down || (key is Char && key->ch == 'j') {
        let target = (s.selected + 1) % n;
        &&& r matches Action::Preview(i) && i == target
        &&& t == (WizardState { selected: target as usize, status: t.status, ..s })
        &&& t.status@ == "Previewing "@ + s.themes@[target].name@ + "."@
    } else if key is Up || (key is Char && key->ch == 'k') {
        let target = if s.selected == 0 {
            n - 1
        } else {
            s.selected - 1
        };
        &&& r matches Action::Preview(i) && i == target
        &&& t == (WizardState { selected: target as usize, status: t.status, ..s })
        &&& t.status@ == "Previewing "@ + s.themes@[target].name@ + "."@
    } else if key is Enter || (key is Char && key->ch == 'a') {
        &&& r matches Action::SaveAndApply(i) && i == s.selected
        &&& t == (WizardState { status: t.status, ..s })
        &&& t.status@ == "Saved "@ + s.themes@[s.selected as int].slug@ + "."@
    } else if key is Char && key->ch == 'h' {
        &&& r is Stay
        &&& t == (WizardState { mode: AppMode::Home, status: t.status, ..s })
        &&& t.status@ == "Returned to launcher."@
    } else if key is Char && (key->ch == 'n' || key->ch == 'c') {
        &&& r is Stay
        &&& t == (WizardState {
            mode: AppMode::Creator,
            creator: t.creator,
            editing_slug: None,
            status: t.status,
            ..s
        })
        &&& fresh_draft(t.creator)
        &&& t.status@ == "Theme creator launched."@
    } else if key is Char && key->ch == 'e' {
        let e = s.themes@[s.selected as int];
        &&& r is Stay
        &&& t == (WizardState {
            mode: AppMode::Creator,
            creator: t.creator,
            editing_slug: t.editing_slug,
            status: t.status,
            ..s
        })
        &&& t.creator.step == WizardStep::Background
        &&& t.creator.background@ == e.background@
        &&& t.creator.foreground@ == e.foreground@
        &&& t.creator.cursor@ == e.cursor@
        &&& t.creator.selection@ == e.selection@
        &&& t.creator.name@ == e.name@
        &&& t.creator.error is None
        &&& t.editing_slug matches Some(slug) && slug@ == e.slug@
        &&& t.status@ == "Editing theme '"@ + e.slug@ + "'."@
    } else if key is Char && key->ch == 'd' {
        let e = s.themes@[s.selected as int];
        &&& r is Stay
        &&& match e.source {
            ThemeSource::BuiltIn => {
                &&& t == (WizardState { status: t.status, ..s })
                &&& t.status@ == "No override to delete for this built-in theme."@
            },
            ThemeSource::Custom => {
                &&& t == (WizardState {
                    status: t.status,
                    pending_delete_slug: t.pending_delete_slug,
                    ..s
                })
                &&& t.pending_delete_slug matches Some(p) && p@ == e.slug@
                &&& t.status@ == "Delete '"@ + e.slug@ + "' ? Press y to confirm, n to cancel."@
            },
            ThemeSource::BuiltInOverride => {
                &&& t == (WizardState {
                    status: t.status,
                    pending_delete_slug: t.pending_delete_slug,
                    ..s
                })
                &&& t.pending_delete_slug matches Some(p) && p@ == e.slug@
                &&& t.status@ == "Revert built-in override '"@ + e.slug@
                    + "' ? Press y to confirm, n to cancel."@
            },
        }
    } else {
        r is Stay && t == s
    }
}

} // verus!
