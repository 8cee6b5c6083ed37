//! The state of the interactive picker and the decisions it makes on each
//! key press. Drawing the screen, reading events and writing to the terminal
//! and the configuration file are the application's part: the functions
//! here return an [`Action`] that says what outside work a key asks for.
use vstd::prelude::*;

use crate::config::{
    copy_opt, copy_palette, copy_strings, first_with_slug, lemma_first_with_slug, opt_view,
    palette_of, resolved_spec, save_custom_theme, save_selected_theme, strings_of, Config,
    ConfigModel, CustomTheme, ResolvedTheme, ResolvedThemeSource, ThemeModel, builtin_model,
    resolved_views,
};
use crate::apply::string_views;
use crate::text::same_text;
use crate::theme::{find_theme, Theme};

pub use crate::text::slugify;

pub mod creator;
pub mod home;
pub mod library;
pub mod wizard;

verus! {

/// Where a picker entry comes from.
#[derive(Clone, Copy, Debug, PartialEq, Eq, Structural)]
pub enum ThemeSource {
    BuiltIn,
    BuiltInOverride,
    Custom,
}

/// The picker's source for a resolved theme's source.
pub open spec fn source_of(s: ResolvedThemeSource) -> ThemeSource {
    match s {
        ResolvedThemeSource::BuiltIn => ThemeSource::BuiltIn,
        ResolvedThemeSource::BuiltInOverride => ThemeSource::BuiltInOverride,
        ResolvedThemeSource::Custom => ThemeSource::Custom,
    }
}

/// A theme as the picker lists it.
#[derive(Debug, PartialEq, Eq)]
pub struct ThemeEntry {
    pub name: String,
    pub slug: String,
    pub foreground: String,
    pub background: String,
    pub cursor: String,
    pub selection: String,
    pub ansi: [String; 16],
    pub source: ThemeSource,
    pub description: String,
    pub author: String,
    pub kind: String,
    pub mood: Vec<String>,
    pub accent: Option<String>,
    pub success: Option<String>,
    pub warning: Option<String>,
    pub error: Option<String>,
}

impl View for ThemeEntry {
    type V = (ThemeModel, ThemeSource);

    open spec fn view(&self) -> (ThemeModel, ThemeSource) {
        (
            ThemeModel {
                name: self.name@,
                slug: self.slug@,
                foreground: self.foreground@,
                background: self.background@,
                cursor: self.cursor@,
                selection: self.selection@,
                ansi: string_views(self.ansi@),
                description: self.description@,
                author: self.author@,
                kind: self.kind@,
                mood: string_views(self.mood@),
                accent: opt_view(self.accent),
                success: opt_view(self.success),
                warning: opt_view(self.warning),
                error: opt_view(self.error),
            },
            self.source,
        )
    }
}

/// A color that a theme may name, or the palette entry that stands in for it.
pub open spec fn color_or(named: Option<Seq<char>>, fallback: Seq<char>) -> Seq<char> {
    match named {
        Some(c) => c,
        None => fallback,
    }
}

/// The views of a list of entries.
pub open spec fn entry_views(v: Seq<ThemeEntry>) -> Seq<(ThemeModel, ThemeSource)> {
    v.map_values(|e: ThemeEntry| e@)
}

/// The contents of a list of entries, without their sources.
pub open spec fn entry_models(v: Seq<(ThemeModel, ThemeSource)>) -> Seq<ThemeModel> {
    v.map_values(|e: (ThemeModel, ThemeSource)| e.0)
}

/// The picker's entries for a configuration: its resolved themes, in order.
pub open spec fn entries_spec(c: ConfigModel) -> Seq<(ThemeModel, ThemeSource)> {
    resolved_spec(c).map_values(
        |r: (ThemeModel, ResolvedThemeSource)| (r.0, source_of(r.1)),
    )
}

/// The entry that a configuration makes current: the first with the active
/// slug, or the first entry when none has it.
pub open spec fn current_index_spec(entries: Seq<(ThemeModel, ThemeSource)>, slug: Seq<char>) -> int {
    match first_with_slug(entry_models(entries), slug, 0) {
        Some(i) => i,
        None => 0,
    }
}

impl ThemeEntry {
    /// The entry for a bundled theme.
    pub fn from_builtin(theme: &Theme) -> (r: ThemeEntry)
        ensures
            r@ == (builtin_model(*theme), ThemeSource::BuiltIn),
    {
        ThemeEntry {
            name: String::from_str(theme.name),
            slug: String::from_str(theme.slug),
            foreground: String::from_str(theme.foreground),
            background: String::from_str(theme.background),
            cursor: String::from_str(theme.cursor),
            selection: String::from_str(theme.selection),
            ansi: palette_of(&theme.ansi),
            source: ThemeSource::BuiltIn,
            description: String::from_str(theme.description),
            author: String::from_str(theme.author),
            kind: String::from_str(theme.kind),
            mood: strings_of(theme.mood),
            accent: None,
            success: None,
            warning: None,
            error: None,
        }
    }

    /// The entry for a custom theme.
    pub fn from_custom(theme: &CustomTheme) -> (r: ThemeEntry)
        ensures
            r@ == (theme@, ThemeSource::Custom),
    {
        ThemeEntry {
            name: theme.name.clone(),
            slug: theme.slug.clone(),
            foreground: theme.foreground.clone(),
            background: theme.background.clone(),
            cursor: theme.cursor.clone(),
            selection: theme.selection.clone(),
            ansi: copy_palette(&theme.ansi),
            source: ThemeSource::Custom,
            description: theme.description.clone(),
            author: theme.author.clone(),
            kind: theme.kind.clone(),
            mood: copy_strings(&theme.mood),
            accent: copy_opt(&theme.accent),
            success: copy_opt(&theme.success),
            warning: copy_opt(&theme.warning),
            error: copy_opt(&theme.error),
        }
    }

    /// The entry for a resolved theme.
    pub fn from_resolved(theme: ResolvedTheme) -> (r: ThemeEntry)
        ensures
            r@ == (theme@.0, source_of(theme@.1)),
    {
        let source = match theme.source {
            ResolvedThemeSource::BuiltIn => ThemeSource::BuiltIn,
            ResolvedThemeSource::BuiltInOverride => ThemeSource::BuiltInOverride,
            ResolvedThemeSource::Custom => ThemeSource::Custom,
        };
        ThemeEntry {
            name: theme.name,
            slug: theme.slug,
            foreground: theme.foreground,
            background: theme.background,
            cursor: theme.cursor,
            selection: theme.selection,
            ansi: theme.ansi,
            source,
            description: theme.description,
            author: theme.author,
            kind: theme.kind,
            mood: theme.mood,
            accent: theme.accent,
            success: theme.success,
            warning: theme.warning,
            error: theme.error,
        }
    }

    /// The custom theme with this entry's contents.
    pub fn to_custom_theme(&self) -> (r: CustomTheme)
        ensures
            r@ == self@.0,
    {
        CustomTheme {
            name: self.name.clone(),
            slug: self.slug.clone(),
            foreground: self.foreground.clone(),
            background: self.background.clone(),
            cursor: self.cursor.clone(),
            selection: self.selection.clone(),
            ansi: copy_palette(&self.ansi),
            description: self.description.clone(),
            author: self.author.clone(),
            kind: self.kind.clone(),
            mood: copy_strings(&self.mood),
            accent: copy_opt(&self.accent),
            success: copy_opt(&self.success),
            warning: copy_opt(&self.warning),
            error: copy_opt(&self.error),
        }
    }

    /// A copy with the same contents.
    pub fn copy(&self) -> (r: ThemeEntry)
        ensures
            r@ == self@,
    {
        ThemeEntry {
            name: self.name.clone(),
            slug: self.slug.clone(),
            foreground: self.foreground.clone(),
            background: self.background.clone(),
            cursor: self.cursor.clone(),
            selection: self.selection.clone(),
            ansi: copy_palette(&self.ansi),
            source: self.source,
            description: self.description.clone(),
            author: self.author.clone(),
            kind: self.kind.clone(),
            mood: copy_strings(&self.mood),
            accent: copy_opt(&self.accent),
            success: copy_opt(&self.success),
            warning: copy_opt(&self.warning),
            error: copy_opt(&self.error),
        }
    }

    /// The success color: the theme's own, or palette entry 2.
    pub fn success_color(&self) -> (r: &str)
        ensures
            r@ == color_or(self@.0.success, self@.0.ansi[2]),
    {
        match &self.success {
            Some(c) => c.as_str(),
            None => self.ansi[2].as_str(),
        }
    }

    /// The warning color: the theme's own, or palette entry 3.
    pub fn warning_color(&self) -> (r: &str)
        ensures
            r@ == color_or(self@.0.warning, self@.0.ansi[3]),
    {
        match &self.warning {
            Some(c) => c.as_str(),
            None => self.ansi[3].as_str(),
        }
    }

    /// The error color: the theme's own, or palette entry 1.
    pub fn error_color(&self) -> (r: &str)
        ensures
            r@ == color_or(self@.0.error, self@.0.ansi[1]),
    {
        match &self.error {
            Some(c) => c.as_str(),
            None => self.ansi[1].as_str(),
        }
    }
}

/// The picker's entries for a configuration.
pub fn build_theme_entries(saved: &Config) -> (r: Vec<ThemeEntry>)
    ensures
        entry_views(r@) == entries_spec(saved@),
{
    let resolved = saved.resolved_themes();
    let ghost spec = entries_spec(saved@);
    let mut out: Vec<ThemeEntry> = Vec::new();
    let mut rest = resolved;
    let ghost all = resolved_views(rest@);
    let mut k: usize = 0;
    assert(all.len() == rest.len());
    assert(rest@.skip(0) =~= rest@);
    while rest.len() > 0
        invariant
            k + rest.len() == all.len(),
            all.len() <= usize::MAX,
            all == resolved_spec(saved@),
            resolved_views(rest@) == all.skip(k as int),
            out.len() == k,
            forall|i: int|
                0 <= i < k ==> #[trigger] out@[i]@ == (all[i].0, source_of(all[i].1)),
        decreases rest.len(),
    {
        let ghost prev = resolved_views(rest@);
        let t = rest.remove(0);
        proof {
            assert(resolved_views(rest@) =~= prev.drop_first());
            assert(prev[0] == all[k as int]);
        }
        out.push(ThemeEntry::from_resolved(t));
        k = k + 1;
        proof {
            assert(resolved_views(rest@) =~= all.skip(k as int));
        }
    }
    assert(entry_views(out@) =~= spec);
    out
}

/// The index of the first entry with the given slug, or 0.
pub fn current_index(entries: &Vec<ThemeEntry>, slug: &str) -> (r: usize)
    ensures
        r as int == current_index_spec(entry_views(entries@), slug@),
{
    let ghost models = entry_models(entry_views(entries@));
    let mut i: usize = 0;
    while i < entries.len()
        invariant
            i <= entries.len(),
            models == entry_models(entry_views(entries@)),
            first_with_slug(models, slug@, 0) == first_with_slug(models, slug@, i as int),
        decreases entries.len() - i,
    {
        assert(models[i as int] == entries@[i as int]@.0);
        if same_text(entries[i].slug.as_str(), slug) {
            return i;
        }
        i = i + 1;
    }
    0
}

/// A bundled theme that an entry names is missing from the bundled list.
pub enum EntryError {
    MissingBuiltIn(String),
}

/// Saves a picker entry as the active theme: a bundled or overridden entry
/// by making its bundled theme active, a custom entry by saving it.
pub fn save_selected_entry(config: &mut Config, theme: &ThemeEntry) -> (r: Result<(), EntryError>)
    ensures
        match theme@.1 {
            ThemeSource::Custom => r is Ok && final(config)@.custom_themes
                == crate::config::without_slug(old(config)@.custom_themes, theme@.0.slug).push(
                theme@.0,
            ) && final(config)@.theme == theme@.0.slug && final(config)@.builtin_overrides
                == old(config)@.builtin_overrides,
            _ => match crate::theme::first_theme_match(
                crate::theme::builtin_themes(),
                crate::text::slug(theme@.0.slug),
                0,
            ) {
                Some(b) => r is Ok && final(config)@.theme == b.slug@
                    && final(config)@.custom_themes == old(config)@.custom_themes
                    && final(config)@.builtin_overrides == old(config)@.builtin_overrides,
                None => r matches Err(EntryError::MissingBuiltIn(s)) && s@ == theme@.0.slug
                    && final(config)@ == old(config)@,
            },
        },
{
    match theme.source {
        ThemeSource::BuiltIn | ThemeSource::BuiltInOverride => {
            match find_theme(theme.slug.as_str()) {
                Some(built_in) => {
                    save_selected_theme(config, &built_in);
                    Ok(())
                },
                None => Err(EntryError::MissingBuiltIn(theme.slug.clone())),
            }
        },
        ThemeSource::Custom => {
            save_custom_theme(config, theme.to_custom_theme());
            Ok(())
        },
    }
}

/// Which screen the picker shows.
#[derive(Clone, Copy, Debug, PartialEq, Eq, Structural)]
pub enum AppMode {
    Home,
    Library,
    Creator,
}

/// The field of the theme creator that has the focus.
#[derive(Clone, Copy, Debug, PartialEq, Eq, Structural)]
pub enum CreatorFocus {
    Name,
    Mood,
    Background,
    Foreground,
    Cursor,
    Selection,
    Accent,
    Success,
    Warning,
    Error,
    AnsiToggle,
}

/// The creator's fields in Tab order, starting at the name.
pub open spec fn focus_index(f: CreatorFocus) -> int {
    match f {
        CreatorFocus::Name => 0,
        CreatorFocus::Mood => 1,
        CreatorFocus::Background => 2,
        CreatorFocus::Foreground => 3,
        CreatorFocus::Cursor => 4,
        CreatorFocus::Selection => 5,
        CreatorFocus::Accent => 6,
        CreatorFocus::Success => 7,
        CreatorFocus::Warning => 8,
        CreatorFocus::Error => 9,
        CreatorFocus::AnsiToggle => 10,
    }
}

impl CreatorFocus {
    /// The next field in Tab order, wrapping from the last to the first.
    pub fn next(self) -> (r: Self)
        ensures
            focus_index(r) == (focus_index(self) + 1) % 11,
    {
        match self {
            CreatorFocus::Name => CreatorFocus::Mood,
            CreatorFocus::Mood => CreatorFocus::Background,
            CreatorFocus::Background => CreatorFocus::Foreground,
            CreatorFocus::Foreground => CreatorFocus::Cursor,
            CreatorFocus::Cursor => CreatorFocus::Selection,
            CreatorFocus::Selection => CreatorFocus::Accent,
            CreatorFocus::Accent => CreatorFocus::Success,
            CreatorFocus::Success => CreatorFocus::Warning,
            CreatorFocus::Warning => CreatorFocus::Error,
            CreatorFocus::Error => CreatorFocus::AnsiToggle,
            CreatorFocus::AnsiToggle => CreatorFocus::Name,
        }
    }

    /// The previous field in Tab order, wrapping from the first to the last.
    pub fn prev(self) -> (r: Self)
        ensures
            focus_index(r) == (focus_index(self) + 10) % 11,
    {
        match self {
            CreatorFocus::Name => CreatorFocus::AnsiToggle,
            CreatorFocus::Mood => CreatorFocus::Name,
            CreatorFocus::Background => CreatorFocus::Mood,
            CreatorFocus::Foreground => CreatorFocus::Background,
            CreatorFocus::Cursor => CreatorFocus::Foreground,
            CreatorFocus::Selection => CreatorFocus::Cursor,
            CreatorFocus::Accent => CreatorFocus::Selection,
            CreatorFocus::Success => CreatorFocus::Accent,
            CreatorFocus::Warning => CreatorFocus::Success,
            CreatorFocus::Error => CreatorFocus::Warning,
            CreatorFocus::AnsiToggle => CreatorFocus::Error,
        }
    }
}

/// Two fields are the same exactly when their Tab positions are.
pub proof fn lemma_focus_index_injective(a: CreatorFocus, b: CreatorFocus)
    ensures
        focus_index(a) == focus_index(b) ==> a == b,
        0 <= focus_index(a) < 11,
{
}

/// Moving the focus forward and then back (or back and then forward)
/// returns to the same field.
pub proof fn law_focus_next_prev_inverse(f: CreatorFocus, g: CreatorFocus, h: CreatorFocus)
    requires
        focus_index(g) == (focus_index(f) + 1) % 11,
        focus_index(h) == (focus_index(g) + 10) % 11,
    ensures
        h == f,
{
    lemma_focus_index_injective(h, f);
    lemma_focus_index_injective(g, f);
}

/// The theme creator's draft.
#[derive(Debug, PartialEq, Eq)]
pub struct CreatorState {
    pub name: String,
    pub mood: Vec<String>,
    pub background: String,
    pub foreground: String,
    pub cursor: String,
    pub selection: String,
    pub accent: String,
    pub success: String,
    pub warning: String,
    pub error: String,
    /// Whether the palette is derived from the core colors.
    pub ansi_auto: bool,
    pub ansi: [String; 16],
    /// The message for the last rejected input.
    pub error_msg: Option<String>,
}

/// The draft a new theme starts from.
pub open spec fn default_draft(s: CreatorState) -> bool {
    &&& s.name@ == "my-theme"@
    &&& string_views(s.mood@) == seq!["dark"@]
    &&& s.background@ == "#1A1B26"@
    &&& s.foreground@ == "#C0CAF5"@
    &&& s.cursor@ == "#C0CAF5"@
    &&& s.selection@ == "#33467C"@
    &&& s.accent@ == "#E0AF68"@
    &&& s.success@ == "#9ECE6A"@
    &&& s.warning@ == "#E0AF68"@
    &&& s.error@ == "#F7768E"@
    &&& s.ansi_auto
    &&& forall|i: int| 0 <= i < 16 ==> #[trigger] s.ansi@[i]@ == "#000000"@
    &&& s.error_msg is None
}

impl Default for CreatorState {
    fn default() -> (r: Self)
        ensures
            default_draft(r),
    {
        let mut mood: Vec<String> = Vec::new();
        mood.push(String::from_str("dark"));
        assert(string_views(mood@) =~= seq!["dark"@]);
        CreatorState {
            name: String::from_str("my-theme"),
            mood,
            background: String::from_str("#1A1B26"),
            foreground: String::from_str("#C0CAF5"),
            cursor: String::from_str("#C0CAF5"),
            selection: String::from_str("#33467C"),
            accent: String::from_str("#E0AF68"),
            success: String::from_str("#9ECE6A"),
            warning: String::from_str("#E0AF68"),
            error: String::from_str("#F7768E"),
            ansi_auto: true,
            ansi: [
                String::from_str("#000000"),
                String::from_str("#000000"),
                String::from_str("#000000"),
                String::from_str("#000000"),
                String::from_str("#000000"),
                String::from_str("#000000"),
                String::from_str("#000000"),
                String::from_str("#000000"),
                String::from_str("#000000"),
                String::from_str("#000000"),
                String::from_str("#000000"),
                String::from_str("#000000"),
                String::from_str("#000000"),
                String::from_str("#000000"),
                String::from_str("#000000"),
                String::from_str("#000000"),
            ],
            error_msg: None,
        }
    }
}

/// A key press, as the picker distinguishes them. `plain` tells whether a
/// character came with no modifier or with Shift only.
#[derive(Clone, Copy, Debug, PartialEq, Eq, Structural)]
pub enum KeyInput {
    Char { ch: char, plain: bool },
    Enter,
    Esc,
    Tab,
    BackTab,
    Backspace,
    Up,
    Down,
    Other,
}

/// The outside work that a key press asks for.
pub enum Action {
    /// Nothing beyond the state change.
    Stay,
    /// Leave the picker.
    Quit,
    /// Recolor the terminal with the entry at this index.
    Preview(usize),
    /// Save the entry at this index as the active theme, then recolor.
    SaveAndApply(usize),
    /// Delete the custom theme, or the override, with this slug; then call
    /// [`AppState::after_delete`].
    Delete { slug: String, builtin_override: bool },
    /// Save the creator's draft: call [`AppState::save_draft`].
    SaveDraft,
    /// Recolor the terminal with the creator's draft.
    PreviewDraft,
    /// Fill the draft's colors with random ones.
    Randomize,
}

/// The picker's state, apart from what only drawing needs.
pub struct AppState {
    pub mode: AppMode,
    pub home_selected: usize,
    pub themes: Vec<ThemeEntry>,
    pub selected: usize,
    pub status: String,
    pub creator: CreatorState,
    pub creator_focus: CreatorFocus,
    pub editing_slug: Option<String>,
    pub pending_delete_slug: Option<String>,
    pub lib_search_query: String,
    pub lib_search_active: bool,
    pub lib_filter: library::LibFilter,
    pub lib_filtered_indices: Vec<usize>,
}

impl AppState {
    /// What the picker keeps true: there is at least one entry, the
    /// selection and every filtered index point at one, and the launcher's
    /// selection is one of its four items.
    pub open spec fn wf(&self) -> bool {
        &&& self.themes.len() > 0
        &&& self.selected < self.themes.len()
        &&& self.home_selected < 4
        &&& forall|i: int|
            0 <= i < self.lib_filtered_indices.len() ==> #[trigger] self.lib_filtered_indices@[i]
                < self.themes.len()
    }

    /// The picker as it opens on a configuration: the launcher, with the
    /// configuration's active theme selected.
    pub fn new(saved: &Config) -> (r: AppState)
        ensures
            r.wf(),
            r.mode == AppMode::Home,
            r.home_selected == 0,
            entry_views(r.themes@) == entries_spec(saved@),
            r.selected as int == current_index_spec(entries_spec(saved@), saved@.theme),
            r.status@ == "Ready."@,
            default_draft(r.creator),
            r.creator_focus == CreatorFocus::Name,
            r.editing_slug is None,
            r.pending_delete_slug is None,
            r.lib_search_query@.len() == 0,
            !r.lib_search_active,
            r.lib_filter == library::LibFilter::All,
            r.lib_filtered_indices@ == library::filtered_spec(
                entries_spec(saved@),
                library::LibFilter::All,
                Seq::empty(),
                entries_spec(saved@).len() as int,
            ),
    {
        let themes = build_theme_entries(saved);
        proof {
            crate::config::law_resolved_layout(saved@);
            lemma_first_with_slug(entry_models(entries_spec(saved@)), saved@.theme, 0);
        }
        let selected = current_index(&themes, saved.theme.as_str());
        let mut app = AppState {
            mode: AppMode::Home,
            home_selected: 0,
            themes,
            selected,
            status: String::from_str("Ready."),
            creator: CreatorState::default(),
            creator_focus: CreatorFocus::Name,
            editing_slug: None,
            pending_delete_slug: None,
            lib_search_query: String::new(),
            lib_search_active: false,
            lib_filter: library::LibFilter::All,
            lib_filtered_indices: Vec::new(),
        };
        app.recompute_filtered();
        app
    }

    /// The entry the picker shows as current.
    pub fn active_theme(&self) -> (r: &ThemeEntry)
        requires
            self.wf(),
        ensures
            *r == self.themes@[self.selected as int],
    {
        &self.themes[self.selected]
    }

    /// The index of the current entry.
    pub fn active_idx(&self) -> (r: usize)
        ensures
            r == self.selected,
    {
        self.selected
    }

    /// A copy of the entry selected in the library, if the selection points
    /// at one.
    pub fn focused_library_theme(&self) -> (r: Option<ThemeEntry>)
        ensures
            self.selected < self.themes.len() ==> (r matches Some(e) && e@
                == self.themes@[self.selected as int]@),
            self.selected >= self.themes.len() ==> r is None,
    {
        if self.selected < self.themes.len() {
            Some(self.themes[self.selected].copy())
        } else {
            None
        }
    }

    /// Rebuilds the entries from a configuration, selects its active theme
    /// and refilters the library.
    pub fn reload_themes(&mut self, saved: &Config)
        requires
            old(self).home_selected < 4,
        ensures
            final(self).wf(),
            entry_views(final(self).themes@) == entries_spec(saved@),
            final(self).selected as int == current_index_spec(entries_spec(saved@), saved@.theme),
            final(self).lib_filtered_indices@ == library::filtered_spec(
                entries_spec(saved@),
                old(self).lib_filter,
                old(self).lib_search_query@,
                entries_spec(saved@).len() as int,
            ),
            final(self).mode == old(self).mode,
            final(self).home_selected == old(self).home_selected,
            final(self).status == old(self).status,
            final(self).creator == old(self).creator,
            final(self).creator_focus == old(self).creator_focus,
            final(self).editing_slug == old(self).editing_slug,
            final(self).pending_delete_slug == old(self).pending_delete_slug,
            final(self).lib_search_query == old(self).lib_search_query,
            final(self).lib_search_active == old(self).lib_search_active,
            final(self).lib_filter == old(self).lib_filter,
    {
        let themes = build_theme_entries(saved);
        proof {
            crate::config::law_resolved_layout(saved@);
            lemma_first_with_slug(entry_models(entries_spec(saved@)), saved@.theme, 0);
        }
        let selected = current_index(&themes, saved.theme.as_str());
        self.themes = themes;
        self.selected = selected;
        self.recompute_filtered();
    }
}

} // verus!
