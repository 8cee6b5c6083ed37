//! The saved configuration: the active theme, the user's custom themes and
//! their overrides of bundled themes, and how these resolve into the list of
//! themes that the picker and the command line show.
//!
//! Reading and writing the configuration file is the application's part;
//! the functions here compute the new configuration.
use vstd::prelude::*;

use crate::apply::{str_views, string_views};
use crate::text::{same_text, slug, slugify};
use crate::theme::{builtin_themes, default_theme, themes, Theme};

verus! {

/// The saved configuration.
#[derive(Debug, PartialEq, Eq)]
pub struct Config {
    /// Slug of the active theme.
    pub theme: String,
    pub custom_themes: Vec<CustomTheme>,
    pub builtin_overrides: Vec<BuiltinOverride>,
}

/// A theme that the user created.
#[derive(Debug, PartialEq, Eq)]
pub struct CustomTheme {
    pub name: String,
    pub slug: String,
    pub foreground: String,
    pub background: String,
    pub cursor: String,
    pub selection: String,
    pub ansi: [String; 16],
    pub description: String,
    pub author: String,
    pub kind: String,
    pub mood: Vec<String>,
    pub accent: Option<String>,
    pub success: Option<String>,
    pub warning: Option<String>,
    pub error: Option<String>,
}

/// The user's edited version of a bundled theme, under the bundled slug.
#[derive(Debug, PartialEq, Eq)]
pub struct BuiltinOverride {
    pub name: String,
    pub slug: String,
    pub foreground: String,
    pub background: String,
    pub cursor: String,
    pub selection: String,
    pub ansi: [String; 16],
    pub description: String,
    pub author: String,
    pub kind: String,
    pub mood: Vec<String>,
    pub accent: Option<String>,
    pub success: Option<String>,
    pub warning: Option<String>,
    pub error: Option<String>,
}

/// A theme as the picker and the command line list it.
#[derive(Debug, PartialEq, Eq)]
pub struct ResolvedTheme {
    pub name: String,
    pub slug: String,
    pub foreground: String,
    pub background: String,
    pub cursor: String,
    pub selection: String,
    pub ansi: [String; 16],
    pub source: ResolvedThemeSource,
    pub description: String,
    pub author: String,
    pub kind: String,
    pub mood: Vec<String>,
    pub accent: Option<String>,
    pub success: Option<String>,
    pub warning: Option<String>,
    pub error: Option<String>,
}

/// Where a resolved theme comes from.
#[derive(Clone, Copy, Debug, PartialEq, Eq, Structural)]
pub enum ResolvedThemeSource {
    BuiltIn,
    BuiltInOverride,
    Custom,
}

/// The contents of a theme, as text.
pub struct ThemeModel {
    pub name: Seq<char>,
    pub slug: Seq<char>,
    pub foreground: Seq<char>,
    pub background: Seq<char>,
    pub cursor: Seq<char>,
    pub selection: Seq<char>,
    pub ansi: Seq<Seq<char>>,
    pub description: Seq<char>,
    pub author: Seq<char>,
    pub kind: Seq<char>,
    pub mood: Seq<Seq<char>>,
    pub accent: Option<Seq<char>>,
    pub success: Option<Seq<char>>,
    pub warning: Option<Seq<char>>,
    pub error: Option<Seq<char>>,
}

/// The contents of a configuration, as text.
pub struct ConfigModel {
    pub theme: Seq<char>,
    pub custom_themes: Seq<ThemeModel>,
    pub builtin_overrides: Seq<ThemeModel>,
}

/// The text of an optional string.
pub open spec fn opt_view(o: Option<String>) -> Option<Seq<char>> {
    match o {
        Some(s) => Some(s@),
        None => None,
    }
}

impl View for CustomTheme {
    type V = ThemeModel;

    open spec fn view(&self) -> ThemeModel {
        ThemeModel {
            name: self.name@,
            slug: self.slug@,
            foreground: self.foreground@,
            background: self.background@,
            cursor: self.cursor@,
            selection: self.selection@,
            ansi: string_views(self.ansi@),
            description: self.description@,
            author: self.author@,
            kind: self.kind@,
            mood: string_views(self.mood@),
            accent: opt_view(self.accent),
            success: opt_view(self.success),
            warning: opt_view(self.warning),
            error: opt_view(self.error),
        }
    }
}

impl View for BuiltinOverride {
    type V = ThemeModel;

    open spec fn view(&self) -> ThemeModel {
        ThemeModel {
            name: self.name@,
            slug: self.slug@,
            foreground: self.foreground@,
            background: self.background@,
            cursor: self.cursor@,
            selection: self.selection@,
            ansi: string_views(self.ansi@),
            description: self.description@,
            author: self.author@,
            kind: self.kind@,
            mood: string_views(self.mood@),
            accent: opt_view(self.accent),
            success: opt_view(self.success),
            warning: opt_view(self.warning),
            error: opt_view(self.error),
        }
    }
}

impl View for ResolvedTheme {
    type V = (ThemeModel, ResolvedThemeSource);

    open spec fn view(&self) -> (ThemeModel, ResolvedThemeSource) {
        (
            ThemeModel {
                name: self.name@,
                slug: self.slug@,
                foreground: self.foreground@,
                background: self.background@,
                cursor: self.cursor@,
                selection: self.selection@,
                ansi: string_views(self.ansi@),
                description: self.description@,
                author: self.author@,
                kind: self.kind@,
                mood: string_views(self.mood@),
                accent: opt_view(self.accent),
                success: opt_view(self.success),
                warning: opt_view(self.warning),
                error: opt_view(self.error),
            },
            self.source,
        )
    }
}

/// The views of a list of custom themes.
pub open spec fn custom_views(v: Seq<CustomTheme>) -> Seq<ThemeModel> {
    v.map_values(|t: CustomTheme| t@)
}

/// The views of a list of overrides.
pub open spec fn override_views(v: Seq<BuiltinOverride>) -> Seq<ThemeModel> {
    v.map_values(|t: BuiltinOverride| t@)
}

/// The views of a list of resolved themes.
pub open spec fn resolved_views(v: Seq<ResolvedTheme>) -> Seq<(ThemeModel, ResolvedThemeSource)> {
    v.map_values(|t: ResolvedTheme| t@)
}

impl View for Config {
    type V = ConfigModel;

    open spec fn view(&self) -> ConfigModel {
        ConfigModel {
            theme: self.theme@,
            custom_themes: custom_views(self.custom_themes@),
            builtin_overrides: override_views(self.builtin_overrides@),
        }
    }
}

/// The contents of a bundled theme; it names no accent or status colors.
pub open spec fn builtin_model(t: Theme) -> ThemeModel {
    ThemeModel {
        name: t.name@,
        slug: t.slug@,
        foreground: t.foreground@,
        background: t.background@,
        cursor: t.cursor@,
        selection: t.selection@,
        ansi: str_views(t.ansi@),
        description: t.description@,
        author: t.author@,
        kind: t.kind@,
        mood: str_views(t.mood@),
        accent: None,
        success: None,
        warning: None,
        error: None,
    }
}

/// The first theme of `s`, from index `from` on, with slug `slug`.
pub open spec fn first_with_slug(s: Seq<ThemeModel>, slug: Seq<char>, from: int) -> Option<int>
    decreases s.len() - from,
{
    if from < 0 || from >= s.len() {
        None
    } else if s[from].slug == slug {
        Some(from)
    } else {
        first_with_slug(s, slug, from + 1)
    }
}

/// What [`first_with_slug`] finds: the least index with that slug, or none.
pub proof fn lemma_first_with_slug(s: Seq<ThemeModel>, slug: Seq<char>, from: int)
    requires
        0 <= from,
    ensures
        match first_with_slug(s, slug, from) {
            Some(i) => from <= i < s.len() && s[i].slug == slug && forall|j: int|
                from <= j < i ==> #[trigger] s[j].slug != slug,
            None => forall|j: int| from <= j < s.len() ==> #[trigger] s[j].slug != slug,
        },
    decreases s.len() - from,
{
    if from < s.len() && s[from].slug != slug {
        lemma_first_with_slug(s, slug, from + 1);
    }
}

/// How a bundled theme resolves: the first override with its slug, if any.
pub open spec fn resolve_builtin_spec(overrides: Seq<ThemeModel>, t: Theme) -> (
    ThemeModel,
    ResolvedThemeSource,
) {
    match first_with_slug(overrides, t.slug@, 0) {
        Some(i) => (overrides[i], ResolvedThemeSource::BuiltInOverride),
        None => (builtin_model(t), ResolvedThemeSource::BuiltIn),
    }
}

/// The resolved theme list: every bundled theme in order, each replaced by
/// its override where there is one, then the custom themes in order.
pub open spec fn resolved_spec(c: ConfigModel) -> Seq<(ThemeModel, ResolvedThemeSource)> {
    builtin_themes().map_values(|t: Theme| resolve_builtin_spec(c.builtin_overrides, t))
        + c.custom_themes.map_values(
        |t: ThemeModel| (t, ResolvedThemeSource::Custom),
    )
}

/// Whether a resolved theme answers to a query reduced to a slug.
pub open spec fn resolved_matches(t: (ThemeModel, ResolvedThemeSource), key: Seq<char>) -> bool {
    t.0.slug == key || slug(t.0.name) == key
}

/// The first resolved theme, from index `from` on, that answers to `key`.
pub open spec fn first_resolved_match(
    s: Seq<(ThemeModel, ResolvedThemeSource)>,
    key: Seq<char>,
    from: int,
) -> Option<(ThemeModel, ResolvedThemeSource)>
    decreases s.len() - from,
{
    if from < 0 || from >= s.len() {
        None
    } else if resolved_matches(s[from], key) {
        Some(s[from])
    } else {
        first_resolved_match(s, key, from + 1)
    }
}

/// The themes of `s` whose slug is not `slug`, in order.
pub open spec fn without_slug(s: Seq<ThemeModel>, slug: Seq<char>) -> Seq<ThemeModel> {
    s.filter(|t: ThemeModel| t.slug != slug)
}

/// Whether some theme of `s` has slug `slug`.
pub open spec fn has_slug(s: Seq<ThemeModel>, slug: Seq<char>) -> bool {
    exists|i: int| 0 <= i < s.len() && #[trigger] s[i].slug == slug
}

// ---------------------------------------------------------------------------
// Copies
// ---------------------------------------------------------------------------
/// A copy of a palette.
pub fn copy_palette(a: &[String; 16]) -> (r: [String; 16])
    ensures
        r@ == a@,
{
    let r = [
        a[0].clone(),
        a[1].clone(),
        a[2].clone(),
        a[3].clone(),
        a[4].clone(),
        a[5].clone(),
        a[6].clone(),
        a[7].clone(),
        a[8].clone(),
        a[9].clone(),
        a[10].clone(),
        a[11].clone(),
        a[12].clone(),
        a[13].clone(),
        a[14].clone(),
        a[15].clone(),
    ];
    assert(r@ =~= a@);
    r
}

/// An owned copy of a bundled palette.
pub fn palette_of(a: &[&'static str; 16]) -> (r: [String; 16])
    ensures
        string_views(r@) == str_views(a@),
{
    let r = [
        String::from_str(a[0]),
        String::from_str(a[1]),
        String::from_str(a[2]),
        String::from_str(a[3]),
        String::from_str(a[4]),
        String::from_str(a[5]),
        String::from_str(a[6]),
        String::from_str(a[7]),
        String::from_str(a[8]),
        String::from_str(a[9]),
        String::from_str(a[10]),
        String::from_str(a[11]),
        String::from_str(a[12]),
        String::from_str(a[13]),
        String::from_str(a[14]),
        String::from_str(a[15]),
    ];
    assert(string_views(r@) =~= str_views(a@));
    r
}

/// A copy of a list of strings.
pub fn copy_strings(v: &Vec<String>) -> (r: Vec<String>)
    ensures
        r@ == v@,
{
    let mut r: Vec<String> = Vec::new();
    let mut i: usize = 0;
    while i < v.len()
        invariant
            i <= v.len(),
            r@ == v@.take(i as int),
        decreases v.len() - i,
    {
        r.push(v[i].clone());
        assert(r@ =~= v@.take(i + 1));
        i = i + 1;
    }
    assert(v@.take(v.len() as int) =~= v@);
    r
}

/// Owned copies of a list of bundled strings.
pub fn strings_of(v: &[&'static str]) -> (r: Vec<String>)
    ensures
        string_views(r@) == str_views(v@),
{
    let mut r: Vec<String> = Vec::new();
    let mut i: usize = 0;
    while i < v.len()
        invariant
            i <= v.len(),
            r.len() == i,
            forall|k: int| 0 <= k < i ==> #[trigger] r@[k]@ == v@[k]@,
        decreases v.len() - i,
    {
        r.push(String::from_str(v[i]));
        i = i + 1;
    }
    assert(string_views(r@) =~= str_views(v@));
    r
}

/// A copy of an optional string.
pub fn copy_opt(o: &Option<String>) -> (r: Option<String>)
    ensures
        r == *o,
{
    match o {
        Some(s) => Some(s.clone()),
        None => None,
    }
}

impl CustomTheme {
    /// A copy with the same contents.
    pub fn copy(&self) -> (r: CustomTheme)
        ensures
            r@ == self@,
    {
        CustomTheme {
            name: self.name.clone(),
            slug: self.slug.clone(),
            foreground: self.foreground.clone(),
            background: self.background.clone(),
            cursor: self.cursor.clone(),
            selection: self.selection.clone(),
            ansi: copy_palette(&self.ansi),
            description: self.description.clone(),
            author: self.author.clone(),
            kind: self.kind.clone(),
            mood: copy_strings(&self.mood),
            accent: copy_opt(&self.accent),
            success: copy_opt(&self.success),
            warning: copy_opt(&self.warning),
            error: copy_opt(&self.error),
        }
    }
}

impl ResolvedTheme {
    /// A copy with the same contents.
    pub fn copy(&self) -> (r: ResolvedTheme)
        ensures
            r@ == self@,
    {
        ResolvedTheme {
            name: self.name.clone(),
            slug: self.slug.clone(),
            foreground: self.foreground.clone(),
            background: self.background.clone(),
            cursor: self.cursor.clone(),
            selection: self.selection.clone(),
            ansi: copy_palette(&self.ansi),
            source: self.source,
            description: self.description.clone(),
            author: self.author.clone(),
            kind: self.kind.clone(),
            mood: copy_strings(&self.mood),
            accent: copy_opt(&self.accent),
            success: copy_opt(&self.success),
            warning: copy_opt(&self.warning),
            error: copy_opt(&self.error),
        }
    }
}

/// The resolved form of an override.
fn resolve_override(o: &BuiltinOverride) -> (r: ResolvedTheme)
    ensures
        r@ == (o@, ResolvedThemeSource::BuiltInOverride),
{
    ResolvedTheme {
        name: o.name.clone(),
        slug: o.slug.clone(),
        foreground: o.foreground.clone(),
        background: o.background.clone(),
        cursor: o.cursor.clone(),
        selection: o.selection.clone(),
        ansi: copy_palette(&o.ansi),
        source: ResolvedThemeSource::BuiltInOverride,
        description: o.description.clone(),
        author: o.author.clone(),
        kind: o.kind.clone(),
        mood: copy_strings(&o.mood),
        accent: copy_opt(&o.accent),
        success: copy_opt(&o.success),
        warning: copy_opt(&o.warning),
        error: copy_opt(&o.error),
    }
}

/// The resolved form of a bundled theme without override.
fn resolve_plain_builtin(t: &Theme) -> (r: ResolvedTheme)
    ensures
        r@ == (builtin_model(*t), ResolvedThemeSource::BuiltIn),
{
    ResolvedTheme {
        name: String::from_str(t.name),
        slug: String::from_str(t.slug),
        foreground: String::from_str(t.foreground),
        background: String::from_str(t.background),
        cursor: String::from_str(t.cursor),
        selection: String::from_str(t.selection),
        ansi: palette_of(&t.ansi),
        source: ResolvedThemeSource::BuiltIn,
        description: String::from_str(t.description),
        author: String::from_str(t.author),
        kind: String::from_str(t.kind),
        mood: strings_of(t.mood),
        accent: None,
        success: None,
        warning: None,
        error: None,
    }
}

/// The resolved form of a custom theme.
fn resolve_custom(c: &CustomTheme) -> (r: ResolvedTheme)
    ensures
        r@ == (c@, ResolvedThemeSource::Custom),
{
    ResolvedTheme {
        name: c.name.clone(),
        slug: c.slug.clone(),
        foreground: c.foreground.clone(),
        background: c.background.clone(),
        cursor: c.cursor.clone(),
        selection: c.selection.clone(),
        ansi: copy_palette(&c.ansi),
        source: ResolvedThemeSource::Custom,
        description: c.description.clone(),
        author: c.author.clone(),
        kind: c.kind.clone(),
        mood: copy_strings(&c.mood),
        accent: copy_opt(&c.accent),
        success: copy_opt(&c.success),
        warning: copy_opt(&c.warning),
        error: copy_opt(&c.error),
    }
}

impl Config {
    /// The configuration used when none is saved: the default theme active,
    /// no custom themes and no overrides.
    pub fn default_config() -> (r: Config)
        ensures
            r@.theme == builtin_themes()[0].slug@,
            r@.custom_themes.len() == 0,
            r@.builtin_overrides.len() == 0,
    {
        let d = default_theme();
        let r = Config {
            theme: String::from_str(d.slug),
            custom_themes: Vec::new(),
            builtin_overrides: Vec::new(),
        };
        assert(r@.custom_themes =~= Seq::<ThemeModel>::empty());
        r
    }

    /// The first custom theme with the given slug.
    pub fn custom_theme_by_slug(&self, slug: &str) -> (r: Option<&CustomTheme>)
        ensures
            match first_with_slug(self@.custom_themes, slug@, 0) {
                Some(i) => r == Some(&self.custom_themes@[i]),
                None => r is None,
            },
    {
        let mut i: usize = 0;
        while i < self.custom_themes.len()
            invariant
                i <= self.custom_themes.len(),
                first_with_slug(self@.custom_themes, slug@, 0) == first_with_slug(
                    self@.custom_themes,
                    slug@,
                    i as int,
                ),
            decreases self.custom_themes.len() - i,
        {
            if same_text(self.custom_themes[i].slug.as_str(), slug) {
                return Some(&self.custom_themes[i]);
            }
            i = i + 1;
        }
        None
    }

    /// The first override with the given slug.
    pub fn builtin_override_by_slug(&self, slug: &str) -> (r: Option<&BuiltinOverride>)
        ensures
            match first_with_slug(self@.builtin_overrides, slug@, 0) {
                Some(i) => r == Some(&self.builtin_overrides@[i]),
                None => r is None,
            },
    {
        let mut i: usize = 0;
        while i < self.builtin_overrides.len()
            invariant
                i <= self.builtin_overrides.len(),
                first_with_slug(self@.builtin_overrides, slug@, 0) == first_with_slug(
                    self@.builtin_overrides,
                    slug@,
                    i as int,
                ),
            decreases self.builtin_overrides.len() - i,
        {
            if same_text(self.builtin_overrides[i].slug.as_str(), slug) {
                return Some(&self.builtin_overrides[i]);
            }
            i = i + 1;
        }
        None
    }

    /// Every theme the user can pick: the bundled themes in order, each
    /// replaced by its override where one exists, then the custom themes.
    pub fn resolved_themes(&self) -> (r: Vec<ResolvedTheme>)
        ensures
            resolved_views(r@) == resolved_spec(self@),
    {
        let mut out: Vec<ResolvedTheme> = Vec::new();
        let all = themes();
        let ghost spec_builtins = builtin_themes().map_values(
            |t: Theme| resolve_builtin_spec(self@.builtin_overrides, t),
        );
        let mut i: usize = 0;
        while i < all.len()
            invariant
                i <= all.len(),
                all@ == builtin_themes(),
                spec_builtins == builtin_themes().map_values(
                    |t: Theme| resolve_builtin_spec(self@.builtin_overrides, t),
                ),
                out.len() == i,
                forall|k: int| 0 <= k < i ==> #[trigger] out@[k]@ == spec_builtins[k],
            decreases all.len() - i,
        {
            let t = all[i];
            let resolved = match self.builtin_override_by_slug(t.slug) {
                Some(o) => {
                    proof {
                        lemma_first_with_slug(self@.builtin_overrides, t.slug@, 0);
                        let idx = first_with_slug(self@.builtin_overrides, t.slug@, 0)->0;
                        assert(self@.builtin_overrides[idx] == self.builtin_overrides@[idx]@);
                    }
                    resolve_override(o)
                },
                None => resolve_plain_builtin(&t),
            };
            assert(resolved@ == spec_builtins[i as int]);
            out.push(resolved);
            i = i + 1;
        }
        assert(resolved_views(out@) =~= spec_builtins);
        let ghost spec_customs = self@.custom_themes.map_values(
            |t: ThemeModel| (t, ResolvedThemeSource::Custom),
        );
        let mut j: usize = 0;
        while j < self.custom_themes.len()
            invariant
                j <= self.custom_themes.len(),
                spec_customs == self@.custom_themes.map_values(
                    |t: ThemeModel| (t, ResolvedThemeSource::Custom),
                ),
                spec_builtins.len() == 13,
                out.len() == 13 + j,
                forall|k: int| 0 <= k < 13 ==> #[trigger] out@[k]@ == spec_builtins[k],
                forall|k: int| 13 <= k < 13 + j ==> #[trigger] out@[k]@ == spec_customs[k - 13],
            decreases self.custom_themes.len() - j,
        {
            out.push(resolve_custom(&self.custom_themes[j]));
            j = j + 1;
        }
        assert(resolved_views(out@) =~= spec_builtins + spec_customs);
        out
    }

    /// The first resolved theme that answers to the query by slug or by name,
    /// both compared as slugs.
    pub fn resolved_theme_by_query(&self, query: &str) -> (r: Option<ResolvedTheme>)
        ensures
            match first_resolved_match(resolved_spec(self@), slug(query@), 0) {
                Some(t) => r matches Some(x) && x@ == t,
                None => r is None,
            },
    {
        let normalized = slugify(query);
        let all = self.resolved_themes();
        let mut i: usize = 0;
        while i < all.len()
            invariant
                i <= all.len(),
                resolved_views(all@) == resolved_spec(self@),
                normalized@ == slug(query@),
                first_resolved_match(resolved_views(all@), normalized@, 0) == first_resolved_match(
                    resolved_views(all@),
                    normalized@,
                    i as int,
                ),
            decreases all.len() - i,
        {
            let by_name = slugify(all[i].name.as_str());
            if same_text(all[i].slug.as_str(), normalized.as_str()) || same_text(
                by_name.as_str(),
                normalized.as_str(),
            ) {
                return Some(all[i].copy());
            }
            i = i + 1;
        }
        None
    }
}


/// Removes from `v` the custom themes with slug `slug`; says whether there was one.
fn remove_custom_with_slug(v: &mut Vec<CustomTheme>, slug: &str) -> (found: bool)
    ensures
        custom_views(final(v)@) == without_slug(custom_views(old(v)@), slug@),
        found == has_slug(custom_views(old(v)@), slug@),
{
    let mut rest: Vec<CustomTheme> = Vec::new();
    std::mem::swap(&mut rest, v);
    let ghost orig = custom_views(rest@);
    let ghost pred = |t: ThemeModel| t.slug != slug@;
    let mut found = false;
    let mut k: usize = 0;
    assert(orig.len() == rest.len());
    assert(custom_views(v@) =~= without_slug(orig.take(0), slug@)) by {
        reveal(Seq::filter);
    }
    while rest.len() > 0
        invariant
            k + rest.len() == orig.len(),
            orig.len() <= usize::MAX,
            custom_views(rest@) == orig.skip(k as int),
            custom_views(v@) == without_slug(orig.take(k as int), slug@),
            found == has_slug(orig.take(k as int), slug@),
            pred == (|t: ThemeModel| t.slug != slug@),
        decreases rest.len(),
    {
        let ghost prev = custom_views(rest@);
        let x = rest.remove(0);
        proof {
            assert(custom_views(rest@) =~= prev.drop_first());
            assert(x@ == orig[k as int]) by {
                assert(custom_views(old(v)@).len() >= 0);
                assert(orig.skip(k as int)[0] == orig[k as int]);
            }
            assert(custom_views(rest@) =~= orig.skip(k + 1));
            assert(orig.take(k + 1).drop_last() =~= orig.take(k as int));
            assert(orig.take(k + 1).last() == orig[k as int]);
            reveal(Seq::filter);
        }
        if same_text(x.slug.as_str(), slug) {
            found = true;
            proof {
                assert(orig.take(k + 1)[k as int].slug == slug@);
            }
        } else {
            v.push(x);
            proof {
                assert(custom_views(v@) =~= without_slug(orig.take(k as int), slug@).push(
                    orig[k as int],
                ));
                assert forall|i: int| 0 <= i < k + 1 && #[trigger] orig.take(k + 1)[i].slug
                    == slug@ implies orig.take(k as int)[i].slug == slug@ by {
                    assert(i < k);
                }
            }
        }
        k = k + 1;
        proof {
            assert forall|i: int| 0 <= i < k - 1 && #[trigger] orig.take(k - 1)[i].slug
                == slug@ implies orig.take(k as int)[i].slug == slug@ by {
                assert(orig.take(k as int)[i] == orig.take(k - 1)[i]);
            }
        }
    }
    assert(orig.take(k as int) =~= orig);
    found
}

/// Removes from `v` the overrides with slug `slug`; says whether there was one.
fn remove_override_with_slug(v: &mut Vec<BuiltinOverride>, slug: &str) -> (found: bool)
    ensures
        override_views(final(v)@) == without_slug(override_views(old(v)@), slug@),
        found == has_slug(override_views(old(v)@), slug@),
{
    let mut rest: Vec<BuiltinOverride> = Vec::new();
    std::mem::swap(&mut rest, v);
    let ghost orig = override_views(rest@);
    let ghost pred = |t: ThemeModel| t.slug != slug@;
    let mut found = false;
    let mut k: usize = 0;
    assert(orig.len() == rest.len());
    assert(override_views(v@) =~= without_slug(orig.take(0), slug@)) by {
        reveal(Seq::filter);
    }
    while rest.len() > 0
        invariant
            k + rest.len() == orig.len(),
            orig.len() <= usize::MAX,
            override_views(rest@) == orig.skip(k as int),
            override_views(v@) == without_slug(orig.take(k as int), slug@),
            found == has_slug(orig.take(k as int), slug@),
            pred == (|t: ThemeModel| t.slug != slug@),
        decreases rest.len(),
    {
        let ghost prev = override_views(rest@);
        let x = rest.remove(0);
        proof {
            assert(override_views(rest@) =~= prev.drop_first());
            assert(x@ == orig[k as int]) by {
                assert(orig.skip(k as int)[0] == orig[k as int]);
            }
            assert(override_views(rest@) =~= orig.skip(k + 1));
            assert(orig.take(k + 1).drop_last() =~= orig.take(k as int));
            assert(orig.take(k + 1).last() == orig[k as int]);
            reveal(Seq::filter);
        }
        if same_text(x.slug.as_str(), slug) {
            found = true;
            proof {
                assert(orig.take(k + 1)[k as int].slug == slug@);
            }
        } else {
            v.push(x);
            proof {
                assert(override_views(v@) =~= without_slug(orig.take(k as int), slug@).push(
                    orig[k as int],
                ));
                assert forall|i: int| 0 <= i < k + 1 && #[trigger] orig.take(k + 1)[i].slug
                    == slug@ implies orig.take(k as int)[i].slug == slug@ by {
                    assert(i < k);
                }
            }
        }
        k = k + 1;
        proof {
            assert forall|i: int| 0 <= i < k - 1 && #[trigger] orig.take(k - 1)[i].slug
                == slug@ implies orig.take(k as int)[i].slug == slug@ by {
                assert(orig.take(k as int)[i] == orig.take(k - 1)[i]);
            }
        }
    }
    assert(orig.take(k as int) =~= orig);
    found
}

/// Makes a bundled theme the active one.
pub fn save_selected_theme(config: &mut Config, theme: &Theme)
    ensures
        final(config)@.theme == theme.slug@,
        final(config)@.custom_themes == old(config)@.custom_themes,
        final(config)@.builtin_overrides == old(config)@.builtin_overrides,
{
    config.theme = String::from_str(theme.slug);
}

/// Saves a custom theme and makes it the active one. A custom theme with the
/// same slug is replaced: the new one goes to the end of the list.
pub fn save_custom_theme(config: &mut Config, custom: CustomTheme)
    ensures
        final(config)@.custom_themes == without_slug(old(config)@.custom_themes, custom@.slug).push(
            custom@,
        ),
        final(config)@.theme == custom@.slug,
        final(config)@.builtin_overrides == old(config)@.builtin_overrides,
{
    let _ = remove_custom_with_slug(&mut config.custom_themes, custom.slug.as_str());
    config.theme = custom.slug.clone();
    let ghost before = custom_views(config.custom_themes@);
    config.custom_themes.push(custom);
    assert(custom_views(config.custom_themes@) =~= before.push(custom@));
}

/// Saves an override of a bundled theme and makes it the active one. An
/// override with the same slug is replaced: the new one goes to the end.
pub fn save_builtin_override(config: &mut Config, override_theme: BuiltinOverride)
    ensures
        final(config)@.builtin_overrides == without_slug(
            old(config)@.builtin_overrides,
            override_theme@.slug,
        ).push(override_theme@),
        final(config)@.theme == override_theme@.slug,
        final(config)@.custom_themes == old(config)@.custom_themes,
{
    let _ = remove_override_with_slug(&mut config.builtin_overrides, override_theme.slug.as_str());
    config.theme = override_theme.slug.clone();
    let ghost before = override_views(config.builtin_overrides@);
    config.builtin_overrides.push(override_theme);
    assert(override_views(config.builtin_overrides@) =~= before.push(override_theme@));
}

/// Deletes the custom themes with the given slug; says whether there was
/// one. When the deleted theme was the active one, the default theme becomes
/// active.
pub fn delete_custom_theme(config: &mut Config, slug: &str) -> (deleted: bool)
    ensures
        deleted == has_slug(old(config)@.custom_themes, slug@),
        final(config)@.custom_themes == without_slug(old(config)@.custom_themes, slug@),
        final(config)@.builtin_overrides == old(config)@.builtin_overrides,
        final(config)@.theme == (if deleted && old(config)@.theme == slug@ {
            builtin_themes()[0].slug@
        } else {
            old(config)@.theme
        }),
{
    let deleted = remove_custom_with_slug(&mut config.custom_themes, slug);
    if deleted && same_text(config.theme.as_str(), slug) {
        let d = default_theme();
        config.theme = String::from_str(d.slug);
    }
    deleted
}

/// Deletes the overrides with the given slug, so that the bundled theme
/// shows again; says whether there was one. The active theme is kept.
pub fn delete_builtin_override(config: &mut Config, slug: &str) -> (deleted: bool)
    ensures
        deleted == has_slug(old(config)@.builtin_overrides, slug@),
        final(config)@.builtin_overrides == without_slug(old(config)@.builtin_overrides, slug@),
        final(config)@.custom_themes == old(config)@.custom_themes,
        final(config)@.theme == old(config)@.theme,
{
    remove_override_with_slug(&mut config.builtin_overrides, slug)
}


/// No theme left by [`without_slug`] has the removed slug.
pub proof fn lemma_without_slug_has_none(s: Seq<ThemeModel>, slug: Seq<char>)
    ensures
        !has_slug(without_slug(s, slug), slug),
        first_with_slug(without_slug(s, slug), slug, 0) is None,
{
    let pred = |t: ThemeModel| t.slug != slug;
    let w = without_slug(s, slug);
    assert forall|i: int| 0 <= i < w.len() implies #[trigger] w[i].slug != slug by {
        s.lemma_filter_pred(pred, i);
    }
    lemma_first_with_slug(w, slug, 0);
}

/// After a theme is saved, it is the only one of the list with its slug,
/// and a lookup by that slug finds it.
pub proof fn law_saved_theme_is_unique(s: Seq<ThemeModel>, t: ThemeModel)
    ensures
        ({
            let saved = without_slug(s, t.slug).push(t);
            &&& first_with_slug(saved, t.slug, 0) == Some(saved.len() - 1)
            &&& saved[saved.len() - 1] == t
            &&& forall|i: int| 0 <= i < saved.len() - 1 ==> #[trigger] saved[i].slug != t.slug
        }),
{
    let w = without_slug(s, t.slug);
    let saved = w.push(t);
    lemma_without_slug_has_none(s, t.slug);
    assert forall|i: int| 0 <= i < saved.len() - 1 implies #[trigger] saved[i].slug != t.slug by {
        assert(saved[i] == w[i]);
        if w[i].slug == t.slug {
            assert(has_slug(w, t.slug));
        }
    }
    lemma_first_with_slug(saved, t.slug, 0);
}

/// After a delete, no theme of the list has the deleted slug.
pub proof fn law_deleted_slug_is_gone(s: Seq<ThemeModel>, slug: Seq<char>)
    ensures
        !has_slug(without_slug(s, slug), slug),
{
    lemma_without_slug_has_none(s, slug);
}

/// Saving a custom theme puts it at the end of the resolved list, and no
/// other custom theme there keeps its slug.
pub proof fn law_saved_custom_resolves(c: ConfigModel, t: ThemeModel)
    ensures
        ({
            let saved = ConfigModel {
                theme: t.slug,
                custom_themes: without_slug(c.custom_themes, t.slug).push(t),
                builtin_overrides: c.builtin_overrides,
            };
            let r = resolved_spec(saved);
            &&& r[r.len() - 1] == (t, ResolvedThemeSource::Custom)
            &&& forall|j: int|
                builtin_themes().len() <= j < r.len() - 1 ==> (#[trigger] r[j]).0.slug != t.slug
        }),
{
    let saved = ConfigModel {
        theme: t.slug,
        custom_themes: without_slug(c.custom_themes, t.slug).push(t),
        builtin_overrides: c.builtin_overrides,
    };
    law_resolved_layout(saved);
    law_saved_theme_is_unique(c.custom_themes, t);
    let n = builtin_themes().len() as int;
    let r = resolved_spec(saved);
    assert(r[r.len() - 1] == r[n + (saved.custom_themes.len() - 1)]);
    assert forall|j: int| n <= j < r.len() - 1 implies (#[trigger] r[j]).0.slug != t.slug by {
        assert(r[n + (j - n)] == (saved.custom_themes[j - n], ResolvedThemeSource::Custom));
    }
}

/// [`first_resolved_match`] finds the first entry, from `from` on, that
/// answers to the key.
proof fn lemma_first_resolved_at(
    s: Seq<(ThemeModel, ResolvedThemeSource)>,
    key: Seq<char>,
    from: int,
    i: int,
)
    requires
        0 <= from <= i < s.len(),
        resolved_matches(s[i], key),
        forall|j: int| from <= j < i ==> !resolved_matches(#[trigger] s[j], key),
    ensures
        first_resolved_match(s, key, from) == Some(s[i]),
    decreases i - from,
{
    if from < i {
        lemma_first_resolved_at(s, key, from + 1, i);
    }
}

/// Saving the theme that a query finds (by its slug, as `set` does) and
/// looking the saved slug up again (as `apply` does) gives back that theme,
/// provided its slug is already in slug form and no theme before it in the
/// resolved list answers to that slug.
pub proof fn law_set_then_apply(c: ConfigModel, q: Seq<char>, k: int)
    requires
        0 <= k < resolved_spec(c).len(),
        first_resolved_match(resolved_spec(c), slug(q), 0) == Some(resolved_spec(c)[k]),
        slug(resolved_spec(c)[k].0.slug) == resolved_spec(c)[k].0.slug,
        forall|j: int|
            0 <= j < k ==> !resolved_matches(
                #[trigger] resolved_spec(c)[j],
                resolved_spec(c)[k].0.slug,
            ),
    ensures
        first_resolved_match(resolved_spec(c), slug(resolved_spec(c)[k].0.slug), 0) == Some(
            resolved_spec(c)[k],
        ),
{
    lemma_first_resolved_at(resolved_spec(c), resolved_spec(c)[k].0.slug, 0, k);
}

/// Without overrides, every bundled theme is found by its name and by its
/// slug, whatever custom themes are saved: `set` followed by `apply` picks
/// the bundled theme that was named.
pub proof fn law_bundled_themes_found(c: ConfigModel, i: int)
    requires
        c.builtin_overrides.len() == 0,
        0 <= i < builtin_themes().len(),
    ensures
        first_resolved_match(resolved_spec(c), slug(builtin_themes()[i].name@), 0) == Some(
            (builtin_model(builtin_themes()[i]), ResolvedThemeSource::BuiltIn),
        ),
        first_resolved_match(resolved_spec(c), slug(builtin_themes()[i].slug@), 0) == Some(
            (builtin_model(builtin_themes()[i]), ResolvedThemeSource::BuiltIn),
        ),
{
    let ts = builtin_themes();
    let r = resolved_spec(c);
    crate::theme::lemma_builtin_slugs();
    crate::text::lemma_slug_idempotent(ts[i].name@);
    let key = ts[i].slug@;
    assert(slug(key) == key);
    assert forall|j: int| 0 <= j < ts.len() implies #[trigger] r[j] == (
        builtin_model(ts[j]),
        ResolvedThemeSource::BuiltIn,
    ) by {
        assert(first_with_slug(c.builtin_overrides, ts[j].slug@, 0) is None);
    }
    assert forall|j: int| 0 <= j < i implies !resolved_matches(#[trigger] r[j], key) by {
        assert(r[j] == (builtin_model(ts[j]), ResolvedThemeSource::BuiltIn));
        assert(slug(ts[j].name@) == ts[j].slug@);
        assert(ts[j].slug@ != ts[i].slug@);
    }
    assert(r[i] == (builtin_model(ts[i]), ResolvedThemeSource::BuiltIn));
    lemma_first_resolved_at(r, key, 0, i);
}

/// Saving an override of a bundled theme makes the override the resolved
/// version of that theme, at the bundled theme's place in the list.
pub proof fn law_saved_override_resolves(c: ConfigModel, o: ThemeModel, i: int)
    requires
        0 <= i < builtin_themes().len(),
        o.slug == builtin_themes()[i].slug@,
    ensures
        resolved_spec(
            ConfigModel {
                theme: o.slug,
                custom_themes: c.custom_themes,
                builtin_overrides: without_slug(c.builtin_overrides, o.slug).push(o),
            },
        )[i] == (o, ResolvedThemeSource::BuiltInOverride),
{
    law_saved_theme_is_unique(c.builtin_overrides, o);
}

/// Deleting the overrides of a bundled theme brings the bundled version
/// back, at its place in the list.
pub proof fn law_deleted_override_restores_builtin(c: ConfigModel, i: int)
    requires
        0 <= i < builtin_themes().len(),
    ensures
        ({
            let slug = builtin_themes()[i].slug@;
            resolved_spec(
                ConfigModel {
                    theme: c.theme,
                    custom_themes: c.custom_themes,
                    builtin_overrides: without_slug(c.builtin_overrides, slug),
                },
            )[i] == (builtin_model(builtin_themes()[i]), ResolvedThemeSource::BuiltIn)
        }),
{
    lemma_without_slug_has_none(c.builtin_overrides, builtin_themes()[i].slug@);
}

/// The resolved list holds one entry per bundled theme, then one per custom
/// theme; the custom themes keep their order and contents.
pub proof fn law_resolved_layout(c: ConfigModel)
    ensures
        resolved_spec(c).len() == builtin_themes().len() + c.custom_themes.len(),
        forall|j: int|
            0 <= j < c.custom_themes.len() ==> #[trigger] resolved_spec(c)[builtin_themes().len()
                + j] == (c.custom_themes[j], ResolvedThemeSource::Custom),
        forall|i: int|
            0 <= i < builtin_themes().len() ==> (#[trigger] resolved_spec(c)[i]).0.slug
                == builtin_themes()[i].slug@,
{
    assert forall|i: int| 0 <= i < builtin_themes().len() implies (
    #[trigger] resolved_spec(c)[i]).0.slug == builtin_themes()[i].slug@ by {
        lemma_first_with_slug(c.builtin_overrides, builtin_themes()[i].slug@, 0);
    }
}

} // verus!
