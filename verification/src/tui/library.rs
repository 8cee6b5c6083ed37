//! The library screen: filtering and searching the entries, moving the
//! selection, and its keys.
use vstd::prelude::*;

use super::{entry_views, Action, AppMode, AppState, CreatorState, KeyInput, ThemeEntry, ThemeSource};
use crate::config::ThemeModel;
use crate::text::{
    chars_of, concat3, find, find_chars, lower_chars, lower_seq, pop_char, push_char, same_text,
};

verus! {

/// Which entries the library lists.
#[derive(Clone, Copy, Debug, PartialEq, Eq, Structural)]
pub enum LibFilter {
    All,
    Dark,
    Light,
    Warm,
    Cool,
    Custom,
}

/// The filters in the order in which `f` and Tab cycle through them.
pub open spec fn filter_index(f: LibFilter) -> int {
    match f {
        LibFilter::All => 0,
        LibFilter::Dark => 1,
        LibFilter::Light => 2,
        LibFilter::Warm => 3,
        LibFilter::Cool => 4,
        LibFilter::Custom => 5,
    }
}

/// The name shown for a filter.
pub open spec fn filter_label(f: LibFilter) -> Seq<char> {
    match f {
        LibFilter::All => "all"@,
        LibFilter::Dark => "dark"@,
        LibFilter::Light => "light"@,
        LibFilter::Warm => "warm"@,
        LibFilter::Cool => "cool"@,
        LibFilter::Custom => "custom"@,
    }
}

impl LibFilter {
    /// The name shown for the filter.
    pub fn label(&self) -> (r: &'static str)
        ensures
            r@ == filter_label(*self),
    {
        match self {
            LibFilter::All => "all",
            LibFilter::Dark => "dark",
            LibFilter::Light => "light",
            LibFilter::Warm => "warm",
            LibFilter::Cool => "cool",
            LibFilter::Custom => "custom",
        }
    }

    /// The next filter, wrapping from the last to the first.
    pub fn next(&self) -> (r: Self)
        ensures
            filter_index(r) == (filter_index(*self) + 1) % 6,
    {
        match self {
            LibFilter::All => LibFilter::Dark,
            LibFilter::Dark => LibFilter::Light,
            LibFilter::Light => LibFilter::Warm,
            LibFilter::Warm => LibFilter::Cool,
            LibFilter::Cool => LibFilter::Custom,
            LibFilter::Custom => LibFilter::All,
        }
    }
}

/// Cycling through the filters six times comes back to the start: every
/// filter is reached.
pub proof fn law_filter_cycle(f: LibFilter, g: LibFilter)
    ensures
        filter_index(g) == (filter_index(f) + 6) % 6 ==> g == f,
        0 <= filter_index(f) < 6,
{
}

/// Whether an entry carries a mood tag.
pub open spec fn has_mood(e: ThemeModel, tag: Seq<char>) -> bool {
    exists|i: int| 0 <= i < e.mood.len() && #[trigger] e.mood[i] == tag
}

/// Whether an entry passes a filter.
pub open spec fn matches_filter_spec(e: (ThemeModel, ThemeSource), f: LibFilter) -> bool {
    match f {
        LibFilter::All => true,
        LibFilter::Dark => has_mood(e.0, "dark"@),
        LibFilter::Light => has_mood(e.0, "light"@),
        LibFilter::Warm => has_mood(e.0, "warm"@),
        LibFilter::Cool => has_mood(e.0, "cool"@),
        LibFilter::Custom => e.1 == ThemeSource::Custom,
    }
}

/// Whether `q` occurs in `s`.
pub open spec fn contains(s: Seq<char>, q: Seq<char>) -> bool {
    find(s, q) is Some
}

/// Whether an entry passes a search: every entry passes an empty query;
/// otherwise the query must occur in the name or the description, ignoring
/// ASCII case.
pub open spec fn matches_search_spec(e: (ThemeModel, ThemeSource), q: Seq<char>) -> bool {
    q.len() == 0 || contains(lower_seq(e.0.name), lower_seq(q)) || contains(
        lower_seq(e.0.description),
        lower_seq(q),
    )
}

/// The indexes, below `n` and in increasing order, of the entries that pass
/// the filter and the search.
pub open spec fn filtered_spec(
    entries: Seq<(ThemeModel, ThemeSource)>,
    f: LibFilter,
    q: Seq<char>,
    n: int,
) -> Seq<usize>
    decreases n,
{
    if n <= 0 {
        Seq::empty()
    } else {
        let prev = filtered_spec(entries, f, q, n - 1);
        if matches_filter_spec(entries[n - 1], f) && matches_search_spec(entries[n - 1], q) {
            prev.push((n - 1) as usize)
        } else {
            prev
        }
    }
}

/// The filtered indexes are below `n`, increasing, and name entries that
/// pass the filter and the search.
pub proof fn lemma_filtered_bounds(
    entries: Seq<(ThemeModel, ThemeSource)>,
    f: LibFilter,
    q: Seq<char>,
    n: int,
)
    requires
        n <= entries.len(),
        n <= usize::MAX,
    ensures
        forall|i: int|
            0 <= i < filtered_spec(entries, f, q, n).len() ==> #[trigger] filtered_spec(
                entries,
                f,
                q,
                n,
            )[i] < n,
        forall|i: int, j: int|
            0 <= i < j < filtered_spec(entries, f, q, n).len() ==> #[trigger] filtered_spec(
                entries,
                f,
                q,
                n,
            )[i] < #[trigger] filtered_spec(entries, f, q, n)[j],
        forall|i: int|
            0 <= i < filtered_spec(entries, f, q, n).len() ==> matches_filter_spec(
                entries[#[trigger] filtered_spec(entries, f, q, n)[i] as int],
                f,
            ) && matches_search_spec(entries[filtered_spec(entries, f, q, n)[i] as int], q),
    decreases n,
{
    if n > 0 {
        lemma_filtered_bounds(entries, f, q, n - 1);
        let prev = filtered_spec(entries, f, q, n - 1);
        let cur = filtered_spec(entries, f, q, n);
        if matches_filter_spec(entries[n - 1], f) && matches_search_spec(entries[n - 1], q) {
            assert(cur == prev.push((n - 1) as usize));
            assert forall|i: int| 0 <= i < prev.len() implies cur[i] == prev[i] by {}
        } else {
            assert(cur == prev);
        }
    }
}

/// Whether an entry has the mood tag.
fn entry_has_mood(theme: &ThemeEntry, tag: &str) -> (r: bool)
    ensures
        r == has_mood(theme@.0, tag@),
{
    let mut i: usize = 0;
    while i < theme.mood.len()
        invariant
            i <= theme.mood.len(),
            forall|j: int| 0 <= j < i ==> theme@.0.mood[j] != tag@,
        decreases theme.mood.len() - i,
    {
        assert(theme@.0.mood[i as int] == theme.mood@[i as int]@);
        if same_text(theme.mood[i].as_str(), tag) {
            return true;
        }
        i = i + 1;
    }
    false
}

/// Whether an entry passes a filter.
pub fn matches_filter(theme: &ThemeEntry, filter: &LibFilter) -> (r: bool)
    ensures
        r == matches_filter_spec(theme@, *filter),
{
    match filter {
        LibFilter::All => true,
        LibFilter::Dark => entry_has_mood(theme, "dark"),
        LibFilter::Light => entry_has_mood(theme, "light"),
        LibFilter::Warm => entry_has_mood(theme, "warm"),
        LibFilter::Cool => entry_has_mood(theme, "cool"),
        LibFilter::Custom => theme.source == ThemeSource::Custom,
    }
}

/// Whether an entry passes a search.
pub fn matches_search(theme: &ThemeEntry, query: &str) -> (r: bool)
    ensures
        r == matches_search_spec(theme@, query@),
{
    let qc = chars_of(query);
    if qc.len() == 0 {
        return true;
    }
    let q = lower_chars(&qc);
    let name = lower_chars(&chars_of(theme.name.as_str()));
    if find_chars(&name, &q).is_some() {
        return true;
    }
    let desc = lower_chars(&chars_of(theme.description.as_str()));
    find_chars(&desc, &q).is_some()
}

/// An index is listed when it is below `n` and its entry passes the filter
/// and the search.
proof fn lemma_filtered_lists(
    entries: Seq<(ThemeModel, ThemeSource)>,
    f: LibFilter,
    q: Seq<char>,
    n: int,
    k: int,
)
    requires
        0 <= k < n,
        matches_filter_spec(entries[k], f),
        matches_search_spec(entries[k], q),
    ensures
        filtered_spec(entries, f, q, n).contains(k as usize),
    decreases n,
{
    let prev = filtered_spec(entries, f, q, n - 1);
    let cur = filtered_spec(entries, f, q, n);
    if k == n - 1 {
        assert(cur == prev.push(k as usize));
        assert(cur[prev.len() as int] == k as usize);
    } else {
        lemma_filtered_lists(entries, f, q, n - 1, k);
        let i = choose|i: int| 0 <= i < prev.len() && prev[i] == k as usize;
        if cur != prev {
            assert(cur == prev.push((n - 1) as usize));
            assert(cur[i] == prev[i]);
        }
    }
}

/// The library lists every entry that passes the filter and whose name or
/// description holds the search query, ignoring ASCII case (every entry,
/// when the query is empty).
pub proof fn law_search_lists_matches(
    entries: Seq<(ThemeModel, ThemeSource)>,
    f: LibFilter,
    q: Seq<char>,
    n: int,
    k: int,
)
    requires
        0 <= k < n <= entries.len(),
        matches_filter_spec(entries[k], f),
        q.len() == 0 || find(lower_seq(entries[k].0.name), lower_seq(q)) is Some || find(
            lower_seq(entries[k].0.description),
            lower_seq(q),
        ) is Some,
    ensures
        filtered_spec(entries, f, q, n).contains(k as usize),
{
    lemma_filtered_lists(entries, f, q, n, k);
}

/// Every entry the library lists has the search query in its name or
/// description, ignoring ASCII case (or the query is empty).
pub proof fn law_search_lists_only_matches(
    entries: Seq<(ThemeModel, ThemeSource)>,
    f: LibFilter,
    q: Seq<char>,
    n: int,
    i: int,
)
    requires
        n <= entries.len(),
        n <= usize::MAX,
        0 <= i < filtered_spec(entries, f, q, n).len(),
    ensures
        ({
            let k = filtered_spec(entries, f, q, n)[i] as int;
            &&& k < n
            &&& q.len() == 0 || find(lower_seq(entries[k].0.name), lower_seq(q)) is Some || find(
                lower_seq(entries[k].0.description),
                lower_seq(q),
            ) is Some
        }),
{
    lemma_filtered_bounds(entries, f, q, n);
}

/// What each filter keeps: all entries; those tagged dark, light, warm or
/// cool; or the custom themes.
pub proof fn law_filter_meaning(e: (ThemeModel, ThemeSource))
    ensures
        matches_filter_spec(e, LibFilter::All),
        matches_filter_spec(e, LibFilter::Dark) == e.0.mood.contains("dark"@),
        matches_filter_spec(e, LibFilter::Light) == e.0.mood.contains("light"@),
        matches_filter_spec(e, LibFilter::Warm) == e.0.mood.contains("warm"@),
        matches_filter_spec(e, LibFilter::Cool) == e.0.mood.contains("cool"@),
        matches_filter_spec(e, LibFilter::Custom) == (e.1 == ThemeSource::Custom),
{
}

/// The position of `x` in `s`, if it is there.
pub open spec fn position_of(s: Seq<usize>, x: usize, from: int) -> Option<int>
    decreases s.len() - from,
{
    if from < 0 || from >= s.len() {
        None
    } else if s[from] == x {
        Some(from)
    } else {
        position_of(s, x, from + 1)
    }
}

proof fn lemma_position_of_bounds(s: Seq<usize>, x: usize, from: int)
    requires
        0 <= from,
    ensures
        position_of(s, x, from) matches Some(p) ==> from <= p < s.len(),
    decreases s.len() - from,
{
    if from < s.len() && s[from] != x {
        lemma_position_of_bounds(s, x, from + 1);
    }
}

/// Where a move lands in the filtered list: one step forward or back from
/// the selection's position (the first position when the selection is not
/// listed), wrapping around.
pub open spec fn navigate_target(filtered: Seq<usize>, selected: usize, forward: bool) -> int {
    let pos = match position_of(filtered, selected, 0) {
        Some(p) => p,
        None => 0,
    };
    if forward {
        (pos + 1) % (filtered.len() as int)
    } else if pos == 0 {
        filtered.len() - 1
    } else {
        pos - 1
    }
}

/// In an increasing list, an element is found at its own position.
proof fn lemma_position_in_increasing(s: Seq<usize>, p: int, from: int)
    requires
        0 <= from <= p < s.len(),
        forall|i: int, j: int| 0 <= i < j < s.len() ==> #[trigger] s[i] < #[trigger] s[j],
    ensures
        position_of(s, s[p], from) == Some(p),
    decreases p - from,
{
    if from < p {
        assert(s[from] < s[p]);
        lemma_position_in_increasing(s, p, from + 1);
    }
}

/// In the library's filtered list, a move down followed by a move up (or up
/// then down) comes back to the entry it started from.
pub proof fn law_navigate_round_trip(
    entries: Seq<(ThemeModel, ThemeSource)>,
    f: LibFilter,
    q: Seq<char>,
    n: int,
    p: int,
)
    requires
        n <= entries.len(),
        n <= usize::MAX,
        0 <= p < filtered_spec(entries, f, q, n).len(),
    ensures
        ({
            let s = filtered_spec(entries, f, q, n);
            let down = s[navigate_target(s, s[p], true)];
            s[navigate_target(s, down, false)] == s[p]
        }),
        ({
            let s = filtered_spec(entries, f, q, n);
            let up = s[navigate_target(s, s[p], false)];
            s[navigate_target(s, up, true)] == s[p]
        }),
{
    let s = filtered_spec(entries, f, q, n);
    lemma_filtered_bounds(entries, f, q, n);
    let len = s.len() as int;
    lemma_position_in_increasing(s, p, 0);
    let down_pos = if p + 1 < len {
        p + 1
    } else {
        0
    };
    if p + 1 < len {
        vstd::arithmetic::div_mod::lemma_small_mod((p + 1) as nat, len as nat);
    } else {
        vstd::arithmetic::div_mod::lemma_mod_self_0(len);
    }
    assert(navigate_target(s, s[p], true) == down_pos);
    lemma_position_in_increasing(s, down_pos, 0);
    let up_pos = if p == 0 {
        len - 1
    } else {
        p - 1
    };
    assert(navigate_target(s, s[p], false) == up_pos);
    lemma_position_in_increasing(s, up_pos, 0);
    if up_pos + 1 < len {
        vstd::arithmetic::div_mod::lemma_small_mod((up_pos + 1) as nat, len as nat);
    } else {
        vstd::arithmetic::div_mod::lemma_mod_self_0(len);
    }
}

impl AppState {
    /// Refilters the library's entries by its filter and search.
    pub fn recompute_filtered(&mut self)
        requires
            old(self).themes.len() > 0,
            old(self).selected < old(self).themes.len(),
            old(self).home_selected < 4,
        ensures
            final(self).wf(),
            final(self).lib_filtered_indices@ == filtered_spec(
                entry_views(old(self).themes@),
                old(self).lib_filter,
                old(self).lib_search_query@,
                old(self).themes.len() as int,
            ),
            final(self).themes == old(self).themes,
            final(self).mode == old(self).mode,
            final(self).home_selected == old(self).home_selected,
            final(self).selected == old(self).selected,
            final(self).status == old(self).status,
            final(self).creator == old(self).creator,
            final(self).creator_focus == old(self).creator_focus,
            final(self).editing_slug == old(self).editing_slug,
            final(self).pending_delete_slug == old(self).pending_delete_slug,
            final(self).lib_search_query == old(self).lib_search_query,
            final(self).lib_search_active == old(self).lib_search_active,
            final(self).lib_filter == old(self).lib_filter,
    {
        let ghost entries = entry_views(self.themes@);
        let mut out: Vec<usize> = Vec::new();
        let mut i: usize = 0;
        while i < self.themes.len()
            invariant
                i <= self.themes.len(),
                entries == entry_views(self.themes@),
                out@ == filtered_spec(entries, self.lib_filter, self.lib_search_query@, i as int),
            decreases self.themes.len() - i,
        {
            let keep = matches_filter(&self.themes[i], &self.lib_filter) && matches_search(
                &self.themes[i],
                self.lib_search_query.as_str(),
            );
            if keep {
                out.push(i);
            }
            i = i + 1;
        }
        proof {
            lemma_filtered_bounds(
                entries,
                self.lib_filter,
                self.lib_search_query@,
                self.themes.len() as int,
            );
        }
        self.lib_filtered_indices = out;
    }

    /// Moves the selection one step through the filtered entries and asks to
    /// preview the entry it lands on. With no filtered entries nothing moves.
    pub fn navigate_filtered(&mut self, forward: bool) -> (r: Action)
        requires
            old(self).wf(),
        ensures
            final(self).wf(),
            old(self).lib_filtered_indices.len() == 0 ==> r is Stay && final(self).selected
                == old(self).selected && final(self).status == old(self).status,
            old(self).lib_filtered_indices.len() > 0 ==> {
                let target = old(self).lib_filtered_indices@[navigate_target(
                    old(self).lib_filtered_indices@,
                    old(self).selected,
                    forward,
                )];
                &&& final(self).selected == target
                &&& r matches Action::Preview(i) && i == target
                &&& final(self).status@ == "Previewing "@ + old(self).themes@[target as int].name@
                    + "."@
            },
            final(self).themes == old(self).themes,
            final(self).mode == old(self).mode,
            final(self).home_selected == old(self).home_selected,
            final(self).lib_filtered_indices == old(self).lib_filtered_indices,
            final(self).lib_search_query == old(self).lib_search_query,
            final(self).lib_search_active == old(self).lib_search_active,
            final(self).lib_filter == old(self).lib_filter,
            final(self).pending_delete_slug == old(self).pending_delete_slug,
            final(self).editing_slug == old(self).editing_slug,
            final(self).creator == old(self).creator,
            final(self).creator_focus == old(self).creator_focus,
    {
        let n = self.lib_filtered_indices.len();
        if n == 0 {
            return Action::Stay;
        }
        let mut k: usize = 0;
        while k < n && self.lib_filtered_indices[k] != self.selected
            invariant
                k <= n,
                n == self.lib_filtered_indices.len(),
                position_of(self.lib_filtered_indices@, self.selected, 0) == position_of(
                    self.lib_filtered_indices@,
                    self.selected,
                    k as int,
                ),
            decreases n - k,
        {
            k = k + 1;
        }
        let pos = if k < n {
            k
        } else {
            0
        };
        let new_pos = if forward {
            (pos + 1) % n
        } else if pos == 0 {
            n - 1
        } else {
            pos - 1
        };
        self.selected = self.lib_filtered_indices[new_pos];
        self.status = concat3("Previewing ", self.themes[self.selected].name.as_str(), ".");
        Action::Preview(self.selected)
    }

    /// The library's keys. While a delete waits for confirmation, `y`
    /// confirms and any other key cancels; while the search is active, keys
    /// edit the query; otherwise keys navigate, filter, save, preview, edit,
    /// create a new theme (`n` or `c`) or delete.
    pub fn library_key(&mut self, key: KeyInput) -> (r: Action)
        requires
            old(self).wf(),
        ensures
            final(self).wf(),
            final(self).themes == old(self).themes,
            library_key_spec(*old(self), key, *final(self), r),
    {
        if let Some(slug) = &self.pending_delete_slug {
            let slug = slug.clone();
            match key {
                KeyInput::Char { ch, .. } if ch == 'y' || ch == 'Y' => {
                    let builtin_override = self.has_override_entry(slug.as_str());
                    self.pending_delete_slug = None;
                    return Action::Delete { slug, builtin_override };
                },
                _ => {
                    self.pending_delete_slug = None;
                    self.status = String::from_str("Delete cancelled.");
                    return Action::Stay;
                },
            }
        }
        if self.lib_search_active {
            match key {
                KeyInput::Esc | KeyInput::Enter => {
                    self.lib_search_active = false;
                },
                KeyInput::Backspace => {
                    pop_char(&mut self.lib_search_query);
                    self.recompute_filtered();
                },
                KeyInput::Char { ch, plain } => {
                    if plain {
                        push_char(&mut self.lib_search_query, ch);
                        self.recompute_filtered();
                    }
                },
                _ => {},
            }
            return Action::Stay;
        }
        match key {
            KeyInput::Esc => Action::Quit,
            KeyInput::Tab => {
                self.lib_filter = self.lib_filter.next();
                self.recompute_filtered();
                Action::Stay
            },
            KeyInput::Down => self.navigate_filtered(true),
            KeyInput::Up => self.navigate_filtered(false),
            KeyInput::Enter => self.save_selected_key(),
            KeyInput::Char { ch, .. } => {
                if ch == 'q' {
                    Action::Quit
                } else if ch == 'h' {
                    self.mode = AppMode::Home;
                    self.status = String::from_str("Returned home.");
                    Action::Stay
                } else if ch == '/' {
                    self.lib_search_active = true;
                    Action::Stay
                } else if ch == 'f' {
                    self.lib_filter = self.lib_filter.next();
                    self.recompute_filtered();
                    Action::Stay
                } else if ch == 'j' {
                    self.navigate_filtered(true)
                } else if ch == 'k' {
                    self.navigate_filtered(false)
                } else if ch == 'a' {
                    self.save_selected_key()
                } else if ch == 'p' {
                    let i = self.selected;
                    self.status = concat3("Previewing ", self.themes[i].name.as_str(), ".");
                    Action::Preview(i)
                } else if ch == 'e' {
                    let theme = self.themes[self.selected].copy();
                    self.mode = AppMode::Creator;
                    self.creator = CreatorState::from_theme(&theme);
                    self.editing_slug = Some(theme.slug);
                    self.status = String::from_str("Editing theme.");
                    Action::Stay
                } else if ch == 'n' || ch == 'c' {
                    self.mode = AppMode::Creator;
                    self.creator = CreatorState::default();
                    self.editing_slug = None;
                    self.status = String::from_str("Theme creator launched.");
                    Action::Stay
                } else if ch == 'd' {
                    let i = self.selected;
                    match self.themes[i].source {
                        ThemeSource::Custom | ThemeSource::BuiltInOverride => {
                            let slug = self.themes[i].slug.clone();
                            self.status = concat3("Delete '", slug.as_str(), "'? y/n");
                            self.pending_delete_slug = Some(slug);
                        },
                        ThemeSource::BuiltIn => {
                            self.status = String::from_str("Cannot delete built-in theme.");
                        },
                    }
                    Action::Stay
                } else {
                    Action::Stay
                }
            },
            _ => Action::Stay,
        }
    }

    /// Enter or `a` in the library: save the selected entry and recolor.
    fn save_selected_key(&mut self) -> (r: Action)
        requires
            old(self).wf(),
        ensures
            final(self).wf(),
            r matches Action::SaveAndApply(i) && i == old(self).selected,
            final(self).status@ == "Applied "@ + old(self).themes@[old(self).selected as int].name@
                + "."@,
            *final(self) == (AppState { status: final(self).status, ..*old(self) }),
    {
        let i = self.selected;
        self.status = concat3("Applied ", self.themes[i].name.as_str(), ".");
        Action::SaveAndApply(i)
    }

    /// Whether some entry with this slug is an override.
    fn has_override_entry(&self, slug: &str) -> (r: bool)
        ensures
            r == exists|i: int|
                0 <= i < self.themes.len() && #[trigger] self.themes@[i].slug@ == slug@
                    && self.themes@[i].source == ThemeSource::BuiltInOverride,
    {
        let mut i: usize = 0;
        while i < self.themes.len()
            invariant
                i <= self.themes.len(),
                forall|j: int|
                    0 <= j < i ==> !(#[trigger] self.themes@[j].slug@ == slug@
                        && self.themes@[j].source == ThemeSource::BuiltInOverride),
            decreases self.themes.len() - i,
        {
            if same_text(self.themes[i].slug.as_str(), slug) && self.themes[i].source
                == ThemeSource::BuiltInOverride {
                return true;
            }
            i = i + 1;
        }
        false
    }

    /// A click in the library's list: a left click on a row selects the
    /// filtered entry shown there and asks to preview it. The list occupies
    /// `width` columns and `height` rows from (`area_x`, `area_y`).
    pub fn library_click(
        &mut self,
        column: u16,
        row: u16,
        area_x: u16,
        area_y: u16,
        width: u16,
        height: u16,
    ) -> (r: Action)
        requires
            old(self).wf(),
            area_x + width <= u16::MAX,
            area_y + height <= u16::MAX,
        ensures
            final(self).wf(),
            ({
                let inside = area_x <= column < area_x + width && area_y <= row < area_y + height;
                let idx = row - area_y;
                if inside && idx < old(self).lib_filtered_indices.len() {
                    let target = old(self).lib_filtered_indices@[idx];
                    &&& r matches Action::Preview(i) && i == target
                    &&& *final(self) == (AppState {
                        selected: target,
                        status: final(self).status,
                        ..*old(self)
                    })
                    &&& final(self).status@ == "Previewing "@ + old(
                        self,
                    ).themes@[target as int].name@ + "."@
                } else {
                    r is Stay && *final(self) == *old(self)
                }
            }),
    {
        if column < area_x || column >= area_x + width || row < area_y || row >= area_y + height {
            return Action::Stay;
        }
        let idx = (row - area_y) as usize;
        if idx < self.lib_filtered_indices.len() {
            self.selected = self.lib_filtered_indices[idx];
            self.status = concat3("Previewing ", self.themes[self.selected].name.as_str(), ".");
            return Action::Preview(self.selected);
        }
        Action::Stay
    }

    /// After a confirmed delete: when something was deleted, reload the
    /// entries from the updated configuration and say so.
    pub fn after_delete(&mut self, slug: &str, deleted: bool, saved: &crate::config::Config)
        requires
            old(self).wf(),
        ensures
            final(self).wf(),
            !deleted ==> *final(self) == *old(self),
            deleted ==> {
                &&& final(self).status@ == "Deleted '"@ + slug@ + "'."@
                &&& entry_views(final(self).themes@) == super::entries_spec(saved@)
                &&& final(self).selected as int == super::current_index_spec(
                    super::entries_spec(saved@),
                    saved@.theme,
                )
                &&& final(self).lib_filtered_indices@ == filtered_spec(
                    super::entries_spec(saved@),
                    old(self).lib_filter,
                    old(self).lib_search_query@,
                    super::entries_spec(saved@).len() as int,
                )
                &&& *final(self) == (AppState {
                    themes: final(self).themes,
                    selected: final(self).selected,
                    status: final(self).status,
                    lib_filtered_indices: final(self).lib_filtered_indices,
                    ..*old(self)
                })
            },
    {
        if deleted {
            self.reload_themes(saved);
            self.status = concat3("Deleted '", slug, "'.");
        }
    }
}

/// What a library key does (see [`AppState::library_key`]).
pub open spec fn library_key_spec(s: AppState, key: KeyInput, t: AppState, r: Action) -> bool {
    if s.pending_delete_slug is Some {
        let slug = s.pending_delete_slug->0;
        if key matches KeyInput::Char { ch, .. } && (ch == 'y' || ch == 'Y') {
            &&& r matches Action::Delete { slug: d, builtin_override } && d@ == slug@ && builtin_override
                == exists|i: int|
                0 <= i < s.themes.len() && #[trigger] s.themes@[i].slug@ == slug@
                    && s.themes@[i].source == ThemeSource::BuiltInOverride
            &&& t == (AppState { pending_delete_slug: None, ..s })
        } else {
            &&& r is Stay
            &&& t == (AppState { pending_delete_slug: None, status: t.status, ..s })
            &&& t.status@ == "Delete cancelled."@
        }
    } else if s.lib_search_active {
        &&& r is Stay
        &&& match key {
            KeyInput::Esc | KeyInput::Enter => t == (AppState { lib_search_active: false, ..s }),
            KeyInput::Backspace => {
                &&& t.lib_search_query@ == (if s.lib_search_query@.len() == 0 {
                    s.lib_search_query@
                } else {
                    s.lib_search_query@.drop_last()
                })
                &&& t == (AppState {
                    lib_search_query: t.lib_search_query,
                    lib_filtered_indices: t.lib_filtered_indices,
                    ..s
                })
                &&& t.lib_filtered_indices@ == filtered_spec(
                    entry_views(s.themes@),
                    s.lib_filter,
                    t.lib_search_query@,
                    s.themes.len() as int,
                )
            },
            KeyInput::Char { ch, plain } => if plain {
                &&& t.lib_search_query@ == s.lib_search_query@.push(ch)
                &&& t == (AppState {
                    lib_search_query: t.lib_search_query,
                    lib_filtered_indices: t.lib_filtered_indices,
                    ..s
                })
                &&& t.lib_filtered_indices@ == filtered_spec(
                    entry_views(s.themes@),
                    s.lib_filter,
                    t.lib_search_query@,
                    s.themes.len() as int,
                )
            } else {
                t == s
            },
            _ => t == s,
        }
    } else {
        match key {
            KeyInput::Esc => r is Quit && t == s,
            KeyInput::Tab => filter_step(s, t, r),
            KeyInput::Down => navigate_step(s, t, r, true),
            KeyInput::Up => navigate_step(s, t, r, false),
            KeyInput::Enter => save_step(s, t, r),
            KeyInput::Char { ch, .. } => if ch == 'q' {
                r is Quit && t == s
            } else if ch == 'h' {
                &&& r is Stay
                &&& t == (AppState { mode: AppMode::Home, status: t.status, ..s })
                &&& t.status@ == "Returned home."@
            } else if ch == '/' {
                r is Stay && t == (AppState { lib_search_active: true, ..s })
            } else if ch == 'f' {
                filter_step(s, t, r)
            } else if ch == 'j' {
                navigate_step(s, t, r, true)
            } else if ch == 'k' {
                navigate_step(s, t, r, false)
            } else if ch == 'a' {
                save_step(s, t, r)
            } else if ch == 'p' {
                &&& r matches Action::Preview(i) && i == s.selected
                &&& t == (AppState { status: t.status, ..s })
                &&& t.status@ == "Previewing "@ + s.themes@[s.selected as int].name@ + "."@
            } else if ch == 'e' {
                let e = s.themes@[s.selected as int];
                &&& r is Stay
                &&& t == (AppState {
                    mode: AppMode::Creator,
                    creator: t.creator,
                    editing_slug: t.editing_slug,
                    status: t.status,
                    ..s
                })
                &&& super::creator::forked_draft(t.creator, e@)
                &&& t.editing_slug matches Some(slug) && slug@ == e.slug@
                &&& t.status@ == "Editing theme."@
            } else if ch == 'n' || ch == 'c' {
                &&& r is Stay
                &&& t == (AppState {
                    mode: AppMode::Creator,
                    creator: t.creator,
                    editing_slug: None,
                    status: t.status,
                    ..s
                })
                &&& super::default_draft(t.creator)
                &&& t.status@ == "Theme creator launched."@
            } else if ch == 'd' {
                let e = s.themes@[s.selected as int];
                &&& r is Stay
                &&& if e.source == ThemeSource::BuiltIn {
                    &&& t == (AppState { status: t.status, ..s })
                    &&& t.status@ == "Cannot delete built-in theme."@
                } else {
                    &&& t == (AppState {
                        status: t.status,
                        pending_delete_slug: t.pending_delete_slug,
                        ..s
                    })
                    &&& t.pending_delete_slug matches Some(p) && p@ == e.slug@
                    &&& t.status@ == "Delete '"@ + e.slug@ + "'? y/n"@
                }
            } else {
                r is Stay && t == s
            },
            _ => r is Stay && t == s,
        }
    }
}

/// `f` or Tab: the next filter, and the list refiltered.
pub open spec fn filter_step(s: AppState, t: AppState, r: Action) -> bool {
    &&& r is Stay
    &&& t == (AppState {
        lib_filter: t.lib_filter,
        lib_filtered_indices: t.lib_filtered_indices,
        ..s
    })
    &&& filter_index(t.lib_filter) == (filter_index(s.lib_filter) + 1) % 6
    &&& t.lib_filtered_indices@ == filtered_spec(
        entry_views(s.themes@),
        t.lib_filter,
        s.lib_search_query@,
        s.themes.len() as int,
    )
}

/// Down/`j` or Up/`k`: one step through the filtered list, previewed.
pub open spec fn navigate_step(s: AppState, t: AppState, r: Action, forward: bool) -> bool {
    if s.lib_filtered_indices.len() == 0 {
        r is Stay && t == s
    } else {
        let target = s.lib_filtered_indices@[navigate_target(
            s.lib_filtered_indices@,
            s.selected,
            forward,
        )];
        &&& r matches Action::Preview(i) && i == target
        &&& t == (AppState { selected: target, status: t.status, ..s })
        &&& t.status@ == "Previewing "@ + s.themes@[target as int].name@ + "."@
    }
}

/// Enter or `a`: save and apply the selected entry.
pub open spec fn save_step(s: AppState, t: AppState, r: Action) -> bool {
    &&& r matches Action::SaveAndApply(i) && i == s.selected
    &&& t == (AppState { status: t.status, ..s })
    &&& t.status@ == "Applied "@ + s.themes@[s.selected as int].name@ + "."@
}

} // verus!
