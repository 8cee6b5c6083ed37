//! The bundled themes and lookup by slug or name.
use vstd::prelude::*;

use crate::text::{same_text, slug, slugify};

verus! {

/// A bundled color theme: terminal foreground, background, cursor and
/// selection colors, the sixteen ANSI palette colors, and descriptive
/// metadata.
#[derive(Clone, Copy, Debug, PartialEq, Eq)]
pub struct Theme {
    pub name: &'static str,
    pub slug: &'static str,
    pub foreground: &'static str,
    pub background: &'static str,
    pub cursor: &'static str,
    pub selection: &'static str,
    pub ansi: [&'static str; 16],
    pub description: &'static str,
    pub author: &'static str,
    pub kind: &'static str,
    pub mood: &'static [&'static str],
}

impl Theme {
    /// The accent color: palette entry 3 (yellow).
    pub fn accent(&self) -> (r: &'static str)
        ensures
            r == self.ansi[3],
    {
        self.ansi[3]
    }

    /// The dimmed text color: palette entry 8 (bright black).
    pub fn dim(&self) -> (r: &'static str)
        ensures
            r == self.ansi[8],
    {
        self.ansi[8]
    }

    /// The border color: palette entry 8 (bright black).
    pub fn border(&self) -> (r: &'static str)
        ensures
            r == self.ansi[8],
    {
        self.ansi[8]
    }

    /// The success color: palette entry 2 (green).
    pub fn success(&self) -> (r: &'static str)
        ensures
            r == self.ansi[2],
    {
        self.ansi[2]
    }

    /// The warning color: palette entry 3 (yellow).
    pub fn warning(&self) -> (r: &'static str)
        ensures
            r == self.ansi[3],
    {
        self.ansi[3]
    }

    /// The error color: palette entry 1 (red).
    pub fn error(&self) -> (r: &'static str)
        ensures
            r == self.ansi[1],
    {
        self.ansi[1]
    }
}

/// Whether a theme answers to a query already reduced to a slug: by its
/// slug, or by the slug of its name.
pub open spec fn theme_matches(t: Theme, key: Seq<char>) -> bool {
    t.slug@ == key || slug(t.name@) == key
}

/// The first theme of `ts`, from index `from` on, that answers to `key`.
pub open spec fn first_theme_match(ts: Seq<Theme>, key: Seq<char>, from: int) -> Option<Theme>
    decreases ts.len() - from,
{
    if from < 0 || from >= ts.len() {
        None
    } else if theme_matches(ts[from], key) {
        Some(ts[from])
    } else {
        first_theme_match(ts, key, from + 1)
    }
}

/// The bundled themes, in the order in which they are listed.
pub open spec fn builtin_themes() -> Seq<Theme> {
    seq![
        Theme {
            name: "Tokyo Night",
            slug: "tokyo-night",
            foreground: "#c0caf5",
            background: "#1a1b26",
            cursor: "#c0caf5",
            selection: "#33467c",
            ansi: [
                "#15161e", "#f7768e", "#9ece6a", "#e0af68", "#7aa2f7", "#bb9af7", "#7dcfff", "#a9b1d6",
                "#414868", "#f7768e", "#9ece6a", "#e0af68", "#7aa2f7", "#bb9af7", "#7dcfff", "#c0caf5",
            ],
            description: "Clean modern dark with a cool blue cast.",
            author: "built-in",
            kind: "built-in",
            mood: &["dark", "cool"],
        },
        Theme {
            name: "Catppuccin Mocha",
            slug: "catppuccin-mocha",
            foreground: "#cdd6f4",
            background: "#1e1e2e",
            cursor: "#f5e0dc",
            selection: "#45475a",
            ansi: [
                "#45475a", "#f38ba8", "#a6e3a1", "#f9e2af", "#89b4fa", "#f5c2e7", "#94e2d5", "#bac2de",
                "#585b70", "#f38ba8", "#a6e3a1", "#f9e2af", "#89b4fa", "#f5c2e7", "#94e2d5", "#a6adc8",
            ],
            description: "Soothing pastel theme with warm undertones.",
            author: "built-in",
            kind: "built-in",
            mood: &["dark", "warm"],
        },
        Theme {
            name: "Gruvbox Dark",
            slug: "gruvbox-dark",
            foreground: "#ebdbb2",
            background: "#282828",
            cursor: "#ebdbb2",
            selection: "#504945",
            ansi: [
                "#282828", "#cc241d", "#98971a", "#d79921", "#458588", "#b16286", "#689d6a", "#a89984",
                "#928374", "#fb4934", "#b8bb26", "#fabd2f", "#83a598", "#d3869b", "#8ec07c", "#ebdbb2",
            ],
            description: "Retro warm earth tones \u{2014} high contrast and easy on eyes.",
            author: "built-in",
            kind: "built-in",
            mood: &["dark", "warm"],
        },
        Theme {
            name: "Solarized Dark",
            slug: "solarized-dark",
            foreground: "#839496",
            background: "#002b36",
            cursor: "#93a1a1",
            selection: "#073642",
            ansi: [
                "#073642", "#dc322f", "#859900", "#b58900", "#268bd2", "#d33682", "#2aa198", "#eee8d5",
                "#002b36", "#cb4b16", "#586e75", "#657b83", "#839496", "#6c71c4", "#93a1a1", "#fdf6e3",
            ],
            description: "Precision-tuned palette \u{2014} cyan-leaning dark base.",
            author: "built-in",
            kind: "built-in",
            mood: &["dark", "cool"],
        },
        Theme {
            name: "Solarized Light",
            slug: "solarized-light",
            foreground: "#657b83",
            background: "#fdf6e3",
            cursor: "#586e75",
            selection: "#eee8d5",
            ansi: [
                "#073642", "#dc322f", "#859900", "#b58900", "#268bd2", "#d33682", "#2aa198", "#eee8d5",
                "#002b36", "#cb4b16", "#586e75", "#657b83", "#839496", "#6c71c4", "#93a1a1", "#fdf6e3",
            ],
            description: "Light variant \u{2014} cream paper background.",
            author: "built-in",
            kind: "built-in",
            mood: &["light", "warm"],
        },
        Theme {
            name: "Dracula",
            slug: "dracula",
            foreground: "#f8f8f2",
            background: "#282a36",
            cursor: "#f8f8f2",
            selection: "#44475a",
            ansi: [
                "#21222c", "#ff5555", "#50fa7b", "#f1fa8c", "#bd93f9", "#ff79c6", "#8be9fd", "#f8f8f2",
                "#6272a4", "#ff6e6e", "#69ff94", "#ffffa5", "#d6acff", "#ff92df", "#a4ffff", "#ffffff",
            ],
            description: "Pastel-on-purple, popular vampire theme.",
            author: "built-in",
            kind: "built-in",
            mood: &["dark", "cool"],
        },
        Theme {
            name: "Nord",
            slug: "nord",
            foreground: "#d8dee9",
            background: "#2e3440",
            cursor: "#d8dee9",
            selection: "#4c566a",
            ansi: [
                "#3b4252", "#bf616a", "#a3be8c", "#ebcb8b", "#81a1c1", "#b48ead", "#88c0d0", "#e5e9f0",
                "#4c566a", "#bf616a", "#a3be8c", "#ebcb8b", "#81a1c1", "#b48ead", "#8fbcbb", "#eceff4",
            ],
            description: "Cold arctic minimalism \u{2014} desaturated blues and frost.",
            author: "built-in",
            kind: "built-in",
            mood: &["dark", "cool"],
        },
        Theme {
            name: "One Dark",
            slug: "one-dark",
            foreground: "#abb2bf",
            background: "#282c34",
            cursor: "#528bff",
            selection: "#3e4451",
            ansi: [
                "#282c34", "#e06c75", "#98c379", "#e5c07b", "#61afef", "#c678dd", "#56b6c2", "#abb2bf",
                "#5c6370", "#e06c75", "#98c379", "#e5c07b", "#61afef", "#c678dd", "#56b6c2", "#ffffff",
            ],
            description: "Atom-inspired dark theme with balanced colors.",
            author: "built-in",
            kind: "built-in",
            mood: &["dark", "neutral"],
        },
        Theme {
            name: "Cedar Clay",
            slug: "cedar-clay",
            foreground: "#eadfb0",
            background: "#1d120c",
            cursor: "#e6d9a7",
            selection: "#6f3a22",
            ansi: [
                "#1d120c", "#8d341f", "#9f9a70", "#a96832", "#7c6f53", "#b8784a", "#b2a982", "#d8cc9b",
                "#4b2416", "#c4552f", "#c3bd8c", "#d28a45", "#a89775", "#dea36d", "#d9d1aa", "#f2e6b9",
            ],
            description: "Warm earthy dark \u{2014} clay reds and amber on deep umber.",
            author: "built-in",
            kind: "built-in",
            mood: &["dark", "warm"],
        },
        Theme {
            name: "Mint Lagoon",
            slug: "mint-lagoon",
            foreground: "#1f725f",
            background: "#f1f1f1",
            cursor: "#2f9f87",
            selection: "#ccebdd",
            ansi: [
                "#e9e9e9", "#c75f67", "#6dcc91", "#b7b66a", "#4d91a8", "#8a7bb8", "#35a383", "#237663",
                "#cfcfcf", "#df7c83", "#83d9a4", "#d0cb80", "#68adc0", "#a694c9", "#57bea0", "#124f43",
            ],
            description: "Soft mint-on-light \u{2014} calm low-contrast green.",
            author: "built-in",
            kind: "built-in",
            mood: &["light", "cool"],
        },
        Theme {
            name: "Harbor Harvest",
            slug: "harbor-harvest",
            foreground: "#58627d",
            background: "#f4edc9",
            cursor: "#deaa62",
            selection: "#e8d086",
            ansi: [
                "#eee5b8", "#ad6659", "#8f9364", "#dfaf66", "#7d88a7", "#9b7fa2", "#6f9b99", "#5f6680",
                "#d8ca8e", "#c67a65", "#a8aa75", "#efc37a", "#929db8", "#b497b4", "#86b4ad", "#312a24",
            ],
            description: "Warm golden light theme \u{2014} harvest hues on parchment.",
            author: "built-in",
            kind: "built-in",
            mood: &["light", "warm"],
        },
        Theme {
            name: "Forest Depths",
            slug: "forest-depths",
            foreground: "#d8ead7",
            background: "#071f18",
            cursor: "#b7e4c7",
            selection: "#1f4d3d",
            ansi: [
                "#071f18", "#d46a5d", "#6fbe7d", "#d6b85f", "#5f9ea8", "#b07ab2", "#5fc7a3", "#c7d8c3",
                "#164236", "#ef8a7b", "#92d99b", "#ead37a", "#80bdc5", "#c996cb", "#82dfbf", "#eff7e8",
            ],
            description: "Deep forest dark \u{2014} emerald canopy with mossy undertones.",
            author: "built-in",
            kind: "built-in",
            mood: &["dark", "cool"],
        },
        Theme {
            name: "Rose Fern",
            slug: "rose-fern",
            foreground: "#FFD786",
            background: "#237227",
            cursor: "#FFD6DD",
            selection: "#2F6E5A",
            ansi: [
                "#2A5D4D", "#F26076", "#7ED4A4", "#F2C66D", "#86B6FF", "#D99AF6", "#6DD5CF", "#F7B6C2",
                "#367A63", "#FF7F91", "#A0E2BA", "#F8D98F", "#A5C8FF", "#E6B5FA", "#8FE4DF", "#FFE6EB",
            ],
            description: "Muted rose on forest \u{2014} dusty botanical.",
            author: "built-in",
            kind: "built-in",
            mood: &["dark", "warm"],
        }
    ]
}

/// The bundled themes, in order. The first is the default theme.
pub fn themes() -> (r: Vec<Theme>)
    ensures
        r@ == builtin_themes(),
{
    let r = vec![
        Theme {
            name: "Tokyo Night",
            slug: "tokyo-night",
            foreground: "#c0caf5",
            background: "#1a1b26",
            cursor: "#c0caf5",
            selection: "#33467c",
            ansi: [
                "#15161e", "#f7768e", "#9ece6a", "#e0af68", "#7aa2f7", "#bb9af7", "#7dcfff", "#a9b1d6",
                "#414868", "#f7768e", "#9ece6a", "#e0af68", "#7aa2f7", "#bb9af7", "#7dcfff", "#c0caf5",
            ],
            description: "Clean modern dark with a cool blue cast.",
            author: "built-in",
            kind: "built-in",
            mood: &["dark", "cool"],
        },
        Theme {
            name: "Catppuccin Mocha",
            slug: "catppuccin-mocha",
            foreground: "#cdd6f4",
            background: "#1e1e2e",
            cursor: "#f5e0dc",
            selection: "#45475a",
            ansi: [
                "#45475a", "#f38ba8", "#a6e3a1", "#f9e2af", "#89b4fa", "#f5c2e7", "#94e2d5", "#bac2de",
                "#585b70", "#f38ba8", "#a6e3a1", "#f9e2af", "#89b4fa", "#f5c2e7", "#94e2d5", "#a6adc8",
            ],
            description: "Soothing pastel theme with warm undertones.",
            author: "built-in",
            kind: "built-in",
            mood: &["dark", "warm"],
        },
        Theme {
            name: "Gruvbox Dark",
            slug: "gruvbox-dark",
            foreground: "#ebdbb2",
            background: "#282828",
            cursor: "#ebdbb2",
            selection: "#504945",
            ansi: [
                "#282828", "#cc241d", "#98971a", "#d79921", "#458588", "#b16286", "#689d6a", "#a89984",
                "#928374", "#fb4934", "#b8bb26", "#fabd2f", "#83a598", "#d3869b", "#8ec07c", "#ebdbb2",
            ],
            description: "Retro warm earth tones \u{2014} high contrast and easy on eyes.",
            author: "built-in",
            kind: "built-in",
            mood: &["dark", "warm"],
        },
        Theme {
            name: "Solarized Dark",
            slug: "solarized-dark",
            foreground: "#839496",
            background: "#002b36",
            cursor: "#93a1a1",
            selection: "#073642",
            ansi: [
                "#073642", "#dc322f", "#859900", "#b58900", "#268bd2", "#d33682", "#2aa198", "#eee8d5",
                "#002b36", "#cb4b16", "#586e75", "#657b83", "#839496", "#6c71c4", "#93a1a1", "#fdf6e3",
            ],
            description: "Precision-tuned palette \u{2014} cyan-leaning dark base.",
            author: "built-in",
            kind: "built-in",
            mood: &["dark", "cool"],
        },
        Theme {
            name: "Solarized Light",
            slug: "solarized-light",
            foreground: "#657b83",
            background: "#fdf6e3",
            cursor: "#586e75",
            selection: "#eee8d5",
            ansi: [
                "#073642", "#dc322f", "#859900", "#b58900", "#268bd2", "#d33682", "#2aa198", "#eee8d5",
                "#002b36", "#cb4b16", "#586e75", "#657b83", "#839496", "#6c71c4", "#93a1a1", "#fdf6e3",
            ],
            description: "Light variant \u{2014} cream paper background.",
            author: "built-in",
            kind: "built-in",
            mood: &["light", "warm"],
        },
        Theme {
            name: "Dracula",
            slug: "dracula",
            foreground: "#f8f8f2",
            background: "#282a36",
            cursor: "#f8f8f2",
            selection: "#44475a",
            ansi: [
                "#21222c", "#ff5555", "#50fa7b", "#f1fa8c", "#bd93f9", "#ff79c6", "#8be9fd", "#f8f8f2",
                "#6272a4", "#ff6e6e", "#69ff94", "#ffffa5", "#d6acff", "#ff92df", "#a4ffff", "#ffffff",
            ],
            description: "Pastel-on-purple, popular vampire theme.",
            author: "built-in",
            kind: "built-in",
            mood: &["dark", "cool"],
        },
        Theme {
            name: "Nord",
            slug: "nord",
            foreground: "#d8dee9",
            background: "#2e3440",
            cursor: "#d8dee9",
            selection: "#4c566a",
            ansi: [
                "#3b4252", "#bf616a", "#a3be8c", "#ebcb8b", "#81a1c1", "#b48ead", "#88c0d0", "#e5e9f0",
                "#4c566a", "#bf616a", "#a3be8c", "#ebcb8b", "#81a1c1", "#b48ead", "#8fbcbb", "#eceff4",
            ],
            description: "Cold arctic minimalism \u{2014} desaturated blues and frost.",
            author: "built-in",
            kind: "built-in",
            mood: &["dark", "cool"],
        },
        Theme {
            name: "One Dark",
            slug: "one-dark",
            foreground: "#abb2bf",
            background: "#282c34",
            cursor: "#528bff",
            selection: "#3e4451",
            ansi: [
                "#282c34", "#e06c75", "#98c379", "#e5c07b", "#61afef", "#c678dd", "#56b6c2", "#abb2bf",
                "#5c6370", "#e06c75", "#98c379", "#e5c07b", "#61afef", "#c678dd", "#56b6c2", "#ffffff",
            ],
            description: "Atom-inspired dark theme with balanced colors.",
            author: "built-in",
            kind: "built-in",
            mood: &["dark", "neutral"],
        },
        Theme {
            name: "Cedar Clay",
            slug: "cedar-clay",
            foreground: "#eadfb0",
            background: "#1d120c",
            cursor: "#e6d9a7",
            selection: "#6f3a22",
            ansi: [
                "#1d120c", "#8d341f", "#9f9a70", "#a96832", "#7c6f53", "#b8784a", "#b2a982", "#d8cc9b",
                "#4b2416", "#c4552f", "#c3bd8c", "#d28a45", "#a89775", "#dea36d", "#d9d1aa", "#f2e6b9",
            ],
            description: "Warm earthy dark \u{2014} clay reds and amber on deep umber.",
            author: "built-in",
            kind: "built-in",
            mood: &["dark", "warm"],
        },
        Theme {
            name: "Mint Lagoon",
            slug: "mint-lagoon",
            foreground: "#1f725f",
            background: "#f1f1f1",
            cursor: "#2f9f87",
            selection: "#ccebdd",
            ansi: [
                "#e9e9e9", "#c75f67", "#6dcc91", "#b7b66a", "#4d91a8", "#8a7bb8", "#35a383", "#237663",
                "#cfcfcf", "#df7c83", "#83d9a4", "#d0cb80", "#68adc0", "#a694c9", "#57bea0", "#124f43",
            ],
            description: "Soft mint-on-light \u{2014} calm low-contrast green.",
            author: "built-in",
            kind: "built-in",
            mood: &["light", "cool"],
        },
        Theme {
            name: "Harbor Harvest",
            slug: "harbor-harvest",
            foreground: "#58627d",
            background: "#f4edc9",
            cursor: "#deaa62",
            selection: "#e8d086",
            ansi: [
                "#eee5b8", "#ad6659", "#8f9364", "#dfaf66", "#7d88a7", "#9b7fa2", "#6f9b99", "#5f6680",
                "#d8ca8e", "#c67a65", "#a8aa75", "#efc37a", "#929db8", "#b497b4", "#86b4ad", "#312a24",
            ],
            description: "Warm golden light theme \u{2014} harvest hues on parchment.",
            author: "built-in",
            kind: "built-in",
            mood: &["light", "warm"],
        },
        Theme {
            name: "Forest Depths",
            slug: "forest-depths",
            foreground: "#d8ead7",
            background: "#071f18",
            cursor: "#b7e4c7",
            selection: "#1f4d3d",
            ansi: [
                "#071f18", "#d46a5d", "#6fbe7d", "#d6b85f", "#5f9ea8", "#b07ab2", "#5fc7a3", "#c7d8c3",
                "#164236", "#ef8a7b", "#92d99b", "#ead37a", "#80bdc5", "#c996cb", "#82dfbf", "#eff7e8",
            ],
            description: "Deep forest dark \u{2014} emerald canopy with mossy undertones.",
            author: "built-in",
            kind: "built-in",
            mood: &["dark", "cool"],
        },
        Theme {
            name: "Rose Fern",
            slug: "rose-fern",
            foreground: "#FFD786",
            background: "#237227",
            cursor: "#FFD6DD",
            selection: "#2F6E5A",
            ansi: [
                "#2A5D4D", "#F26076", "#7ED4A4", "#F2C66D", "#86B6FF", "#D99AF6", "#6DD5CF", "#F7B6C2",
                "#367A63", "#FF7F91", "#A0E2BA", "#F8D98F", "#A5C8FF", "#E6B5FA", "#8FE4DF", "#FFE6EB",
            ],
            description: "Muted rose on forest \u{2014} dusty botanical.",
            author: "built-in",
            kind: "built-in",
            mood: &["dark", "warm"],
        }
    ];
    assert(r@ =~= builtin_themes());
    r
}

/// The default theme: the first bundled one.
pub fn default_theme() -> (r: Theme)
    ensures
        r == builtin_themes()[0],
{
    let all = themes();
    all[0]
}

/// Looks a bundled theme up by slug or by name. The query and the names are
/// compared as slugs, so case, spacing and punctuation do not matter; the
/// first theme in list order that answers wins.
pub fn find_theme(query: &str) -> (r: Option<Theme>)
    ensures
        r == first_theme_match(builtin_themes(), slug(query@), 0),
{
    let normalized = slugify(query);
    let all = themes();
    let mut i: usize = 0;
    while i < all.len()
        invariant
            i <= all.len(),
            all@ == builtin_themes(),
            normalized@ == slug(query@),
            first_theme_match(all@, normalized@, 0) == first_theme_match(all@, normalized@, i as int),
        decreases all.len() - i,
    {
        let t = all[i];
        let by_name = slugify(t.name);
        if same_text(t.slug, normalized.as_str()) || same_text(by_name.as_str(), normalized.as_str()) {
            return Some(t);
        }
        i = i + 1;
    }
    None
}

} // verus!

verus! {

/// The slugs of the bundled themes' names are their slugs, and no two
/// bundled themes share a slug.
pub proof fn lemma_builtin_slugs()
    ensures
        forall|i: int|
            0 <= i < builtin_themes().len() ==> #[trigger] slug(builtin_themes()[i].name@)
                == builtin_themes()[i].slug@,
        forall|i: int, j: int|
            0 <= i < builtin_themes().len() && 0 <= j < builtin_themes().len() && i != j
                ==> #[trigger] builtin_themes()[i].slug@ != #[trigger] builtin_themes()[j].slug@,
{
    reveal_strlit("Tokyo Night");
    reveal_strlit("tokyo-night");
    reveal_strlit("Catppuccin Mocha");
    reveal_strlit("catppuccin-mocha");
    reveal_strlit("Gruvbox Dark");
    reveal_strlit("gruvbox-dark");
    reveal_strlit("Solarized Dark");
    reveal_strlit("solarized-dark");
    reveal_strlit("Solarized Light");
    reveal_strlit("solarized-light");
    reveal_strlit("Dracula");
    reveal_strlit("dracula");
    reveal_strlit("Nord");
    reveal_strlit("nord");
    reveal_strlit("One Dark");
    reveal_strlit("one-dark");
    reveal_strlit("Cedar Clay");
    reveal_strlit("cedar-clay");
    reveal_strlit("Mint Lagoon");
    reveal_strlit("mint-lagoon");
    reveal_strlit("Harbor Harvest");
    reveal_strlit("harbor-harvest");
    reveal_strlit("Forest Depths");
    reveal_strlit("forest-depths");
    reveal_strlit("Rose Fern");
    reveal_strlit("rose-fern");
    reveal_with_fuel(slug, 17);
    let ts = builtin_themes();
    assert(ts[0].slug@.len() == 11 && ts[0].slug@[0] == 't');
    assert(ts[1].slug@.len() == 16 && ts[1].slug@[0] == 'c');
    assert(ts[2].slug@.len() == 12 && ts[2].slug@[0] == 'g');
    assert(ts[3].slug@.len() == 14 && ts[3].slug@[0] == 's');
    assert(ts[4].slug@.len() == 15 && ts[4].slug@[0] == 's');
    assert(ts[5].slug@.len() == 7 && ts[5].slug@[0] == 'd');
    assert(ts[6].slug@.len() == 4 && ts[6].slug@[0] == 'n');
    assert(ts[7].slug@.len() == 8 && ts[7].slug@[0] == 'o');
    assert(ts[8].slug@.len() == 10 && ts[8].slug@[0] == 'c');
    assert(ts[9].slug@.len() == 11 && ts[9].slug@[0] == 'm');
    assert(ts[10].slug@.len() == 14 && ts[10].slug@[0] == 'h');
    assert(ts[11].slug@.len() == 13 && ts[11].slug@[0] == 'f');
    assert(ts[12].slug@.len() == 9 && ts[12].slug@[0] == 'r');
    assert forall|i: int, j: int|
        0 <= i < ts.len() && 0 <= j < ts.len() && i != j implies #[trigger] ts[i].slug@
        != #[trigger] ts[j].slug@ by {
        assert(0 <= i <= 12 && 0 <= j <= 12);
        assert(i == 0 || i == 1 || i == 2 || i == 3 || i == 4 || i == 5 || i == 6 || i == 7 || i
            == 8 || i == 9 || i == 10 || i == 11 || i == 12);
        assert(j == 0 || j == 1 || j == 2 || j == 3 || j == 4 || j == 5 || j == 6 || j == 7 || j
            == 8 || j == 9 || j == 10 || j == 11 || j == 12);
        if ts[i].slug@ == ts[j].slug@ {
            assert(ts[i].slug@.len() == ts[j].slug@.len());
            assert(ts[i].slug@[0] == ts[j].slug@[0]);
        }
    }
    assert(slug("Tokyo Night"@) == "tokyo-night"@);
    assert(slug("Catppuccin Mocha"@) == "catppuccin-mocha"@);
    assert(slug("Gruvbox Dark"@) == "gruvbox-dark"@);
    assert(slug("Solarized Dark"@) == "solarized-dark"@);
    assert(slug("Solarized Light"@) == "solarized-light"@);
    assert(slug("Dracula"@) == "dracula"@);
    assert(slug("Nord"@) == "nord"@);
    assert(slug("One Dark"@) == "one-dark"@);
    assert(slug("Cedar Clay"@) == "cedar-clay"@);
    assert(slug("Mint Lagoon"@) == "mint-lagoon"@);
    assert(slug("Harbor Harvest"@) == "harbor-harvest"@);
    assert(slug("Forest Depths"@) == "forest-depths"@);
    assert(slug("Rose Fern"@) == "rose-fern"@);
}

proof fn lemma_first_match_at(ts: Seq<Theme>, key: Seq<char>, from: int, i: int)
    requires
        0 <= from <= i < ts.len(),
        theme_matches(ts[i], key),
        forall|j: int| from <= j < i ==> !theme_matches(#[trigger] ts[j], key),
    ensures
        first_theme_match(ts, key, from) == Some(ts[i]),
    decreases i - from,
{
    if from < i {
        lemma_first_match_at(ts, key, from + 1, i);
    }
}

/// Every bundled theme is found by its slug and by its name.
pub proof fn law_find_theme_by_slug_or_name(i: int)
    requires
        0 <= i < builtin_themes().len(),
    ensures
        first_theme_match(builtin_themes(), slug(builtin_themes()[i].slug@), 0)
            == Some(builtin_themes()[i]),
        first_theme_match(builtin_themes(), slug(builtin_themes()[i].name@), 0)
            == Some(builtin_themes()[i]),
{
    let ts = builtin_themes();
    lemma_builtin_slugs();
    crate::text::lemma_slug_idempotent(ts[i].name@);
    let key = ts[i].slug@;
    assert(slug(key) == key);
    assert forall|j: int| 0 <= j < i implies !theme_matches(#[trigger] ts[j], key) by {
        assert(slug(ts[j].name@) == ts[j].slug@);
        assert(ts[j].slug@ != ts[i].slug@);
    }
    lemma_first_match_at(ts, key, 0, i);
}

} // verus!
