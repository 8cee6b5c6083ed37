//! The command line: its subcommands, and what each one computes from the
//! saved configuration. Parsing the arguments, loading and saving the
//! configuration file and writing to the terminal are the application's
//! part; [`execute`] returns an [`Outcome`] that says which of them to do.
use vstd::prelude::*;

use crate::apply::{
    colors_sequence, custom_theme_escape_sequence, reset_escape_sequence, reset_sequence,
    string_views,
};
use crate::config::{
    first_resolved_match, resolved_spec, resolved_views, Config, ConfigModel, CustomTheme,
    ResolvedTheme, ThemeModel,
};
use crate::shell::{init_snippet, HOOK_COMMAND};
use crate::text::{concat3, slug};

verus! {

/// A subcommand.
pub enum Command {
    /// Apply the saved theme to the current terminal session.
    Apply,
    /// Make the theme with this slug or name the saved one.
    SetTheme { theme: String },
    /// List the names of all themes.
    List,
    /// Print the slug of the saved theme.
    Current,
    /// Print the shell snippet that re-applies the saved theme.
    Init,
    /// Ask the terminal to restore its default palette.
    Reset,
}

/// The parsed command line: a subcommand, or none for the interactive
/// picker.
pub struct Cli {
    pub command: Option<Command>,
}

/// What a command asks the application to do.
pub enum Outcome {
    /// Write this text to the terminal, as it is.
    Write(String),
    /// Print these lines.
    Print(Vec<String>),
    /// Save this configuration.
    Save(Config),
    /// Start the interactive picker.
    Interactive,
    /// Stop with this error message.
    Fail(String),
}

/// Whether a command reads the saved configuration.
pub open spec fn reads_config(cli: Cli) -> bool {
    match cli.command {
        Some(Command::Apply) | Some(Command::SetTheme { .. }) | Some(Command::List) | Some(
            Command::Current,
        ) => true,
        _ => false,
    }
}

/// The theme names of a resolved list, in order.
pub open spec fn names_of(r: Seq<(ThemeModel, crate::config::ResolvedThemeSource)>) -> Seq<
    Seq<char>,
> {
    r.map_values(|t: (ThemeModel, crate::config::ResolvedThemeSource)| t.0.name)
}

/// The escape sequence that recolors a terminal with a theme's colors.
pub open spec fn theme_sequence(t: ThemeModel) -> Seq<char> {
    colors_sequence(t.foreground, t.background, t.cursor, t.ansi)
}

/// What each command computes (see [`execute`]).
pub open spec fn outcome_spec(cli: Cli, config: Option<Config>, r: Outcome) -> bool {
    match cli.command {
        None => r is Interactive,
        Some(Command::Apply) => {
            let c = config->0@;
            match first_resolved_match(resolved_spec(c), slug(c.theme), 0) {
                Some(t) => r matches Outcome::Write(s) && s@ == theme_sequence(t.0),
                None => r matches Outcome::Fail(m) && m@ == "unknown saved theme '"@ + c.theme
                    + "'"@,
            }
        },
        Some(Command::SetTheme { theme }) => {
            let c = config->0@;
            match first_resolved_match(resolved_spec(c), slug(theme@), 0) {
                Some(t) => r matches Outcome::Save(n) && n@ == (ConfigModel {
                    theme: t.0.slug,
                    ..c
                }),
                None => r matches Outcome::Fail(m) && m@ == "unknown theme '"@ + theme@ + "'"@,
            }
        },
        Some(Command::List) => r matches Outcome::Print(lines) && string_views(lines@)
            == names_of(resolved_spec(config->0@)),
        Some(Command::Current) => r matches Outcome::Print(lines) && string_views(lines@) == seq![
            config->0@.theme,
        ],
        Some(Command::Init) => r matches Outcome::Print(lines) && string_views(lines@) == seq![
            HOOK_COMMAND@,
        ],
        Some(Command::Reset) => r matches Outcome::Write(s) && s@ == reset_sequence(),
    }
}

/// Whether a command reads the saved configuration: the application loads
/// it for these commands only.
pub fn needs_config(cli: &Cli) -> (r: bool)
    ensures
        r == reads_config(*cli),
{
    match &cli.command {
        Some(Command::Apply) | Some(Command::SetTheme { .. }) | Some(Command::List) | Some(
            Command::Current,
        ) => true,
        _ => false,
    }
}

/// A resolved theme's contents as a custom theme.
fn resolved_as_custom(t: ResolvedTheme) -> (r: CustomTheme)
    ensures
        r@ == t@.0,
{
    CustomTheme {
        name: t.name,
        slug: t.slug,
        foreground: t.foreground,
        background: t.background,
        cursor: t.cursor,
        selection: t.selection,
        ansi: t.ansi,
        description: t.description,
        author: t.author,
        kind: t.kind,
        mood: t.mood,
        accent: t.accent,
        success: t.success,
        warning: t.warning,
        error: t.error,
    }
}

/// The names of the resolved themes, in order.
fn theme_names(config: &Config) -> (r: Vec<String>)
    ensures
        string_views(r@) == names_of(resolved_spec(config@)),
{
    let all = config.resolved_themes();
    let mut out: Vec<String> = Vec::new();
    let mut i: usize = 0;
    while i < all.len()
        invariant
            i <= all.len(),
            resolved_views(all@) == resolved_spec(config@),
            out.len() == i,
            forall|k: int| 0 <= k < i ==> #[trigger] out@[k]@ == all@[k]@.0.name,
        decreases all.len() - i,
    {
        out.push(all[i].name.clone());
        i = i + 1;
    }
    assert(string_views(out@) =~= names_of(resolved_views(all@)));
    out
}

/// Runs a command on the saved configuration (given for the commands that
/// read it): `apply` recolors with the saved theme, `set` saves the theme
/// that a query finds, `list` prints every theme's name, `current` the saved
/// slug, `init` the shell snippet, `reset` restores the terminal's colors,
/// and no command starts the picker. A saved theme or a query that matches
/// no theme is an error.
pub fn execute(cli: Cli, config: Option<Config>) -> (r: Outcome)
    requires
        reads_config(cli) ==> config is Some,
    ensures
        outcome_spec(cli, config, r),
{
    match cli.command {
        None => Outcome::Interactive,
        Some(Command::Apply) => {
            let c = config.unwrap();
            match c.resolved_theme_by_query(c.theme.as_str()) {
                Some(t) => {
                    let custom = resolved_as_custom(t);
                    Outcome::Write(custom_theme_escape_sequence(&custom))
                },
                None => Outcome::Fail(concat3("unknown saved theme '", c.theme.as_str(), "'")),
            }
        },
        Some(Command::SetTheme { theme }) => {
            let mut c = config.unwrap();
            match c.resolved_theme_by_query(theme.as_str()) {
                Some(found) => {
                    c.theme = found.slug;
                    Outcome::Save(c)
                },
                None => Outcome::Fail(concat3("unknown theme '", theme.as_str(), "'")),
            }
        },
        Some(Command::List) => {
            let c = config.unwrap();
            Outcome::Print(theme_names(&c))
        },
        Some(Command::Current) => {
            let c = config.unwrap();
            let mut lines: Vec<String> = Vec::new();
            lines.push(c.theme);
            assert(string_views(lines@) =~= seq![config->0@.theme]);
            Outcome::Print(lines)
        },
        Some(Command::Init) => {
            let mut lines: Vec<String> = Vec::new();
            lines.push(init_snippet());
            assert(string_views(lines@) =~= seq![HOOK_COMMAND@]);
            Outcome::Print(lines)
        },
        Some(Command::Reset) => Outcome::Write(reset_escape_sequence()),
    }
}

} // verus!
