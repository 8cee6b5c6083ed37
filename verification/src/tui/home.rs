//! The launcher screen and its keys.
use vstd::prelude::*;

use super::{Action, AppMode, AppState, CreatorState, KeyInput};

verus! {

/// Opening the library from the launcher.
pub open spec fn open_library(s: AppState, t: AppState) -> bool {
    &&& t == (AppState { mode: AppMode::Library, status: t.status, ..s })
    &&& t.status@ == "Library opened."@
}

/// Starting a new theme from the launcher.
pub open spec fn open_new_theme(s: AppState, t: AppState) -> bool {
    &&& t == (AppState {
        mode: AppMode::Creator,
        creator: t.creator,
        editing_slug: None,
        status: t.status,
        ..s
    })
    &&& super::default_draft(t.creator)
    &&& t.status@ == "Theme creator launched."@
}

/// Editing the current theme from the launcher.
pub open spec fn open_edit_active(s: AppState, t: AppState) -> bool {
    let e = s.themes@[s.selected as int];
    &&& t == (AppState {
        mode: AppMode::Creator,
        creator: t.creator,
        editing_slug: t.editing_slug,
        status: t.status,
        ..s
    })
    &&& super::creator::forked_draft(t.creator, e@)
    &&& t.editing_slug matches Some(slug) && slug@ == e.slug@
    &&& t.status@ == "Editing active theme."@
}

/// What a launcher key does (see [`AppState::home_key`]).
pub open spec fn home_key_spec(s: AppState, key: KeyInput, t: AppState, r: Action) -> bool {
    match key {
        KeyInput::Esc => r is Quit && t == s,
        KeyInput::Down => r is Stay && t == (AppState {
            home_selected: ((s.home_selected + 1) % 4) as usize,
            ..s
        }),
        KeyInput::Up => r is Stay && t == (AppState {
            home_selected: if s.home_selected == 0 {
                3
            } else {
                (s.home_selected - 1) as usize
            },
            ..s
        }),
        KeyInput::Enter => {
            &&& r is Stay
            &&& if s.home_selected == 0 {
                open_library(s, t)
            } else if s.home_selected == 1 {
                open_new_theme(s, t)
            } else if s.home_selected == 2 {
                open_edit_active(s, t)
            } else {
                t == s
            }
        },
        KeyInput::Char { ch, .. } => if ch == 'q' {
            r is Quit && t == s
        } else if ch == 'j' {
            r is Stay && t == (AppState { home_selected: ((s.home_selected + 1) % 4) as usize, ..s })
        } else if ch == 'k' {
            r is Stay && t == (AppState {
                home_selected: if s.home_selected == 0 {
                    3
                } else {
                    (s.home_selected - 1) as usize
                },
                ..s
            })
        } else if ch == 'b' || ch == '2' {
            r is Stay && open_library(s, t)
        } else if ch == 'n' || ch == '1' {
            r is Stay && open_new_theme(s, t)
        } else if ch == 'e' {
            r is Stay && open_edit_active(s, t)
        } else {
            r is Stay && t == s
        },
        _ => r is Stay && t == s,
    }
}

impl AppState {
    fn home_open_library(&mut self)
        requires
            old(self).wf(),
        ensures
            final(self).wf(),
            open_library(*old(self), *final(self)),
    {
        self.mode = AppMode::Library;
        self.status = String::from_str("Library opened.");
    }

    fn home_open_new_theme(&mut self)
        requires
            old(self).wf(),
        ensures
            final(self).wf(),
            open_new_theme(*old(self), *final(self)),
    {
        self.mode = AppMode::Creator;
        self.creator = CreatorState::default();
        self.editing_slug = None;
        self.status = String::from_str("Theme creator launched.");
    }

    fn home_edit_active(&mut self)
        requires
            old(self).wf(),
        ensures
            final(self).wf(),
            open_edit_active(*old(self), *final(self)),
    {
        let slug = self.active_theme().slug.clone();
        let draft = CreatorState::from_theme(self.active_theme());
        self.mode = AppMode::Creator;
        self.creator = draft;
        self.editing_slug = Some(slug);
        self.status = String::from_str("Editing active theme.");
    }

    /// The launcher's keys: move through its items, open the library, start
    /// a new theme, edit the current one, or quit.
    pub fn home_key(&mut self, key: KeyInput) -> (r: Action)
        requires
            old(self).wf(),
        ensures
            final(self).wf(),
            home_key_spec(*old(self), key, *final(self), r),
    {
        let down = key == KeyInput::Down || key == (KeyInput::Char { ch: 'j', plain: true }) || key
            == (KeyInput::Char { ch: 'j', plain: false });
        let up = key == KeyInput::Up || key == (KeyInput::Char { ch: 'k', plain: true }) || key == (
        KeyInput::Char { ch: 'k', plain: false });
        if key == KeyInput::Esc {
            return Action::Quit;
        }
        if down {
            self.home_selected = (self.home_selected + 1) % 4;
            return Action::Stay;
        }
        if up {
            self.home_selected = if self.home_selected == 0 {
                3
            } else {
                self.home_selected - 1
            };
            return Action::Stay;
        }
        if key == KeyInput::Enter {
            if self.home_selected == 0 {
                self.home_open_library();
            } else if self.home_selected == 1 {
                self.home_open_new_theme();
            } else if self.home_selected == 2 {
                self.home_edit_active();
            }
            return Action::Stay;
        }
        if let KeyInput::Char { ch, .. } = key {
            if ch == 'q' {
                return Action::Quit;
            } else if ch == 'b' || ch == '2' {
                self.home_open_library();
            } else if ch == 'n' || ch == '1' {
                self.home_open_new_theme();
            } else if ch == 'e' {
                self.home_edit_active();
            }
        }
        Action::Stay
    }
}

} // verus!
