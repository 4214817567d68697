use vstd::prelude::*;
use crate::types::{Cluster, Config, TempConfig};
use crate::merge::{merge_bundle, merge_whole, build_edit_bundle, upsert_cluster_spec,
    merge_opt_context_spec, merge_opt_user_spec, bundle_context_spec, bundle_user_spec};
use crate::codec::{decode_bundle, decode_config, bundle_ok, bundle_decodes, config_ok,
    config_decodes};
use crate::yaml::{yaml_parse, yaml_parse_spec};

verus! {

/// The interactive session state: the document, which cluster is
/// highlighted, the captured selection, and the contextual menu's state.
/// The presentation surface reads this; it never mutates it.
pub struct App {
    pub config: Config,
    pub highlight: Option<usize>,
    pub selected_cluster: Option<Cluster>,
    pub show_menu: bool,
    pub menu_highlight: Option<usize>,
    pub needs_redraw: bool,
}

/// The number of entries of the contextual action menu (edit, delete).
pub open spec fn menu_len() -> int {
    2
}

/// Where one forward step takes the highlight over a non-empty list.
pub open spec fn wrap_next(h: Option<usize>, len: int) -> int {
    match h {
        Some(i) => (i + 1) % len,
        None => 0,
    }
}

/// Where one backward step takes the highlight over a non-empty list.
pub open spec fn wrap_prev(h: Option<usize>, len: int) -> int {
    match h {
        Some(i) => (i + len - 1) % len,
        None => 0,
    }
}

/// The highlight after `n` forward steps over a non-empty list.
pub open spec fn wrap_next_n(h: Option<usize>, len: int, n: nat) -> Option<usize>
    decreases n,
{
    if n == 0 {
        h
    } else {
        Some(wrap_next(wrap_next_n(h, len, (n - 1) as nat), len) as usize)
    }
}

impl App {
    /// The session's well-formedness: a highlight over a non-empty list is
    /// in bounds (over an empty list only position zero may linger, left by
    /// a delete), and the menu highlight stays inside the menu.
    pub open spec fn inv(self) -> bool {
        &&& match self.highlight {
            Some(i) => i < self.config.clusters@.len() || i == 0,
            None => true,
        }
        &&& match self.menu_highlight {
            Some(i) => i < menu_len(),
            None => true,
        }
    }

    /// A fresh session over a loaded document: browsing, nothing
    /// highlighted, nothing selected, no menu.
    pub fn new(config: Config) -> (r: App)
        ensures
            r.config == config,
            r.highlight is None,
            r.selected_cluster is None,
            !r.show_menu,
            r.menu_highlight is None,
            !r.needs_redraw,
            r.inv(),
    {
        App {
            config,
            highlight: None,
            selected_cluster: None,
            show_menu: false,
            menu_highlight: None,
            needs_redraw: false,
        }
    }

    /// Moves the cluster highlight one step forward, wrapping at the end;
    /// over an empty list this is a no-op.
    pub fn next(&mut self)
        requires
            old(self).inv(),
        ensures
            final(self).inv(),
            old(self).config.clusters@.len() == 0 ==> *final(self) == *old(self),
            old(self).config.clusters@.len() > 0 ==> *final(self) == (App {
                highlight: Some(
                    wrap_next(old(self).highlight, old(self).config.clusters@.len() as int)
                        as usize,
                ),
                ..*old(self)
            }),
    {
        let len = self.config.clusters.len();
        if len > 0 {
            let i: usize = match self.highlight {
                Some(i) => (i + 1) % len,
                None => 0,
            };
            self.highlight = Some(i);
        }
    }

    /// Moves the cluster highlight one step backward, wrapping at the
    /// start; over an empty list this is a no-op.
    pub fn previous(&mut self)
        requires
            old(self).inv(),
        ensures
            final(self).inv(),
            old(self).config.clusters@.len() == 0 ==> *final(self) == *old(self),
            old(self).config.clusters@.len() > 0 ==> *final(self) == (App {
                highlight: Some(
                    wrap_prev(old(self).highlight, old(self).config.clusters@.len() as int)
                        as usize,
                ),
                ..*old(self)
            }),
    {
        let len = self.config.clusters.len();
        if len > 0 {
            let i: usize = match self.highlight {
                Some(i) => if i == 0 {
                    len - 1
                } else {
                    i - 1
                },
                None => 0,
            };
            proof {
                if let Some(h) = self.highlight {
                    assert(h < len);
                    assert((h + len - 1) % (len as int) == if h == 0 {
                        len - 1
                    } else {
                        h - 1
                    }) by {
                        if h == 0 {
                            vstd::arithmetic::div_mod::lemma_small_mod(
                                (len - 1) as nat,
                                len as nat,
                            );
                        } else {
                            assert(h + len - 1 == (h - 1) + len);
                            vstd::arithmetic::div_mod::lemma_mod_add_multiples_vanish(
                                h - 1,
                                len as int,
                            );
                            vstd::arithmetic::div_mod::lemma_small_mod(
                                (h - 1) as nat,
                                len as nat,
                            );
                        }
                    }
                }
            }
            self.highlight = Some(i);
        }
    }

    /// Captures the highlighted cluster as the selection; with no highlight
    /// or a highlight out of bounds nothing changes.
    pub fn select(&mut self)
        ensures
            match old(self).highlight {
                Some(i) => if i < old(self).config.clusters@.len() {
                    *final(self) == (App {
                        selected_cluster: Some(old(self).config.clusters@[i as int]),
                        ..*old(self)
                    })
                } else {
                    *final(self) == *old(self)
                },
                None => *final(self) == *old(self),
            },
            old(self).inv() ==> final(self).inv(),
    {
        if let Some(i) = self.highlight {
            if i < self.config.clusters.len() {
                self.selected_cluster = Some(self.config.clusters[i].clone());
            }
        }
    }

    /// Opens or closes the contextual menu, resetting the menu highlight to
    /// its first entry.
    pub fn toggle_menu(&mut self)
        ensures
            *final(self) == (App {
                show_menu: !old(self).show_menu,
                menu_highlight: Some(0usize),
                ..*old(self)
            }),
            old(self).inv() ==> final(self).inv(),
    {
        self.show_menu = !self.show_menu;
        self.menu_highlight = Some(0);
    }

    /// Moves the menu highlight one step forward, wrapping over the two
    /// menu entries.
    pub fn menu_next(&mut self)
        requires
            old(self).inv(),
        ensures
            final(self).inv(),
            *final(self) == (App {
                menu_highlight: Some(
                    match old(self).menu_highlight {
                        Some(i) => ((i + 1) % menu_len()) as usize,
                        None => 0usize,
                    },
                ),
                ..*old(self)
            }),
    {
        let i: usize = match self.menu_highlight {
            Some(i) => (i + 1) % 2,
            None => 0,
        };
        self.menu_highlight = Some(i);
    }

    /// Moves the menu highlight one step backward, wrapping over the two
    /// menu entries.
    pub fn menu_previous(&mut self)
        requires
            old(self).inv(),
        ensures
            final(self).inv(),
            *final(self) == (App {
                menu_highlight: Some(
                    match old(self).menu_highlight {
                        Some(i) => ((i + menu_len() - 1) % menu_len()) as usize,
                        None => (menu_len() - 1) as usize,
                    },
                ),
                ..*old(self)
            }),
    {
        let i: usize = match self.menu_highlight {
            Some(i) => (i + 1) % 2,
            None => 1,
        };
        proof {
            if let Some(h) = self.menu_highlight {
                assert((h + 1) % 2 == (h + 2 - 1) % 2);
            }
        }
        self.menu_highlight = Some(i);
    }

    /// Deletes the highlighted cluster from the document and steps the
    /// highlight back one position, stopping at zero; with no highlight or
    /// one out of bounds nothing changes.  The caller persists afterwards.
    pub fn delete_selected(&mut self)
        requires
            old(self).inv(),
        ensures
            final(self).inv(),
            match old(self).highlight {
                Some(i) => if i < old(self).config.clusters@.len() {
                    &&& final(self).config.clusters@ == old(self).config.clusters@.remove(i as int)
                    &&& final(self).config.users == old(self).config.users
                    &&& final(self).config.contexts == old(self).config.contexts
                    &&& final(self).config.current_context == old(self).config.current_context
                    &&& final(self).config.preferences == old(self).config.preferences
                    &&& final(self).highlight == Some((if i == 0 { 0int } else { i - 1 }) as usize)
                    &&& final(self).needs_redraw
                    &&& final(self).selected_cluster == old(self).selected_cluster
                    &&& final(self).show_menu == old(self).show_menu
                    &&& final(self).menu_highlight == old(self).menu_highlight
                } else {
                    *final(self) == *old(self)
                },
                None => *final(self) == *old(self),
            },
    {
        if let Some(i) = self.highlight {
            if i < self.config.clusters.len() {
                self.config.remove_cluster_at(i);
                self.highlight = Some(if i == 0 { 0 } else { i - 1 });
                self.needs_redraw = true;
            }
        }
    }
}

/// How one edit or add round-trip ended.
#[derive(Clone, Copy, PartialEq, Eq, Structural, Debug)]
pub enum EditOutcome {
    /// The editor succeeded and the result was merged into the document.
    Merged,
    /// The editor exited with a non-success status; nothing changed.
    Aborted,
    /// The edited text did not parse back; nothing changed.
    ParseFailed,
}

/// The closed set of commands the key source feeds the session.
#[derive(Clone, Copy, PartialEq, Eq, Structural, Debug)]
pub enum Command {
    Quit,
    AddNew,
    Next,
    Previous,
    Confirm,
    Cancel,
}

/// What the surrounding process must do after a command was dispatched.
#[derive(Clone, Copy, PartialEq, Eq, Structural, Debug)]
pub enum Action {
    /// Nothing beyond redrawing.
    Stay,
    /// End the program.
    Quit,
    /// Run the editor round-trip for the selected cluster, then persist.
    RunEdit,
    /// Run the editor round-trip for a fresh document, then persist.
    RunAdd,
    /// Persist the document now.
    Save,
}

/// The document after a bundle merge, relative to the document before it.
pub open spec fn bundle_merged(pre: Config, post: Config, b: TempConfig) -> bool {
    &&& post.clusters@ == upsert_cluster_spec(pre.clusters@, b.cluster)
    &&& post.contexts@ == merge_opt_context_spec(pre.contexts@, b.context)
    &&& post.users@ == merge_opt_user_spec(pre.users@, b.user)
    &&& post.current_context == pre.current_context
    &&& post.preferences == pre.preferences
}

/// The document after a whole-document append, relative to the one before.
pub open spec fn whole_appended(pre: Config, post: Config, inc: Config) -> bool {
    &&& post.clusters@ == pre.clusters@ + inc.clusters@
    &&& post.users@ == pre.users@ + inc.users@
    &&& post.contexts@ == pre.contexts@ + inc.contexts@
    &&& post.current_context == pre.current_context
    &&& post.preferences == pre.preferences
}

impl App {
    /// The edit bundle for the captured selection, if there is one.
    pub fn selected_bundle(&self) -> (r: Option<TempConfig>)
        ensures
            match self.selected_cluster {
                Some(c) => {
                    &&& r matches Some(b)
                    &&& b.cluster == c
                    &&& b.context == bundle_context_spec(self.config.contexts@, c.name@)
                    &&& b.user == bundle_user_spec(self.config.users@, b.context)
                },
                None => r is None,
            },
    {
        match &self.selected_cluster {
            Some(c) => Some(build_edit_bundle(&self.config, c)),
            None => None,
        }
    }

    /// Ends an edit round-trip: closes the menu and forces a redraw on every
    /// path; merges the edited bundle only when the editor succeeded and its
    /// output parses back, refreshing the selection to the merged cluster;
    /// otherwise the document is left exactly as it was.
    pub fn finish_edit(&mut self, editor_ok: bool, edited_text: &str) -> (r: EditOutcome)
        requires
            old(self).inv(),
        ensures
            final(self).inv(),
            !final(self).show_menu,
            final(self).menu_highlight is None,
            final(self).needs_redraw,
            final(self).highlight == old(self).highlight,
            !editor_ok ==> r == EditOutcome::Aborted && final(self).config == old(self).config
                && final(self).selected_cluster == old(self).selected_cluster,
            editor_ok ==> match yaml_parse_spec(edited_text@) {
                None => r == EditOutcome::ParseFailed && final(self).config == old(self).config
                    && final(self).selected_cluster == old(self).selected_cluster,
                Some(t) => if bundle_ok(t) {
                    &&& r == EditOutcome::Merged
                    &&& exists|b: TempConfig| {
                        &&& #[trigger] bundle_decodes(t, b)
                        &&& bundle_merged(old(self).config, final(self).config, b)
                        &&& final(self).selected_cluster == Some(b.cluster)
                    }
                } else {
                    r == EditOutcome::ParseFailed && final(self).config == old(self).config
                        && final(self).selected_cluster == old(self).selected_cluster
                },
            },
    {
        self.show_menu = false;
        self.menu_highlight = None;
        self.needs_redraw = true;
        if !editor_ok {
            return EditOutcome::Aborted;
        }
        match yaml_parse(edited_text) {
            None => EditOutcome::ParseFailed,
            Some(y) => match decode_bundle(&y) {
                Err(_) => EditOutcome::ParseFailed,
                Ok(b) => {
                    let sel = b.cluster.clone();
                    merge_bundle(&mut self.config, b);
                    self.selected_cluster = Some(sel);
                    EditOutcome::Merged
                },
            },
        }
    }

    /// Ends an authoring round-trip: forces a redraw on every path; appends
    /// the freshly authored document's entries only when the editor
    /// succeeded and its output parses as a whole document; otherwise the
    /// document is left exactly as it was.
    pub fn finish_add(&mut self, editor_ok: bool, text: &str) -> (r: EditOutcome)
        requires
            old(self).inv(),
        ensures
            final(self).inv(),
            final(self).needs_redraw,
            final(self).highlight == old(self).highlight,
            final(self).show_menu == old(self).show_menu,
            final(self).menu_highlight == old(self).menu_highlight,
            final(self).selected_cluster == old(self).selected_cluster,
            !editor_ok ==> r == EditOutcome::Aborted && final(self).config == old(self).config,
            editor_ok ==> match yaml_parse_spec(text@) {
                None => r == EditOutcome::ParseFailed && final(self).config == old(self).config,
                Some(t) => if config_ok(t) {
                    &&& r == EditOutcome::Merged
                    &&& exists|inc: Config| {
                        &&& #[trigger] config_decodes(t, inc)
                        &&& whole_appended(old(self).config, final(self).config, inc)
                    }
                } else {
                    r == EditOutcome::ParseFailed && final(self).config == old(self).config
                },
            },
    {
        self.needs_redraw = true;
        if !editor_ok {
            return EditOutcome::Aborted;
        }
        match yaml_parse(text) {
            None => EditOutcome::ParseFailed,
            Some(y) => match decode_config(&y) {
                Err(_) => EditOutcome::ParseFailed,
                Ok(inc) => {
                    merge_whole(&mut self.config, inc);
                    EditOutcome::Merged
                },
            },
        }
    }

    /// Routes one command through the state machine and says what outside
    /// work, if any, must follow.
    pub fn dispatch(&mut self, cmd: Command) -> (r: Action)
        requires
            old(self).inv(),
        ensures
            final(self).inv(),
            match cmd {
                Command::Quit => r == Action::Quit && *final(self) == *old(self),
                Command::AddNew => r == Action::RunAdd && *final(self) == *old(self),
                Command::Next => r == Action::Stay && (if old(self).show_menu {
                    *final(self) == (App {
                        menu_highlight: Some(
                            match old(self).menu_highlight {
                                Some(i) => ((i + 1) % menu_len()) as usize,
                                None => 0usize,
                            },
                        ),
                        ..*old(self)
                    })
                } else if old(self).config.clusters@.len() == 0 {
                    *final(self) == *old(self)
                } else {
                    *final(self) == (App {
                        highlight: Some(
                            wrap_next(old(self).highlight, old(self).config.clusters@.len() as int)
                                as usize,
                        ),
                        ..*old(self)
                    })
                }),
                Command::Previous => r == Action::Stay && (if old(self).show_menu {
                    *final(self) == (App {
                        menu_highlight: Some(
                            match old(self).menu_highlight {
                                Some(i) => ((i + menu_len() - 1) % menu_len()) as usize,
                                None => (menu_len() - 1) as usize,
                            },
                        ),
                        ..*old(self)
                    })
                } else if old(self).config.clusters@.len() == 0 {
                    *final(self) == *old(self)
                } else {
                    *final(self) == (App {
                        highlight: Some(
                            wrap_prev(old(self).highlight, old(self).config.clusters@.len() as int)
                                as usize,
                        ),
                        ..*old(self)
                    })
                }),
                Command::Confirm => if old(self).show_menu {
                    match old(self).menu_highlight {
                        Some(0usize) => r == Action::RunEdit && *final(self) == *old(self),
                        Some(1usize) => r == (if delete_acts(*old(self)) {
                            Action::Save
                        } else {
                            Action::Stay
                        }) && confirm_delete_rel(
                            *old(self),
                            *final(self),
                        ),
                        _ => r == Action::Stay && *final(self) == *old(self),
                    }
                } else {
                    r == Action::Stay && confirm_browse_rel(*old(self), *final(self))
                },
                Command::Cancel => r == Action::Stay && (if old(self).show_menu {
                    *final(self) == (App {
                        show_menu: false,
                        menu_highlight: Some(0usize),
                        ..*old(self)
                    })
                } else {
                    *final(self) == *old(self)
                }),
            },
    {
        match cmd {
            Command::Quit => Action::Quit,
            Command::AddNew => Action::RunAdd,
            Command::Next => {
                if self.show_menu {
                    self.menu_next();
                } else {
                    self.next();
                }
                Action::Stay
            },
            Command::Previous => {
                if self.show_menu {
                    self.menu_previous();
                } else {
                    self.previous();
                }
                Action::Stay
            },
            Command::Confirm => {
                if self.show_menu {
                    let choice = self.menu_highlight;
                    match choice {
                        Some(0usize) => Action::RunEdit,
                        Some(1usize) => {
                            let acted = match self.highlight {
                                Some(i) => i < self.config.clusters.len(),
                                None => false,
                            };
                            self.delete_selected();
                            self.show_menu = false;
                            self.menu_highlight = Some(0);
                            if acted {
                                Action::Save
                            } else {
                                Action::Stay
                            }
                        },
                        _ => Action::Stay,
                    }
                } else {
                    self.select();
                    self.toggle_menu();
                    Action::Stay
                }
            },
            Command::Cancel => {
                if self.show_menu {
                    self.toggle_menu();
                }
                Action::Stay
            },
        }
    }
}

/// Whether a delete confirmed from the menu removes anything: it does only
/// when the highlight stands on an existing cluster.  When it does not, the
/// document is untouched and nothing needs to be persisted.
pub open spec fn delete_acts(pre: App) -> bool {
    match pre.highlight {
        Some(i) => i < pre.config.clusters@.len(),
        None => false,
    }
}

/// The state after deleting from the open menu: the highlighted cluster is
/// removed and the highlight stepped back (when the highlight was usable),
/// and the menu closes either way.
pub open spec fn confirm_delete_rel(pre: App, post: App) -> bool {
    &&& match pre.highlight {
        Some(i) => if i < pre.config.clusters@.len() {
            &&& post.config.clusters@ == pre.config.clusters@.remove(i as int)
            &&& post.config.users == pre.config.users
            &&& post.config.contexts == pre.config.contexts
            &&& post.config.current_context == pre.config.current_context
            &&& post.config.preferences == pre.config.preferences
            &&& post.highlight == Some((if i == 0 { 0int } else { i - 1 }) as usize)
            &&& post.needs_redraw
        } else {
            &&& post.config == pre.config
            &&& post.highlight == pre.highlight
            &&& post.needs_redraw == pre.needs_redraw
        },
        None => {
            &&& post.config == pre.config
            &&& post.highlight == pre.highlight
            &&& post.needs_redraw == pre.needs_redraw
        },
    }
    &&& !post.show_menu
    &&& post.menu_highlight == Some(0usize)
    &&& post.selected_cluster == pre.selected_cluster
}

/// The state after confirming while browsing: the highlighted cluster (if
/// usable) becomes the selection and the menu opens on its first entry.
pub open spec fn confirm_browse_rel(pre: App, post: App) -> bool {
    post == (App {
        selected_cluster: match pre.highlight {
            Some(i) => if i < pre.config.clusters@.len() {
                Some(pre.config.clusters@[i as int])
            } else {
                pre.selected_cluster
            },
            None => pre.selected_cluster,
        },
        show_menu: true,
        menu_highlight: Some(0usize),
        ..pre
    })
}

/// Stepping the highlight forward is rotation: after `n` steps from a valid
/// position `i` the highlight stands at `(i + n) mod len`.
pub proof fn lemma_wrap_next_n_rotates(i: usize, len: int, n: nat)
    requires
        0 < len <= usize::MAX,
        i < len,
    ensures
        wrap_next_n(Some(i), len, n) == Some(((i + n) % len) as usize),
    decreases n,
{
    if n == 0 {
        vstd::arithmetic::div_mod::lemma_small_mod(i as nat, len as nat);
    } else {
        lemma_wrap_next_n_rotates(i, len, (n - 1) as nat);
        let x = i + (n - 1) as int;
        let r = x % len;
        vstd::arithmetic::div_mod::lemma_mod_bound(x, len);
        vstd::arithmetic::div_mod::lemma_add_mod_noop(x, 1, len);
        if len == 1 {
            vstd::arithmetic::div_mod::lemma_mod_bound(r + 1, len);
            vstd::arithmetic::div_mod::lemma_mod_bound(i + n, len);
        } else {
            vstd::arithmetic::div_mod::lemma_small_mod(1nat, len as nat);
        }
        vstd::arithmetic::div_mod::lemma_mod_bound(i + n, len);
        assert(x + 1 == i + n);
        assert((r + 1) % len == (i + n) % len);
    }
}

/// Circularity of navigation: over a non-empty cluster list, exactly `len`
/// forward steps return the highlight to where it started.
pub proof fn lemma_next_circular(i: usize, len: int)
    requires
        0 < len <= usize::MAX,
        i < len,
    ensures
        wrap_next_n(Some(i), len, len as nat) == Some(i),
{
    lemma_wrap_next_n_rotates(i, len, len as nat);
    assert((i + len) % len == i) by {
        vstd::arithmetic::div_mod::lemma_mod_add_multiples_vanish(i as int, len);
        vstd::arithmetic::div_mod::lemma_small_mod(i as nat, len as nat);
    }
}

} // verus!
