//! Engine-level laws, proved once over the transition relations.
//!
//! Each law quantifies over every state and input the relations admit,
//! so it holds of every run of the loop, whatever order keystrokes and
//! background completions arrive in.
use crate::action::Action;
use crate::dispatch::action_transition;
use crate::dispatch::in_registry;
use crate::dispatch::key_transition;
use crate::dispatch::Context;
use crate::dispatch::KeyRouting;
use crate::dispatch::StoreCommand;
use crate::keys::Key;
use crate::models::Location;
use vstd::prelude::*;

verus! {

/// How often a location with name `name` occurs in `locs`.
pub open spec fn name_count(locs: Seq<Location>, name: Seq<char>) -> int {
    locs.filter(|l: Location| l.name@ == name).len() as int
}

/// Law: the focus always names a registered panel.  Routing any key
/// from a well-formed state leaves the focus on a registered panel.
pub proof fn lemma_key_keeps_focus_registered(
    pre: Context,
    key: Key,
    post: Context,
    r: KeyRouting,
)
    requires
        pre.wf(),
        key_transition(pre, key, post, r),
    ensures
        in_registry(post.focussed),
{
}

/// Law: the focus always names a registered panel.  Dispatching any
/// action from a well-formed state leaves the focus on a registered
/// panel.
pub proof fn lemma_action_keeps_focus_registered(
    pre: Context,
    action: Action,
    post: Context,
    cmd: Option<StoreCommand>,
)
    requires
        pre.wf(),
        action_transition(pre, action, post, cmd),
    ensures
        in_registry(post.focussed),
{
}

/// Law: an active modal owns the input exclusively.  While a modal is
/// open, no key reaches the global bindings or the focused panel: the
/// panels and the focus are untouched, the loop cannot quit, and the
/// modal stays open.
pub proof fn lemma_modal_owns_input(pre: Context, key: Key, post: Context, r: KeyRouting)
    requires
        pre.wf(),
        pre.active_modal.is_active(),
        key_transition(pre, key, post, r),
    ensures
        post.focussed == pre.focussed,
        post.locations_panel == pre.locations_panel,
        post.calendar_panel == pre.calendar_panel,
        !(r is Quit),
        post.active_modal.is_active(),
{
}

/// Law: a completed location reload replaces the cached list exactly,
/// whatever the cache held before, and asks for no further persistence
/// work.
pub proof fn lemma_reload_replaces_cache(
    pre: Context,
    list: Vec<Location>,
    post: Context,
    cmd: Option<StoreCommand>,
)
    requires
        pre.wf(),
        action_transition(pre, Action::AddLocationDbSuccess(list), post, cmd),
    ensures
        post.locations_panel.locations == list,
        cmd is None,
{
}

/// Law: confirming a location's name closes the modal at once and asks
/// for exactly the add-and-reload work; when the matching completion —
/// a reloaded list in which the name occurs exactly once — is
/// dispatched, the cache holds that name exactly once.
pub proof fn lemma_confirm_then_reload_has_name_once(
    c0: Context,
    name: String,
    c1: Context,
    cmd1: Option<StoreCommand>,
    list: Vec<Location>,
    c2: Context,
    cmd2: Option<StoreCommand>,
)
    requires
        c0.wf(),
        action_transition(c0, Action::ConfirmAddLocation(name), c1, cmd1),
        action_transition(c1, Action::AddLocationDbSuccess(list), c2, cmd2),
        name_count(list@, name@) == 1,
    ensures
        c1.active_modal is Closed,
        cmd1 == Option::Some(StoreCommand::AddLocationAndReload(name)),
        name_count(c2.locations_panel.locations@, name@) == 1,
{
}

/// Law: deleting on the locations panel removes exactly the selected
/// cache entry and emits the intent that names it — nothing else
/// changes in the cache.
pub proof fn lemma_delete_removes_exactly_one(pre: Context, c: char, post: Context, r: KeyRouting)
    requires
        pre.wf(),
        pre.active_modal is Closed,
        pre.focussed is Locations,
        c == 'd' || c == 'D',
        pre.locations_panel.locations@.len() > 0,
        key_transition(pre, Key::Char(c), post, r),
    ensures
        post.locations_panel.locations@ == pre.locations_panel.locations@.remove(
            pre.locations_panel.cursor as int,
        ),
        post.locations_panel.locations@.len() == pre.locations_panel.locations@.len() - 1,
        r == KeyRouting::Act(
            Action::DeleteLocation(
                pre.locations_panel.locations@[pre.locations_panel.cursor as int].name,
            ),
        ),
{
}

/// Law: dispatching a delete intent issues no persistence work and
/// changes nothing — deletion against the store is reserved, so no
/// store call is ever made for it.
pub proof fn lemma_delete_issues_no_store_call(
    pre: Context,
    name: String,
    post: Context,
    cmd: Option<StoreCommand>,
)
    requires
        pre.wf(),
        action_transition(pre, Action::DeleteLocation(name), post, cmd),
    ensures
        post == pre,
        cmd is None,
{
}

/// The characters the locations panel reacts to.
pub open spec fn locations_hotkey(c: char) -> bool {
    c == 'j' || c == 'k' || c == 'a' || c == 'A' || c == 'd' || c == 'D'
}

/// The characters the calendar panel reacts to.
pub open spec fn calendar_hotkey(c: char) -> bool {
    c == 'j' || c == 'k' || c == 'h' || c == 'l' || c == 'H' || c == 'L' || c == 't' || c == 'D'
        || c == 'A'
}

/// The characters the global bindings react to.
pub open spec fn global_hotkey(c: char) -> bool {
    c == 'q' || c == '1' || c == '2'
}

/// Law: with no modal open, a character key that neither the global
/// bindings nor the focused panel recognize changes nothing and is
/// absorbed.
pub proof fn lemma_unrecognized_key_is_skipped(pre: Context, c: char, post: Context, r: KeyRouting)
    requires
        pre.wf(),
        pre.active_modal is Closed,
        !global_hotkey(c),
        pre.focussed is Locations ==> !locations_hotkey(c),
        pre.focussed is Calendar ==> !calendar_hotkey(c),
        key_transition(pre, Key::Char(c), post, r),
    ensures
        post == pre,
        r is Ignored,
{
}

} // verus!
