//! Which pane has the focus, and which commands the detail pane sends.
use vstd::prelude::*;

use crate::message::{LibraryItem, QuitTarget, UtopiaRequest};

verus! {

/// The pane of the folded window that has the focus.
#[derive(Debug, Clone, Copy, PartialEq, Eq, Structural)]
pub enum LeafletFoci {
    Providers,
    Library,
    Details,
}

impl Default for LeafletFoci {
    fn default() -> (r: Self)
        ensures
            r == LeafletFoci::Providers,
    {
        LeafletFoci::Providers
    }
}

/// What pressing the back button does to the window.
#[derive(Debug, Clone, Copy, PartialEq, Eq, Structural)]
pub enum BackAction {
    Nothing,
    /// Navigate the outer leaflet back to the provider list.
    NavigateBack,
    /// Hide the detail pane.
    HideDetail,
}

/// Pressing back: the focus falls back to the provider list, and what is
/// left depends on where it was.
pub fn back_pressed(f: LeafletFoci) -> (r: (LeafletFoci, BackAction))
    ensures
        r.0 == LeafletFoci::Providers,
        r.1 == match f {
            LeafletFoci::Providers => BackAction::Nothing,
            LeafletFoci::Library => BackAction::NavigateBack,
            LeafletFoci::Details => BackAction::HideDetail,
        },
{
    match f {
        LeafletFoci::Providers => (LeafletFoci::Providers, BackAction::Nothing),
        LeafletFoci::Library => (LeafletFoci::Providers, BackAction::NavigateBack),
        LeafletFoci::Details => (LeafletFoci::Providers, BackAction::HideDetail),
    }
}

/// The focus after the window folds or unfolds: folding keeps it; unfolding
/// moves a focus on the details to the library and any other to the
/// provider list.
pub fn fold_changed(f: LeafletFoci, folded: bool) -> (r: LeafletFoci)
    ensures
        folded ==> r == f,
        !folded ==> r == (if f == LeafletFoci::Details {
            LeafletFoci::Library
        } else {
            LeafletFoci::Providers
        }),
{
    if folded {
        f
    } else if f == LeafletFoci::Details {
        LeafletFoci::Library
    } else {
        LeafletFoci::Providers
    }
}

/// The focus after the detail pane is shown or hidden.
pub fn detail_shown(visible: bool) -> (r: LeafletFoci)
    ensures
        r == (if visible {
            LeafletFoci::Details
        } else {
            LeafletFoci::Library
        }),
{
    if visible {
        LeafletFoci::Details
    } else {
        LeafletFoci::Library
    }
}

/// The name of the provider-list row that selects every provider.
pub const ALL_PROVIDERS_ROW: &'static str = "dev.sp1rit.Utopia.restricted.µtopia_all";

/// The provider filter that selecting a row of the provider list sets: none
/// for the row of all providers, else the row's name.
pub fn selected_module(row: &String) -> (r: Option<String>)
    ensures
        row@ == ALL_PROVIDERS_ROW@ ==> r is None,
        row@ != ALL_PROVIDERS_ROW@ ==> (r matches Some(m) && m@ == row@),
{
    let all = ALL_PROVIDERS_ROW.to_owned();
    if *row == all {
        None
    } else {
        Some(row.clone())
    }
}

/// The command of the detail pane's main button: launch the shown item, or
/// close it while it runs.
pub fn primary_request(current: &Option<String>, running: bool) -> (r: Option<UtopiaRequest>)
    ensures
        current is None ==> r is None,
        current matches Some(u) ==> (!running ==> (r matches Some(UtopiaRequest::TriggerLaunch(x))
            && x@ == u@)),
        current matches Some(u) ==> (running ==> (r matches Some(
            UtopiaRequest::TriggerClose(QuitTarget::ActiveProvider(x)),
        ) && x@ == u@)),
{
    match current {
        None => None,
        Some(u) => {
            if running {
                Some(UtopiaRequest::TriggerClose(QuitTarget::ActiveProvider(u.clone())))
            } else {
                Some(UtopiaRequest::TriggerLaunch(u.clone()))
            }
        },
    }
}

/// The command of the kill action: only for a shown item that runs.
pub fn kill_request(current: &Option<String>, running: bool) -> (r: Option<UtopiaRequest>)
    ensures
        (current is None || !running) ==> r is None,
        current matches Some(u) ==> (running ==> (r matches Some(
            UtopiaRequest::TriggerKill(QuitTarget::ActiveProvider(x)),
        ) && x@ == u@)),
{
    match current {
        Some(u) => {
            if running {
                Some(UtopiaRequest::TriggerKill(QuitTarget::ActiveProvider(u.clone())))
            } else {
                None
            }
        },
        None => None,
    }
}

/// The command of the preferences action: the dialog of the shown item
/// under its selected provider.
pub fn preferences_request(current: &Option<String>, module: &Option<String>) -> (r: Option<
    UtopiaRequest,
>)
    ensures
        (current is None || module is None) ==> r is None,
        current matches Some(u) ==> (module matches Some(m) ==> (r matches Some(
            UtopiaRequest::TriggerPreferenceDiag(p, x),
        ) && p@ == m@ && x@ == u@)),
{
    match (current, module) {
        (Some(u), Some(m)) => Some(UtopiaRequest::TriggerPreferenceDiag(m.clone(), u.clone())),
        _ => None,
    }
}

/// The command sent when another provider is picked for the shown item:
/// none unless an item is shown and the pick differs from the selected
/// provider.
pub fn provider_change_request(current: &Option<String>, module: &Option<String>, picked: &String) -> (r:
    Option<UtopiaRequest>)
    ensures
        (current is None || module is None) ==> r is None,
        current matches Some(u) ==> (module matches Some(m) ==> (m@ == picked@ ==> r is None)),
        current matches Some(u) ==> (module matches Some(m) ==> (m@ != picked@ ==> (r matches Some(
            UtopiaRequest::TriggerProviderUpdate(x, p),
        ) && x@ == u@ && p@ == picked@))),
{
    match (current, module) {
        (Some(u), Some(m)) => {
            if *m != *picked {
                Some(UtopiaRequest::TriggerProviderUpdate(u.clone(), picked.clone()))
            } else {
                None
            }
        },
        _ => None,
    }
}

/// Why the grid tells the detail pane about an item.
#[derive(Debug, Clone, Copy, PartialEq, Eq, Structural)]
pub enum SidebarMsgAction {
    /// The user selected the item.
    Trigger,
    /// The item changed.
    Update,
}

/// Whether the detail pane shows what the grid sent: a change of an item
/// other than the one shown is passed over.
pub fn sidebar_relevant(action: SidebarMsgAction, current: &Option<String>, item_uuid: &String) -> (r:
    bool)
    ensures
        r == !(action == SidebarMsgAction::Update && !(current matches Some(u) && u@ == item_uuid@)),
{
    if action == SidebarMsgAction::Update {
        match current {
            Some(u) => *u == *item_uuid,
            None => false,
        }
    } else {
        true
    }
}

/// Some element of `known` has the view `p`.
pub open spec fn knows(known: Seq<String>, p: Seq<char>) -> bool {
    exists|k: int| 0 <= k < known.len() && #[trigger] known[k]@ == p
}

/// Records in the provider list each provider of `item` it does not list
/// yet, in the item's order, and returns the positions in `item.providers`
/// of those it added.
pub fn register_providers(known: &mut Vec<String>, item: &LibraryItem) -> (added: Vec<usize>)
    ensures
        final(known)@.len() == old(known)@.len() + added@.len(),
        final(known)@.take(old(known)@.len() as int) == old(known)@,
        forall|j: int|
            0 <= j < added@.len() ==> #[trigger] added@[j] < item.providers@.len()
                && final(known)@[old(known)@.len() + j]@ == item.providers@[added@[j] as int].0@
                && !knows(final(known)@.take(old(known)@.len() + j), final(known)@[old(known)@.len() + j]@),
        forall|p: int| 0 <= p < item.providers@.len() ==> knows(final(known)@, #[trigger] item.providers@[p].0@),
        forall|j: int, k: int| 0 <= j < k < added@.len() ==> added@[j] < added@[k],
{
    let ghost start = known@;
    let mut added: Vec<usize> = Vec::new();
    let n = item.providers.len();
    let mut p: usize = 0;
    while p < n
        invariant
            n == item.providers@.len(),
            0 <= p <= n,
            known@.len() == start.len() + added@.len(),
            known@.take(start.len() as int) == start,
            forall|j: int|
                0 <= j < added@.len() ==> #[trigger] added@[j] < item.providers@.len()
                    && known@[start.len() + j]@ == item.providers@[added@[j] as int].0@
                    && !knows(known@.take(start.len() + j), known@[start.len() + j]@),
            forall|q: int| 0 <= q < p ==> knows(known@, #[trigger] item.providers@[q].0@),
            forall|j: int, k: int| 0 <= j < k < added@.len() ==> added@[j] < added@[k],
            forall|j: int| 0 <= j < added@.len() ==> added@[j] < p,
        decreases n - p,
    {
        let id = &item.providers[p].0;
        let m = known.len();
        let mut k: usize = 0;
        let mut found = false;
        while k < m
            invariant
                m == known@.len(),
                0 <= k <= m,
                found == knows(known@.take(k as int), id@),
            decreases m - k,
        {
            if !found && known[k] == *id {
                found = true;
                assert(known@.take(k + 1)[k as int] == known@[k as int]);
            }
            proof {
                if knows(known@.take(k as int), id@) {
                    let w = choose|w: int| 0 <= w < k && #[trigger] known@.take(k as int)[w]@ == id@;
                    assert(known@.take(k + 1)[w] == known@.take(k as int)[w]);
                }
                if knows(known@.take(k + 1), id@) && known@[k as int]@ != id@ {
                    let w = choose|w: int| 0 <= w < k + 1 && #[trigger] known@.take(k + 1)[w]@ == id@;
                    assert(known@.take(k as int)[w] == known@.take(k + 1)[w]);
                }
            }
            k = k + 1;
        }
        assert(known@.take(m as int) =~= known@);
        if !found {
            let ghost before = known@;
            known.push(id.clone());
            added.push(p);
            proof {
                assert(known@.take(start.len() as int) =~= before.take(start.len() as int));
                assert(known@.take(before.len() as int) =~= before);
                assert forall|j: int|
                    0 <= j < added@.len() implies #[trigger] added@[j] < item.providers@.len()
                        && known@[start.len() + j]@ == item.providers@[added@[j] as int].0@
                        && !knows(known@.take(start.len() + j), known@[start.len() + j]@) by {
                    if j < added@.len() - 1 {
                        assert(known@.take(start.len() + j) =~= before.take(start.len() + j));
                    }
                }
                assert forall|q: int| 0 <= q < p + 1 implies knows(known@, #[trigger] item.providers@[q].0@) by {
                    if q < p {
                        let w = choose|w: int| 0 <= w < before.len() && #[trigger] before[w]@ == item.providers@[q].0@;
                        assert(known@[w] == before[w]);
                    } else {
                        assert(known@[before.len() as int]@ == item.providers@[q].0@);
                    }
                }
            }
        }
        p = p + 1;
    }
    added
}

} // verus!
