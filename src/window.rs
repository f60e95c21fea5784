use vstd::prelude::*;

use crate::error::ScrapeError;
use crate::text::same_text;

verus! {

/// Where a window stands among the virtual desktops, as the desktop provider reports it.
#[derive(Debug, Clone, Copy, PartialEq, Eq, Structural)]
pub struct Placement {
    pub on_current_desktop: bool,
    pub pinned_window: bool,
    pub pinned_app: bool,
}

/// A change to the desktop state of a window.
#[derive(Debug, Clone, Copy, PartialEq, Eq, Structural)]
pub enum DesktopAction {
    UnpinApp,
    UnpinWindow,
    MoveToCurrentDesktop,
    PinWindow,
}

/// A top-level window: its title, and its placement where the desktop provider could tell it.
#[derive(Debug, Clone)]
pub struct WindowCandidate {
    pub title: String,
    pub placement: Option<Placement>,
}

impl View for WindowCandidate {
    type V = (Seq<char>, Option<Placement>);

    open spec fn view(&self) -> (Seq<char>, Option<Placement>) {
        (self.title@, self.placement)
    }
}

/// The window chosen, by its index among the candidates, and what to do to its placement.
#[derive(Debug, Clone)]
pub struct WindowChoice {
    pub index: usize,
    pub actions: Vec<DesktopAction>,
}

/// Nothing to do for a window on the current desktop. Otherwise: unpin the application and
/// the window where pinned, then move the window here, or pin it to every desktop.
pub open spec fn placement_actions(p: Placement, move_window: bool) -> Seq<DesktopAction> {
    if p.on_current_desktop {
        seq![]
    } else {
        (if p.pinned_app {
            seq![DesktopAction::UnpinApp]
        } else {
            seq![]
        }) + (if p.pinned_window {
            seq![DesktopAction::UnpinWindow]
        } else {
            seq![]
        }) + seq![
            if move_window {
                DesktopAction::MoveToCurrentDesktop
            } else {
                DesktopAction::PinWindow
            },
        ]
    }
}

/// The placement after one action: a moved window is on the current desktop, and so is a
/// window pinned to every desktop.
pub open spec fn apply_action(p: Placement, a: DesktopAction) -> Placement {
    match a {
        DesktopAction::UnpinApp => Placement { pinned_app: false, ..p },
        DesktopAction::UnpinWindow => Placement { pinned_window: false, ..p },
        DesktopAction::MoveToCurrentDesktop => Placement { on_current_desktop: true, ..p },
        DesktopAction::PinWindow => Placement { on_current_desktop: true, pinned_window: true, ..p },
    }
}

pub open spec fn apply_actions(p: Placement, actions: Seq<DesktopAction>) -> Placement
    decreases actions.len(),
{
    if actions.len() == 0 {
        p
    } else {
        apply_actions(apply_action(p, actions[0]), actions.drop_first())
    }
}

pub open spec fn usable(c: (Seq<char>, Option<Placement>), name: Seq<char>) -> bool {
    c.0 == name && c.1 is Some
}

/// `i` is the first window titled `name` whose placement is known.
pub open spec fn first_usable(
    candidates: Seq<(Seq<char>, Option<Placement>)>,
    name: Seq<char>,
    i: int,
) -> bool {
    &&& 0 <= i < candidates.len()
    &&& usable(candidates[i], name)
    &&& forall|j: int| 0 <= j < i ==> !usable(#[trigger] candidates[j], name)
}

/// What locating the window titled `name` among `candidates` gives: the first usable window
/// and its actions; else `WindowLookupFailed` where some window has that title, and
/// `TargetNotFound` where none has.
pub open spec fn locate_outcome(
    candidates: Seq<(Seq<char>, Option<Placement>)>,
    name: Seq<char>,
    move_window: bool,
) -> Result<(int, Seq<DesktopAction>), ScrapeError> {
    if exists|i: int| first_usable(candidates, name, i) {
        let i = choose|i: int| first_usable(candidates, name, i);
        Ok((i, placement_actions(candidates[i].1->0, move_window)))
    } else if exists|i: int| 0 <= i < candidates.len() && (#[trigger] candidates[i]).0 == name {
        Err(ScrapeError::WindowLookupFailed)
    } else {
        Err(ScrapeError::TargetNotFound)
    }
}

proof fn lemma_first_usable_unique(
    candidates: Seq<(Seq<char>, Option<Placement>)>,
    name: Seq<char>,
    i: int,
    j: int,
)
    requires
        first_usable(candidates, name, i),
        first_usable(candidates, name, j),
    ensures
        i == j,
{
    if i < j {
        assert(!usable(candidates[i], name));
    } else if j < i {
        assert(!usable(candidates[j], name));
    }
}

/// After its own actions a window is on the current desktop: a second placement does nothing.
pub proof fn lemma_placement_settles(p: Placement, move_window: bool)
    ensures
        apply_actions(p, placement_actions(p, move_window)).on_current_desktop,
        placement_actions(apply_actions(p, placement_actions(p, move_window)), move_window)
            == Seq::<DesktopAction>::empty(),
{
    let acts = placement_actions(p, move_window);
    let last = if move_window {
        DesktopAction::MoveToCurrentDesktop
    } else {
        DesktopAction::PinWindow
    };
    if !p.on_current_desktop {
        let p1 = if p.pinned_app {
            apply_action(p, DesktopAction::UnpinApp)
        } else {
            p
        };
        let p2 = if p.pinned_window {
            apply_action(p1, DesktopAction::UnpinWindow)
        } else {
            p1
        };
        let rest = (if p.pinned_window {
            seq![DesktopAction::UnpinWindow]
        } else {
            seq![]
        }) + seq![last];
        if p.pinned_app {
            assert(acts =~= seq![DesktopAction::UnpinApp] + rest);
            assert(acts.drop_first() =~= rest);
        } else {
            assert(acts =~= rest);
        }
        assert(apply_actions(p, acts) == apply_actions(p1, rest));
        if p.pinned_window {
            assert(rest.drop_first() =~= seq![last]);
        }
        assert(apply_actions(p1, rest) == apply_actions(p2, seq![last]));
        assert(seq![last].drop_first() =~= Seq::<DesktopAction>::empty());
        assert(seq![last][0] == last);
        assert(apply_actions(apply_action(p2, last), Seq::<DesktopAction>::empty()) == apply_action(
            p2,
            last,
        ));
        assert(apply_actions(p2, seq![last]) == apply_action(p2, last));
    }
    assert(placement_actions(apply_actions(p, acts), move_window) =~= Seq::<DesktopAction>::empty());
}

/// Locating twice in a row changes nothing the second time: once the actions of the first
/// call are applied to the window it chose, a second call chooses the same window and asks
/// for no action.
pub proof fn lemma_locate_settles(
    candidates: Seq<(Seq<char>, Option<Placement>)>,
    name: Seq<char>,
    move_window: bool,
)
    requires
        locate_outcome(candidates, name, move_window) is Ok,
    ensures
        ({
            let (i, actions) = locate_outcome(candidates, name, move_window)->Ok_0;
            let settled = candidates.update(
                i,
                (candidates[i].0, Some(apply_actions(candidates[i].1->0, actions))),
            );
            locate_outcome(settled, name, move_window) == Ok::<
                (int, Seq<DesktopAction>),
                ScrapeError,
            >((i, Seq::<DesktopAction>::empty()))
        }),
{
    let i = choose|i: int| first_usable(candidates, name, i);
    let p = candidates[i].1->0;
    let actions = placement_actions(p, move_window);
    let settled = candidates.update(i, (candidates[i].0, Some(apply_actions(p, actions))));
    assert forall|j: int| 0 <= j < i implies !usable(#[trigger] settled[j], name) by {
        assert(settled[j] == candidates[j]);
        assert(!usable(candidates[j], name));
    }
    assert(first_usable(settled, name, i));
    let k = choose|k: int| first_usable(settled, name, k);
    lemma_first_usable_unique(settled, name, i, k);
    lemma_placement_settles(p, move_window);
}

fn placement_actions_exec(p: Placement, move_window: bool) -> (r: Vec<DesktopAction>)
    ensures
        r@ == placement_actions(p, move_window),
{
    let mut r: Vec<DesktopAction> = Vec::new();
    if p.on_current_desktop {
        proof {
            assert(r@ =~= placement_actions(p, move_window));
        }
        return r;
    }
    if p.pinned_app {
        r.push(DesktopAction::UnpinApp);
    }
    if p.pinned_window {
        r.push(DesktopAction::UnpinWindow);
    }
    if move_window {
        r.push(DesktopAction::MoveToCurrentDesktop);
    } else {
        r.push(DesktopAction::PinWindow);
    }
    proof {
        assert(r@ =~= placement_actions(p, move_window));
    }
    r
}

/// Picks the first window titled `name` whose placement the desktop provider could tell, and
/// says how to bring it to the current desktop (`move_window`) or to every desktop.
pub fn locate(candidates: &Vec<WindowCandidate>, name: &str, move_window: bool) -> (r: Result<
    WindowChoice,
    ScrapeError,
>)
    ensures
        match r {
            Ok(w) => locate_outcome(candidates@.map_values(|c: WindowCandidate| c@), name@, move_window)
                == Ok::<(int, Seq<DesktopAction>), ScrapeError>((w.index as int, w.actions@)),
            Err(e) => locate_outcome(candidates@.map_values(|c: WindowCandidate| c@), name@, move_window)
                == Err::<(int, Seq<DesktopAction>), ScrapeError>(e),
        },
        r matches Ok(w) ==> (candidates@[w.index as int].placement matches Some(p) && (
        p.on_current_desktop ==> w.actions@.len() == 0)),
{
    let ghost views = candidates@.map_values(|c: WindowCandidate| c@);
    let mut titled = false;
    let mut i: usize = 0;
    while i < candidates.len()
        invariant
            views == candidates@.map_values(|c: WindowCandidate| c@),
            i <= candidates@.len(),
            forall|j: int| 0 <= j < i ==> !usable(#[trigger] views[j], name@),
            titled <==> exists|j: int| 0 <= j < i && (#[trigger] views[j]).0 == name@,
        decreases candidates@.len() - i,
    {
        let c = &candidates[i];
        if same_text(c.title.as_str(), name) {
            match c.placement {
                Some(p) => {
                    proof {
                        assert(views[i as int] == c@);
                        assert(first_usable(views, name@, i as int));
                        let k = choose|k: int| first_usable(views, name@, k);
                        lemma_first_usable_unique(views, name@, i as int, k);
                    }
                    let actions = placement_actions_exec(p, move_window);
                    return Ok(WindowChoice { index: i, actions });
                },
                None => {
                    proof {
                        assert(views[i as int] == c@);
                    }
                    titled = true;
                },
            }
        } else {
            proof {
                assert(views[i as int] == c@);
            }
        }
        i = i + 1;
    }
    proof {
        assert(!exists|k: int| first_usable(views, name@, k));
    }
    if titled {
        Err(ScrapeError::WindowLookupFailed)
    } else {
        Err(ScrapeError::TargetNotFound)
    }
}

} // verus!
