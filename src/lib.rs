//! Client side of the compositor's embedded X11 sessions: discovery of the
//! sessions, typed access to the compositor's window properties, window-tree
//! enumeration and the decisions of a property-change watcher.

use vstd::prelude::*;

pub mod atoms;
pub mod discovery;
pub mod error;
pub mod transport;
pub mod tree;
pub mod watcher;
pub mod x11;
pub mod xwayland;

use crate::discovery::table_candidates;
use crate::error::XError;
use crate::transport::{open_display, screen_root};
use crate::atoms::GamescopeAtom;
use crate::x11::is_gamescope_xwayland;
use crate::xwayland::XWayland;

pub use crate::discovery::discover_x11_displays;

verus! {

/// What probing one candidate display found.
#[derive(Debug, Clone, Copy, PartialEq, Eq, Structural)]
pub enum ProbeOutcome {
    /// No connection could be made; the display is skipped.
    Unreachable,
    /// Connected; whether the root window carries the compositor's marker.
    Probed(bool),
}

/// The candidates whose probe found the compositor's marker, in order.
pub open spec fn marked_displays(candidates: Seq<Seq<char>>, outcomes: Seq<ProbeOutcome>) -> Seq<
    Seq<char>,
>
    decreases candidates.len(),
{
    if candidates.len() == 0 || outcomes.len() == 0 {
        Seq::empty()
    } else {
        let rest = marked_displays(candidates.drop_last(), outcomes.drop_last());
        if outcomes.last() == ProbeOutcome::Probed(true) {
            rest.push(candidates.last())
        } else {
            rest
        }
    }
}

/// Keeps the candidate displays whose probe found the compositor's marker;
/// unreachable displays and plain X servers are left out.
pub fn select_gamescope_displays(candidates: &Vec<String>, outcomes: &Vec<ProbeOutcome>) -> (r: Vec<
    String,
>)
    requires
        candidates@.len() == outcomes@.len(),
    ensures
        r@.map_values(|s: String| s@) == marked_displays(
            candidates@.map_values(|s: String| s@),
            outcomes@,
        ),
{
    let ghost cands = candidates@.map_values(|s: String| s@);
    let mut selected: Vec<String> = Vec::new();
    let mut i: usize = 0;
    while i < outcomes.len()
        invariant
            candidates@.len() == outcomes@.len(),
            cands == candidates@.map_values(|s: String| s@),
            i <= outcomes@.len(),
            selected@.map_values(|s: String| s@) == marked_displays(
                cands.subrange(0, i as int),
                outcomes@.subrange(0, i as int),
            ),
        decreases outcomes@.len() - i,
    {
        let ghost before = selected@;
        assert(cands.subrange(0, i + 1).drop_last() =~= cands.subrange(0, i as int));
        assert(outcomes@.subrange(0, i + 1).drop_last() =~= outcomes@.subrange(0, i as int));
        if outcomes[i] == ProbeOutcome::Probed(true) {
            let name = candidates[i].clone();
            selected.push(name);
            assert(selected@.map_values(|s: String| s@) =~= before.map_values(|s: String| s@).push(
                cands[i as int],
            ));
        }
        i = i + 1;
    }
    assert(cands.subrange(0, i as int) =~= cands);
    assert(outcomes@.subrange(0, i as int) =~= outcomes@);
    selected
}

/// Over displays of which exactly one is marked as the compositor's, the
/// selection is that one display alone: unreachable ones are left out, not
/// reported.
pub proof fn lemma_single_marked_display(
    candidates: Seq<Seq<char>>,
    outcomes: Seq<ProbeOutcome>,
    k: int,
)
    requires
        candidates.len() == outcomes.len(),
        0 <= k < outcomes.len(),
        outcomes[k] == ProbeOutcome::Probed(true),
        forall|i: int| 0 <= i < outcomes.len() && i != k ==> outcomes[i] != ProbeOutcome::Probed(true),
    ensures
        marked_displays(candidates, outcomes) == seq![candidates[k]],
    decreases candidates.len(),
{
    let n = candidates.len() as int;
    if k < n - 1 {
        lemma_single_marked_display(candidates.drop_last(), outcomes.drop_last(), k);
    } else {
        lemma_none_marked(candidates.drop_last(), outcomes.drop_last());
        assert(Seq::<Seq<char>>::empty().push(candidates.last()) =~= seq![candidates[k]]);
    }
}

/// With no marked display the selection is empty.
pub proof fn lemma_none_marked(candidates: Seq<Seq<char>>, outcomes: Seq<ProbeOutcome>)
    requires
        candidates.len() == outcomes.len(),
        forall|i: int| 0 <= i < outcomes.len() ==> outcomes[i] != ProbeOutcome::Probed(true),
    ensures
        marked_displays(candidates, outcomes) == Seq::<Seq<char>>::empty(),
    decreases candidates.len(),
{
    if candidates.len() > 0 {
        lemma_none_marked(candidates.drop_last(), outcomes.drop_last());
    }
}

/// The outcome of a probe from what its calls returned: `None` when no
/// connection could be made or the server lists no root for the screen, else
/// the result of the marker test on the root window.
pub open spec fn probe_outcome_of(marker: Option<Result<bool, XError>>) -> Result<ProbeOutcome, XError> {
    match marker {
        None => Ok(ProbeOutcome::Unreachable),
        Some(Ok(marked)) => Ok(ProbeOutcome::Probed(marked)),
        Some(Err(e)) => Err(e),
    }
}

/// The property whose presence on a root window marks a compositor session.
pub fn session_marker() -> (r: GamescopeAtom)
    ensures
        r == GamescopeAtom::CursorVisibleFeedback,
{
    GamescopeAtom::CursorVisibleFeedback
}

/// Turns what the calls of a probe returned into its outcome: a display that
/// cannot be reached is skipped, not an error; only a failed marker test is.
pub fn probe_outcome(marker: Option<Result<bool, XError>>) -> (r: Result<ProbeOutcome, XError>)
    ensures
        r == probe_outcome_of(marker),
{
    match marker {
        None => Ok(ProbeOutcome::Unreachable),
        Some(Ok(marked)) => Ok(ProbeOutcome::Probed(marked)),
        Some(Err(e)) => Err(e),
    }
}

/// Probes one display: connects to it and tests the root window of its
/// default screen for the property `session_marker` names. A display that
/// cannot be connected to is unreachable, not an error.
pub fn probe_display(display: &str) -> (r: Result<ProbeOutcome, XError>)
    ensures
        exists|marker: Option<Result<bool, XError>>| r == #[trigger] probe_outcome_of(marker),
        r matches Err(e) ==> e != XError::NotConnected,
{
    let (conn, screen) = match open_display(display) {
        Ok(opened) => opened,
        Err(_) => {
            return probe_outcome(None);
        },
    };
    let root = match screen_root(&conn, screen) {
        Some(root) => root,
        None => {
            return probe_outcome(None);
        },
    };
    let marker = is_gamescope_xwayland(&conn, root);
    probe_outcome(Some(marker))
}

/// The displays among the lines of the kernel's unix socket table that are
/// compositor sessions, in the order of the table. Each candidate is probed
/// with a connection of its own, which is then dropped; the first failed
/// marker test ends the discovery with its error.
pub fn discover_gamescope_displays(socket_lines: &Vec<String>) -> (r: Result<Vec<String>, XError>)
    ensures
        r matches Err(e) ==> e != XError::NotConnected,
        r matches Ok(v) ==> exists|outcomes: Seq<ProbeOutcome>|
            outcomes.len() == table_candidates(socket_lines@).len()
                && v@.map_values(|s: String| s@) == #[trigger] marked_displays(
                table_candidates(socket_lines@),
                outcomes,
            ),
        table_candidates(socket_lines@).len() == 0 ==> (r matches Ok(v) && v@.len() == 0),
{
    let candidates = discover_x11_displays(socket_lines);
    assert(candidates@.map_values(|s: String| s@) == table_candidates(socket_lines@));
    assert(candidates@.len() == table_candidates(socket_lines@).len());
    let mut outcomes: Vec<ProbeOutcome> = Vec::new();
    let mut i: usize = 0;
    while i < candidates.len()
        invariant
            i <= candidates@.len(),
            outcomes@.len() == i,
            candidates@.len() == table_candidates(socket_lines@).len(),
        decreases candidates@.len() - i,
    {
        let outcome = probe_display(candidates[i].as_str())?;
        outcomes.push(outcome);
        i = i + 1;
    }
    let selected = select_gamescope_displays(&candidates, &outcomes);
    assert(selected@.map_values(|s: String| s@) == marked_displays(
        table_candidates(socket_lines@),
        outcomes@,
    ));
    proof {
        if candidates@.len() == 0 {
            assert(selected@.map_values(|s: String| s@).len() == 0);
        }
    }
    Ok(selected)
}

/// A session, not connected yet, for each compositor display found in the
/// kernel's unix socket table.
pub fn discover_gamescope_xwaylands(socket_lines: &Vec<String>) -> (r: Result<
    Vec<XWayland>,
    XError,
>)
    ensures
        r matches Err(e) ==> e != XError::NotConnected,
        r matches Ok(v) ==> (forall|i: int|
            0 <= i < v@.len() ==> !(#[trigger] v@[i]).is_connected() && v@[i].root() == 0)
            && exists|outcomes: Seq<ProbeOutcome>|
            v@.map_values(|x: XWayland| x.display_name()) == #[trigger] marked_displays(
                table_candidates(socket_lines@),
                outcomes,
            ),
{
    let displays = discover_gamescope_displays(socket_lines)?;
    let ghost names = displays@.map_values(|s: String| s@);
    let mut xwaylands: Vec<XWayland> = Vec::new();
    let mut i: usize = 0;
    while i < displays.len()
        invariant
            i <= displays@.len(),
            names == displays@.map_values(|s: String| s@),
            xwaylands@.map_values(|x: XWayland| x.display_name()) == names.subrange(0, i as int),
            forall|j: int|
                0 <= j < xwaylands@.len() ==> !(#[trigger] xwaylands@[j]).is_connected()
                    && xwaylands@[j].root() == 0,
        decreases displays@.len() - i,
    {
        let ghost before = xwaylands@;
        let session = XWayland::new(displays[i].clone());
        xwaylands.push(session);
        assert(xwaylands@.map_values(|x: XWayland| x.display_name()) =~= before.map_values(
            |x: XWayland| x.display_name(),
        ).push(names[i as int]));
        assert(names.subrange(0, i + 1) =~= names.subrange(0, i as int).push(names[i as int]));
        i = i + 1;
    }
    assert(names.subrange(0, i as int) =~= names);
    Ok(xwaylands)
}

} // verus!
