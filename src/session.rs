use vstd::prelude::*;

use crate::error::{AnchorKind, ScrapeError};

verus! {

/// The two subtrees of the player window that every poll reads from.
#[derive(Debug, Clone)]
pub struct Anchors<H> {
    pub status_panel: H,
    pub field_panel: H,
}

/// Binds the anchors of a session from the status panel found in the window and the field
/// panel found among its children (looked for only where the status panel was found).
pub fn resolve_anchors<H>(status_panel: Option<H>, field_panel: Option<H>) -> (r: Result<
    Anchors<H>,
    ScrapeError,
>)
    ensures
        status_panel is None ==> r == Err::<Anchors<H>, ScrapeError>(
            ScrapeError::AnchorMissing(AnchorKind::StatusPanel),
        ),
        status_panel is Some && field_panel is None ==> r == Err::<Anchors<H>, ScrapeError>(
            ScrapeError::AnchorMissing(AnchorKind::FieldPanel),
        ),
        status_panel is Some && field_panel is Some ==> (r matches Ok(a) && a.status_panel
            == status_panel->0 && a.field_panel == field_panel->0),
{
    match (status_panel, field_panel) {
        (None, _) => Err(ScrapeError::AnchorMissing(AnchorKind::StatusPanel)),
        (Some(_), None) => Err(ScrapeError::AnchorMissing(AnchorKind::FieldPanel)),
        (Some(s), Some(f)) => Ok(Anchors { status_panel: s, field_panel: f }),
    }
}

} // verus!
