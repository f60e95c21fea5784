use vstd::prelude::*;

verus! {

/// Which of the two anchors of a session could not be found.
#[derive(Debug, Clone, Copy, PartialEq, Eq, Structural)]
pub enum AnchorKind {
    /// The transport / status container of the player window.
    StatusPanel,
    /// The field (LCD) container inside the status panel.
    FieldPanel,
}

/// Why a session could not be created, or a displayed value could not be read.
#[derive(Debug, Clone, Copy, PartialEq, Eq, Structural)]
pub enum ScrapeError {
    /// No window whose title is the requested application's name.
    TargetNotFound,
    /// Windows with the requested title exist, but the desktop provider could place none.
    WindowLookupFailed,
    /// The window was found, but one of its anchors was not.
    AnchorMissing(AnchorKind),
    /// A displayed time is not of the form `mm:ss` (optionally led by `-`), or is too large.
    ParseError,
}

} // verus!
