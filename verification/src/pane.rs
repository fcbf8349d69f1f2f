//! Panes: what the right pane can show.
use vstd::prelude::*;

verus! {

/// What the right pane is currently showing.
#[derive(Debug, Clone, Copy, PartialEq, Eq, Structural)]
pub enum View {
    Details,
    Logs,
    Update,
}

} // verus!
