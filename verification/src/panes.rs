use vstd::prelude::*;

verus! {

/// Identifier of one dashboard pane. The four panes form a fixed 2x2 grid:
/// Motivation (top left), General (top right), Agents (bottom left),
/// Stats (bottom right).
#[derive(Debug, Clone, Copy, PartialEq, Eq, Hash, Structural)]
pub enum PaneId {
    Motivation,
    General,
    Agents,
    Stats,
}

impl PaneId {
    pub open spec fn spec_next(self) -> Self {
        match self {
            Self::Motivation => Self::General,
            Self::General => Self::Agents,
            Self::Agents => Self::Stats,
            Self::Stats => Self::Motivation,
        }
    }

    /// Rotation order used by the rotate-focus action.
    pub fn next(self) -> (r: Self)
        ensures
            r == self.spec_next(),
    {
        match self {
            Self::Motivation => Self::General,
            Self::General => Self::Agents,
            Self::Agents => Self::Stats,
            Self::Stats => Self::Motivation,
        }
    }
}

/// Title shown in the frame of each pane.
pub fn title(id: PaneId) -> (r: &'static str)
    ensures
        id == PaneId::Motivation ==> r@ == "MOTIVATION"@,
        id == PaneId::General ==> r@ == "GENERAL"@,
        id == PaneId::Agents ==> r@ == "AI AGENTS"@,
        id == PaneId::Stats ==> r@ == "STATS"@,
{
    match id {
        PaneId::Motivation => "MOTIVATION",
        PaneId::General => "GENERAL",
        PaneId::Agents => "AI AGENTS",
        PaneId::Stats => "STATS",
    }
}

pub open spec fn spec_focus_left(current: PaneId) -> PaneId {
    match current {
        PaneId::Motivation => PaneId::Motivation,
        PaneId::General => PaneId::Motivation,
        PaneId::Agents => PaneId::Agents,
        PaneId::Stats => PaneId::Agents,
    }
}

pub open spec fn spec_focus_right(current: PaneId) -> PaneId {
    match current {
        PaneId::Motivation => PaneId::General,
        PaneId::General => PaneId::General,
        PaneId::Agents => PaneId::Stats,
        PaneId::Stats => PaneId::Stats,
    }
}

pub open spec fn spec_focus_up(current: PaneId) -> PaneId {
    match current {
        PaneId::Motivation => PaneId::Motivation,
        PaneId::General => PaneId::General,
        PaneId::Agents => PaneId::Motivation,
        PaneId::Stats => PaneId::General,
    }
}

pub open spec fn spec_focus_down(current: PaneId) -> PaneId {
    match current {
        PaneId::Motivation => PaneId::Agents,
        PaneId::General => PaneId::Stats,
        PaneId::Agents => PaneId::Agents,
        PaneId::Stats => PaneId::Stats,
    }
}

pub fn focus_left(current: PaneId) -> (r: PaneId)
    ensures
        r == spec_focus_left(current),
{
    match current {
        PaneId::Motivation => PaneId::Motivation,
        PaneId::General => PaneId::Motivation,
        PaneId::Agents => PaneId::Agents,
        PaneId::Stats => PaneId::Agents,
    }
}

pub fn focus_right(current: PaneId) -> (r: PaneId)
    ensures
        r == spec_focus_right(current),
{
    match current {
        PaneId::Motivation => PaneId::General,
        PaneId::General => PaneId::General,
        PaneId::Agents => PaneId::Stats,
        PaneId::Stats => PaneId::Stats,
    }
}

pub fn focus_up(current: PaneId) -> (r: PaneId)
    ensures
        r == spec_focus_up(current),
{
    match current {
        PaneId::Motivation => PaneId::Motivation,
        PaneId::General => PaneId::General,
        PaneId::Agents => PaneId::Motivation,
        PaneId::Stats => PaneId::General,
    }
}

pub fn focus_down(current: PaneId) -> (r: PaneId)
    ensures
        r == spec_focus_down(current),
{
    match current {
        PaneId::Motivation => PaneId::Agents,
        PaneId::General => PaneId::Stats,
        PaneId::Agents => PaneId::Agents,
        PaneId::Stats => PaneId::Stats,
    }
}

} // verus!
