use vstd::prelude::*;

verus! {

/// The rule set of an engine version: which order a tick applies its
/// sub-steps in, and at which precision.
#[derive(Debug, Clone, Copy, PartialEq, Eq, Hash, Structural)]
pub enum PearlVersion {
    /// Move, then drag, then gravity; drag and gravity go through a 32-bit
    /// intermediate.
    Legacy,
    /// Move, then drag, then gravity, at full precision.
    MidEra,
    /// Gravity, then drag, then move, at full precision.
    Post1212,
}

/// One of the three sub-steps of a tick.
#[derive(Debug, Clone, Copy, PartialEq, Eq, Hash, Structural)]
pub enum TickStep {
    /// The collision-resolving move by the current motion.
    Move,
    /// Multiplying all three motion components by the drag factor.
    Drag,
    /// Lowering the vertical motion by the gravity constant.
    Gravity,
}

/// The order of the sub-steps of a tick under a version, for an entity
/// subject to gravity.
pub open spec fn tick_order(v: PearlVersion) -> Seq<TickStep> {
    match v {
        PearlVersion::Post1212 => seq![TickStep::Gravity, TickStep::Drag, TickStep::Move],
        _ => seq![TickStep::Move, TickStep::Drag, TickStep::Gravity],
    }
}

/// The sub-steps of a tick under a version: `tick_order` without the
/// gravity step for an entity that gravity does not act on.
pub open spec fn steps_of(v: PearlVersion, gravity: bool) -> Seq<TickStep> {
    if gravity {
        tick_order(v)
    } else {
        tick_order(v).filter(|s: TickStep| s != TickStep::Gravity)
    }
}

/// How many drag steps of `s` come before its first move step.
pub open spec fn drags_before_move(s: Seq<TickStep>) -> nat
    decreases s.len(),
{
    if s.len() == 0 || s[0] == TickStep::Move {
        0
    } else {
        (if s[0] == TickStep::Drag { 1nat } else { 0nat }) + drags_before_move(
            s.subrange(1, s.len() as int),
        )
    }
}

impl PearlVersion {
    /// Whether drag and gravity are computed through a 32-bit intermediate.
    pub fn reduced_precision(&self) -> (r: bool)
        ensures
            r == (*self == PearlVersion::Legacy),
    {
        match self {
            PearlVersion::Legacy => true,
            _ => false,
        }
    }

    /// The sub-steps of one tick, in the order that this version applies
    /// them; the gravity step is left out where gravity does not act.
    pub fn tick_steps(&self, gravity: bool) -> (r: Vec<TickStep>)
        ensures
            r@ == steps_of(*self, gravity),
    {
        let mut r: Vec<TickStep> = Vec::new();
        match self {
            PearlVersion::Post1212 => {
                if gravity {
                    r.push(TickStep::Gravity);
                }
                r.push(TickStep::Drag);
                r.push(TickStep::Move);
            },
            _ => {
                r.push(TickStep::Move);
                r.push(TickStep::Drag);
                if gravity {
                    r.push(TickStep::Gravity);
                }
            },
        }
        proof {
            reveal_with_fuel(Seq::filter, 4);
            assert(r@ =~= steps_of(*self, gravity));
        }
        r
    }

    /// How many times the motion is scaled by drag before it first moves the
    /// entity within a tick: the power of the drag factor by which a tick's
    /// displacement falls short of the motion at its start.
    pub fn drags_before_move(&self) -> (r: u32)
        ensures
            r == drags_before_move(tick_order(*self)),
    {
        proof {
            reveal_with_fuel(drags_before_move, 4);
        }
        match self {
            PearlVersion::Post1212 => 1,
            _ => 0,
        }
    }
}

/// A movement rule set, selected once per calculation.
pub trait PearlMovement {
    /// The version whose rules this movement follows.
    spec fn spec_version() -> PearlVersion;

    /// The version whose rules this movement follows.
    fn version() -> (r: PearlVersion)
        ensures
            r == Self::spec_version(),
    ;
}

/// The rules of the oldest engine versions.
#[derive(Debug, Clone, Copy)]
pub struct MovementLegacy;

/// The rules between the oldest versions and 1.21.2.
#[derive(Debug, Clone, Copy)]
pub struct MovementMidEra;

/// The rules from version 1.21.2 on.
#[derive(Debug, Clone, Copy)]
pub struct MovementPost1212;

impl PearlMovement for MovementLegacy {
    open spec fn spec_version() -> PearlVersion {
        PearlVersion::Legacy
    }

    fn version() -> (r: PearlVersion) {
        PearlVersion::Legacy
    }
}

impl PearlMovement for MovementMidEra {
    open spec fn spec_version() -> PearlVersion {
        PearlVersion::MidEra
    }

    fn version() -> (r: PearlVersion) {
        PearlVersion::MidEra
    }
}

impl PearlMovement for MovementPost1212 {
    open spec fn spec_version() -> PearlVersion {
        PearlVersion::Post1212
    }

    fn version() -> (r: PearlVersion) {
        PearlVersion::Post1212
    }
}

} // verus!
