//! The order of a frame: which system has to wait for which.
//!
//! Keyboard steering and seeking set velocities, movement consumes them, and the
//! camera follows a position that movement has already updated. Depth sorting
//! stands apart from that chain.

use vstd::prelude::*;

verus! {

/// The per-frame systems of the game.
#[derive(Clone, Copy, Debug, PartialEq, Eq, Hash, Structural)]
pub enum FrameSystem {
    /// Sets the velocity of steered entities from the keyboard.
    Input,
    /// Sets the velocity of agents towards their target.
    Seek,
    /// Moves and poses every entity that has a velocity.
    Movement,
    /// Orders sprites in depth by their vertical position.
    DepthSort,
    /// Eases the camera towards the entity it follows.
    CameraFollow,
}

/// True when `later` is constrained to run after `earlier` within a frame.
pub open spec fn must_follow(later: FrameSystem, earlier: FrameSystem) -> bool {
    ||| later == FrameSystem::Movement && earlier == FrameSystem::Input
    ||| later == FrameSystem::Movement && earlier == FrameSystem::Seek
    ||| later == FrameSystem::CameraFollow && earlier == FrameSystem::Movement
}

/// The earliest step of a frame in which a system can run when every system
/// runs as soon as its constraints allow.
pub open spec fn earliest_step(system: FrameSystem) -> nat {
    match system {
        FrameSystem::Input => 0,
        FrameSystem::Seek => 0,
        FrameSystem::DepthSort => 0,
        FrameSystem::Movement => 1,
        FrameSystem::CameraFollow => 2,
    }
}

/// The ordering constraints of a frame, each as a pair of the system that
/// waits and the system it waits for.
pub fn ordering_rules() -> (rules: [(FrameSystem, FrameSystem); 3])
    ensures
        rules@ =~= seq![
            (FrameSystem::Movement, FrameSystem::Input),
            (FrameSystem::Movement, FrameSystem::Seek),
            (FrameSystem::CameraFollow, FrameSystem::Movement),
        ],
        forall|later: FrameSystem, earlier: FrameSystem|
            must_follow(later, earlier) <==> rules@.contains((later, earlier)),
{
    [
        (FrameSystem::Movement, FrameSystem::Input),
        (FrameSystem::Movement, FrameSystem::Seek),
        (FrameSystem::CameraFollow, FrameSystem::Movement),
    ]
}

/// The constraints can always be met: a system that waits for another has a
/// strictly later earliest step, so no chain of constraints leads back to its
/// start.
pub proof fn lemma_constraints_are_acyclic(later: FrameSystem, earlier: FrameSystem)
    requires
        must_follow(later, earlier),
    ensures
        earliest_step(earlier) < earliest_step(later),
{
}

/// Depth sorting neither waits for another system nor is waited for.
pub proof fn lemma_depth_sort_is_free(other: FrameSystem)
    ensures
        !must_follow(FrameSystem::DepthSort, other),
        !must_follow(other, FrameSystem::DepthSort),
{
}

} // verus!
