use vstd::prelude::*;

verus! {

/// Distance from the bob's centre, in pixels, within which a pointer press
/// lands on the bob; also the outer radius of the drawn disc.
pub const GRAB_RADIUS: u32 = 28;

/// Radius of the inner disc drawn over the bob.
pub const INNER_RADIUS: u32 = 25;

/// How the host advances the simulation on a frame.
#[derive(Clone, Copy, Debug, PartialEq, Eq, Structural)]
pub enum FramePlan {
    /// Run one integration step of the free pendulum.
    Step,
    /// Snap the bob to the pointer, derive radius and angle from it, and
    /// hold angular velocity and acceleration at zero.
    FollowPointer,
}

/// What a primary-button event asks of the simulation.
#[derive(Clone, Copy, Debug, PartialEq, Eq, Structural)]
pub enum PointerEffect {
    /// The event leaves the simulation alone.
    Nothing,
    /// The bob is taken: later frames follow the pointer.
    BeginGrab,
    /// The bob is let go: its angular velocity is zeroed and it swings
    /// freely again from where it was left.
    EndGrab,
}

/// The interaction mode of the pendulum: free-swinging or held by the pointer.
#[derive(Clone, Copy, Debug, PartialEq, Eq, Structural)]
pub struct Interaction {
    pub grabbed: bool,
}

/// The effect of a button press, given whether it was the primary button and
/// whether the pointer lay on the bob.
pub open spec fn press_effect(primary: bool, hit: bool) -> PointerEffect {
    if primary && hit {
        PointerEffect::BeginGrab
    } else {
        PointerEffect::Nothing
    }
}

/// The effect of a button release, given whether it was the primary button
/// and whether the pointer lay on the bob.
pub open spec fn release_effect(primary: bool, hit: bool) -> PointerEffect {
    if primary && hit {
        PointerEffect::EndGrab
    } else {
        PointerEffect::Nothing
    }
}

/// The mode that an effect leaves behind, starting from `grabbed`.
pub open spec fn grabbed_after(grabbed: bool, e: PointerEffect) -> bool {
    match e {
        PointerEffect::Nothing => grabbed,
        PointerEffect::BeginGrab => true,
        PointerEffect::EndGrab => false,
    }
}

/// The frame plan that belongs to a mode.
pub open spec fn plan_for(grabbed: bool) -> FramePlan {
    if grabbed {
        FramePlan::FollowPointer
    } else {
        FramePlan::Step
    }
}

/// A primary-button event, with whether the pointer lay on the bob.
#[derive(Clone, Copy, Debug, PartialEq, Eq, Structural)]
pub enum PointerEvent {
    Press { primary: bool, hit: bool },
    Release { primary: bool, hit: bool },
}

pub open spec fn effect_of(ev: PointerEvent) -> PointerEffect {
    match ev {
        PointerEvent::Press { primary, hit } => press_effect(primary, hit),
        PointerEvent::Release { primary, hit } => release_effect(primary, hit),
    }
}

/// The mode after a run of pointer events, starting from `grabbed`.
pub open spec fn mode_after(grabbed: bool, evs: Seq<PointerEvent>) -> bool
    decreases evs.len(),
{
    if evs.len() == 0 {
        grabbed
    } else {
        mode_after(grabbed_after(grabbed, effect_of(evs[0])), evs.drop_first())
    }
}

/// Once the bob is held, every frame follows the pointer (so angular velocity
/// and acceleration stay at zero) until a primary release on the bob; no other
/// pointer event lets it go.
pub proof fn lemma_held_until_released(evs: Seq<PointerEvent>)
    requires
        forall|i: int| 0 <= i < evs.len() ==> effect_of(#[trigger] evs[i]) != PointerEffect::EndGrab,
    ensures
        mode_after(true, evs),
        plan_for(mode_after(true, evs)) == FramePlan::FollowPointer,
    decreases evs.len(),
{
    if evs.len() > 0 {
        assert(effect_of(evs[0]) != PointerEffect::EndGrab);
        let rest = evs.drop_first();
        assert forall|i: int| 0 <= i < rest.len() implies effect_of(
            #[trigger] rest[i],
        ) != PointerEffect::EndGrab by {
            assert(rest[i] == evs[i + 1]);
        }
        lemma_held_until_released(rest);
    }
}

/// A primary press on the bob makes the coming frame follow the pointer, and
/// a primary release on it makes the coming frame integrate from rest,
/// whatever the mode was before.
pub proof fn lemma_press_grabs_release_frees(grabbed: bool, hit: bool)
    requires
        hit,
    ensures
        plan_for(grabbed_after(grabbed, press_effect(true, hit))) == FramePlan::FollowPointer,
        plan_for(grabbed_after(grabbed, release_effect(true, hit))) == FramePlan::Step,
        release_effect(true, hit) == PointerEffect::EndGrab,
{
}

impl Interaction {
    /// A pendulum that starts free-swinging.
    pub fn new() -> (r: Interaction)
        ensures
            !r.grabbed,
    {
        Interaction { grabbed: false }
    }

    pub fn is_grabbed(&self) -> (r: bool)
        ensures
            r == self.grabbed,
    {
        self.grabbed
    }

    /// Handles a button press: a primary press on the bob grabs it; anything
    /// else changes nothing.
    pub fn on_pointer_down(&mut self, primary: bool, hit: bool) -> (e: PointerEffect)
        ensures
            e == press_effect(primary, hit),
            final(self).grabbed == grabbed_after(old(self).grabbed, e),
            final(self).grabbed == (old(self).grabbed || (primary && hit)),
    {
        if primary && hit {
            self.grabbed = true;
            PointerEffect::BeginGrab
        } else {
            PointerEffect::Nothing
        }
    }

    /// Handles a button release: a primary release on the bob lets it go and
    /// asks for its angular velocity to be zeroed, whatever the mode was;
    /// anything else changes nothing.
    pub fn on_pointer_up(&mut self, primary: bool, hit: bool) -> (e: PointerEffect)
        ensures
            e == release_effect(primary, hit),
            final(self).grabbed == grabbed_after(old(self).grabbed, e),
            final(self).grabbed == (old(self).grabbed && !(primary && hit)),
    {
        if primary && hit {
            self.grabbed = false;
            PointerEffect::EndGrab
        } else {
            PointerEffect::Nothing
        }
    }

    /// How the coming frame advances the simulation: it follows the pointer
    /// while the bob is held, and integrates otherwise.
    pub fn frame_plan(&self) -> (p: FramePlan)
        ensures
            p == plan_for(self.grabbed),
            (p == FramePlan::FollowPointer) == self.grabbed,
    {
        if self.grabbed {
            FramePlan::FollowPointer
        } else {
            FramePlan::Step
        }
    }
}

} // verus!
