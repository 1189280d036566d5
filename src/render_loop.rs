use vstd::prelude::*;

verus! {

/// The scan code of the key that ends the render loop.
pub const TERMINATION_SCAN_CODE: u32 = 9;

/// What the window hands the render loop on each wake-up.
#[derive(Clone, Copy, Debug, PartialEq, Eq, Structural)]
pub enum WindowEvent {
    /// The window was asked to close.
    Closed,
    /// A key went down or up.
    KeyboardInput { scan_code: u32 },
    /// The backend woke the loop because a new frame is ready.
    Awakened,
    /// Anything else.
    Other,
}

#[derive(Clone, Copy, Debug, PartialEq, Eq, Structural)]
pub enum LoopState {
    Running,
    Terminated,
}

/// What the host does with a failed presentation.
#[derive(Clone, Copy, Debug, PartialEq, Eq, Structural)]
pub enum PresentFailurePolicy {
    /// Go on with the next iteration as if nothing happened.
    Ignore,
    /// End the loop.
    Terminate,
}

/// What the host does for one event.
#[derive(Clone, Copy, Debug, PartialEq, Eq, Structural)]
pub enum LoopAction {
    /// Clear, update, render and present one frame, then wait for the next event.
    RenderFrame,
    /// Leave the loop without rendering.
    Exit,
}

/// Whether an event ends the loop.
pub open spec fn ends_loop(e: WindowEvent) -> bool {
    match e {
        WindowEvent::Closed => true,
        WindowEvent::KeyboardInput { scan_code } => scan_code == TERMINATION_SCAN_CODE,
        _ => false,
    }
}

/// The action and the next state for one event in state `s`.
pub open spec fn step(s: LoopState, e: WindowEvent) -> (LoopState, LoopAction) {
    match s {
        LoopState::Terminated => (LoopState::Terminated, LoopAction::Exit),
        LoopState::Running => if ends_loop(e) {
            (LoopState::Terminated, LoopAction::Exit)
        } else {
            (LoopState::Running, LoopAction::RenderFrame)
        },
    }
}

/// Whether an action renders a frame.
pub open spec fn renders(a: LoopAction) -> bool {
    a != LoopAction::Exit
}

/// The state after feeding `events` one by one from state `s`.
pub open spec fn state_after(s: LoopState, events: Seq<WindowEvent>) -> LoopState
    decreases events.len(),
{
    if events.len() == 0 {
        s
    } else {
        state_after(step(s, events[0]).0, events.drop_first())
    }
}

/// How many frames are rendered while feeding `events` from state `s`.
pub open spec fn frames_rendered(s: LoopState, events: Seq<WindowEvent>) -> nat
    decreases events.len(),
{
    if events.len() == 0 {
        0
    } else {
        (if renders(step(s, events[0]).1) {
            1nat
        } else {
            0nat
        }) + frames_rendered(step(s, events[0]).0, events.drop_first())
    }
}

/// Once the loop is terminated, no event renders a frame or revives it.
pub proof fn lemma_terminated_renders_nothing(events: Seq<WindowEvent>)
    ensures
        frames_rendered(LoopState::Terminated, events) == 0,
        state_after(LoopState::Terminated, events) == LoopState::Terminated,
    decreases events.len(),
{
    if events.len() > 0 {
        lemma_terminated_renders_nothing(events.drop_first());
    }
}

/// An ending event (a close, or the termination key) after `before`, none
/// of which ends the loop, terminates it: one frame is rendered per event
/// before it, and none for the ending event or whatever comes after.
pub proof fn lemma_close_ends_rendering(
    before: Seq<WindowEvent>,
    last: WindowEvent,
    after: Seq<WindowEvent>,
)
    requires
        forall|i: int| 0 <= i < before.len() ==> !ends_loop(#[trigger] before[i]),
        ends_loop(last),
    ensures
        frames_rendered(LoopState::Running, before + seq![last] + after) == before.len(),
        state_after(LoopState::Running, before + seq![last] + after) == LoopState::Terminated,
    decreases before.len(),
{
    let all = before + seq![last] + after;
    if before.len() == 0 {
        assert(all[0] == last);
        assert(all.drop_first() =~= after);
        lemma_terminated_renders_nothing(after);
    } else {
        assert(all[0] == before[0]);
        assert(all.drop_first() =~= before.drop_first() + seq![last] + after);
        assert forall|i: int| 0 <= i < before.drop_first().len() implies !ends_loop(
            #[trigger] before.drop_first()[i],
        ) by {
            assert(before.drop_first()[i] == before[i + 1]);
        }
        lemma_close_ends_rendering(before.drop_first(), last, after);
    }
}

/// The decisions of the render loop; the host performs the actions.
pub struct RenderLoop {
    state: LoopState,
    present_failure_policy: PresentFailurePolicy,
}

impl RenderLoop {
    pub closed spec fn current(&self) -> LoopState {
        self.state
    }

    pub closed spec fn policy(&self) -> PresentFailurePolicy {
        self.present_failure_policy
    }

    /// A running loop that treats failed presentations by `policy`.
    pub fn new(policy: PresentFailurePolicy) -> (r: RenderLoop)
        ensures
            r.current() == LoopState::Running,
            r.policy() == policy,
    {
        RenderLoop { state: LoopState::Running, present_failure_policy: policy }
    }

    pub fn state(&self) -> (r: LoopState)
        ensures
            r == self.current(),
    {
        self.state
    }

    pub fn is_running(&self) -> (r: bool)
        ensures
            r == (self.current() == LoopState::Running),
    {
        self.state == LoopState::Running
    }

    /// Decides what to do for one event: render a frame while running; a
    /// close event or the termination key ends the loop without a frame.
    pub fn on_event(&mut self, event: WindowEvent) -> (r: LoopAction)
        ensures
            (final(self).current(), r) == step(old(self).current(), event),
            final(self).policy() == old(self).policy(),
    {
        match self.state {
            LoopState::Terminated => LoopAction::Exit,
            LoopState::Running => {
                let ends = match event {
                    WindowEvent::Closed => true,
                    WindowEvent::KeyboardInput { scan_code } => scan_code == TERMINATION_SCAN_CODE,
                    _ => false,
                };
                if ends {
                    self.state = LoopState::Terminated;
                    LoopAction::Exit
                } else {
                    LoopAction::RenderFrame
                }
            },
        }
    }

    /// Takes note of whether presenting the last frame succeeded. A failure
    /// ends the loop only under the terminating policy.
    pub fn on_present_result(&mut self, presented: bool) -> (r: LoopState)
        ensures
            final(self).policy() == old(self).policy(),
            final(self).current() == (if !presented && old(self).policy()
                == PresentFailurePolicy::Terminate {
                LoopState::Terminated
            } else {
                old(self).current()
            }),
            r == final(self).current(),
    {
        if !presented && self.present_failure_policy == PresentFailurePolicy::Terminate {
            self.state = LoopState::Terminated;
        }
        self.state
    }
}

} // verus!
