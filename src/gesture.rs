use vstd::prelude::*;

verus! {

/// Longest gap, in milliseconds, between two left clicks on one node that
/// still makes a double click (the gap must be strictly shorter).
pub const DOUBLE_CLICK_MS: u64 = 500;

/// Time, in milliseconds, a left press must last (strictly longer) before it
/// turns into a hold-and-drag gesture.
pub const HOLD_MS: u64 = 50;

/// What happened to the node under the cursor during one frame.
#[derive(Clone, Copy, Debug, PartialEq, Eq, Structural)]
pub enum NodeInteractionType {
    Hover,
    LeftClick,
    LeftDoubleClick,
    LeftMouseRelease,
    LeftMouseHoldAndDrag,
    RightClick,
}

/// The press that may become a hold-and-drag gesture.
#[derive(Clone, Copy, Debug, PartialEq, Eq, Structural)]
pub struct HoldingState {
    /// When the press began, in milliseconds.
    pub duration: u64,
    /// The node that was pressed, if any.
    pub entity: Option<u64>,
    /// Whether the hold-and-drag gesture has already been reported.
    pub is_holding: bool,
}

/// Mouse button edges seen during one frame.
#[derive(Clone, Copy, Debug, PartialEq, Eq, Structural)]
pub struct MouseButtons {
    pub left_just_pressed: bool,
    pub right_just_pressed: bool,
    pub left_just_released: bool,
}

/// Memory of the gesture recognizer between frames.
#[derive(Clone, Copy, Debug, PartialEq, Eq, Structural)]
pub struct GestureState {
    /// Time of the last single left click, in milliseconds.
    pub last_click: u64,
    /// Node of the last single left click.
    pub last_click_entity: Option<u64>,
    pub holding: HoldingState,
}

impl HoldingState {
    /// The holding state with no press recorded.
    pub open spec fn empty() -> HoldingState {
        HoldingState { duration: 0, entity: None, is_holding: false }
    }

    /// A holding state with no press recorded.
    pub fn idle() -> (r: HoldingState)
        ensures
            r == HoldingState::empty(),
    {
        HoldingState { duration: 0, entity: None, is_holding: false }
    }
}

impl GestureState {
    /// A recognizer that has seen no click yet.
    pub fn new() -> (r: GestureState)
        ensures
            r.last_click == 0,
            r.last_click_entity.is_none(),
            r.holding == HoldingState::empty(),
    {
        GestureState { last_click: 0, last_click_entity: None, holding: HoldingState::idle() }
    }

    /// Whether a left press on `active` at time `now` completes a double click.
    pub open spec fn is_double_click(self, active: u64, now: u64) -> bool {
        self.last_click_entity == Some(active) && now - self.last_click < DOUBLE_CLICK_MS
    }

    /// Whether the press recorded in `holding` has lasted long enough at `now`
    /// to be reported as a hold-and-drag gesture.
    pub open spec fn hold_due(self, now: u64) -> bool {
        !self.holding.is_holding && now - self.holding.duration > HOLD_MS
            && self.holding.entity.is_some()
    }

    /// Classifies what the cursor did to `active`, the topmost node under it,
    /// during a frame at time `now` (milliseconds), and updates the
    /// recognizer's memory. A time measured before the one it is compared
    /// with is left out.
    pub fn classify(&mut self, active: u64, now: u64, buttons: MouseButtons) -> (r:
        NodeInteractionType)
        requires
            buttons.left_just_pressed && old(self).last_click_entity == Some(active)
                ==> old(self).last_click <= now,
            !buttons.left_just_pressed && !buttons.right_just_pressed
                && !buttons.left_just_released && !old(self).holding.is_holding
                ==> old(self).holding.duration <= now,
        ensures
            buttons.left_just_pressed && old(self).is_double_click(active, now) ==> {
                &&& r == NodeInteractionType::LeftDoubleClick
                &&& *final(self) == *old(self)
            },
            buttons.left_just_pressed && !old(self).is_double_click(active, now) ==> {
                &&& r == NodeInteractionType::LeftClick
                &&& final(self).last_click == now
                &&& final(self).last_click_entity == Some(active)
                &&& final(self).holding == (HoldingState {
                    duration: now,
                    entity: Some(active),
                    is_holding: false,
                })
            },
            !buttons.left_just_pressed && buttons.right_just_pressed ==> {
                &&& r == NodeInteractionType::RightClick
                &&& *final(self) == *old(self)
            },
            !buttons.left_just_pressed && !buttons.right_just_pressed
                && buttons.left_just_released ==> {
                &&& r == NodeInteractionType::LeftMouseRelease
                &&& final(self).last_click == old(self).last_click
                &&& final(self).last_click_entity == old(self).last_click_entity
                &&& final(self).holding == HoldingState::empty()
            },
            !buttons.left_just_pressed && !buttons.right_just_pressed
                && !buttons.left_just_released && old(self).hold_due(now) ==> {
                &&& r == NodeInteractionType::LeftMouseHoldAndDrag
                &&& final(self).last_click == old(self).last_click
                &&& final(self).last_click_entity == old(self).last_click_entity
                &&& final(self).holding == (HoldingState {
                    is_holding: true,
                    ..old(self).holding
                })
            },
            !buttons.left_just_pressed && !buttons.right_just_pressed
                && !buttons.left_just_released && !old(self).hold_due(now) ==> {
                &&& r == NodeInteractionType::Hover
                &&& *final(self) == *old(self)
            },
    {
        if buttons.left_just_pressed {
            if self.last_click_entity == Some(active) && now - self.last_click < DOUBLE_CLICK_MS {
                return NodeInteractionType::LeftDoubleClick;
            }
            self.last_click = now;
            self.last_click_entity = Some(active);
            self.holding = HoldingState { duration: now, entity: Some(active), is_holding: false };
            return NodeInteractionType::LeftClick;
        }
        if buttons.right_just_pressed {
            return NodeInteractionType::RightClick;
        }
        if buttons.left_just_released {
            self.holding = HoldingState::idle();
            return NodeInteractionType::LeftMouseRelease;
        }
        if !self.holding.is_holding && now - self.holding.duration > HOLD_MS
            && self.holding.entity.is_some() {
            self.holding.is_holding = true;
            return NodeInteractionType::LeftMouseHoldAndDrag;
        }
        NodeInteractionType::Hover
    }
}

} // verus!
