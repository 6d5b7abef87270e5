use vstd::prelude::*;

verus! {

/// One discrete movement request for the camera; only one is honoured per call.
#[derive(Clone, Copy, Debug, PartialEq, Eq, Hash, Structural)]
pub enum CameraMovement {
    Idle,
    Forward,
    Backward,
    Left,
    Right,
}

/// The movement that a set of held keys asks for: forward keys win over
/// backward ones, backward over left, left over right.
pub open spec fn held_keys_movement(
    forward: bool,
    backward: bool,
    left: bool,
    right: bool,
) -> CameraMovement {
    if forward {
        CameraMovement::Forward
    } else if backward {
        CameraMovement::Backward
    } else if left {
        CameraMovement::Left
    } else if right {
        CameraMovement::Right
    } else {
        CameraMovement::Idle
    }
}

/// Which of the camera's derived direction vectors a movement travels along.
#[derive(Clone, Copy, Debug, PartialEq, Eq, Hash, Structural)]
pub enum Axis {
    Front,
    Right,
}

impl CameraMovement {
    /// The axis this movement travels along; `Idle` travels along none.
    pub open spec fn axis_spec(self) -> Option<Axis> {
        match self {
            CameraMovement::Idle => Option::None,
            CameraMovement::Forward => Option::Some(Axis::Front),
            CameraMovement::Backward => Option::Some(Axis::Front),
            CameraMovement::Left => Option::Some(Axis::Right),
            CameraMovement::Right => Option::Some(Axis::Right),
        }
    }

    /// The sense along that axis: `1` with it, `-1` against it, `0` for `Idle`.
    pub open spec fn sign_spec(self) -> int {
        match self {
            CameraMovement::Idle => 0,
            CameraMovement::Forward => 1,
            CameraMovement::Backward => -1,
            CameraMovement::Left => -1,
            CameraMovement::Right => 1,
        }
    }

    /// Picks the single movement for this frame from which direction keys are held.
    pub fn from_held_keys(
        forward: bool,
        backward: bool,
        left: bool,
        right: bool,
    ) -> (m: CameraMovement)
        ensures
            m == held_keys_movement(forward, backward, left, right),
    {
        if forward {
            CameraMovement::Forward
        } else if backward {
            CameraMovement::Backward
        } else if left {
            CameraMovement::Left
        } else if right {
            CameraMovement::Right
        } else {
            CameraMovement::Idle
        }
    }

    /// The camera vector that this movement translates the position along.
    pub fn axis(self) -> (r: Option<Axis>)
        ensures
            r == self.axis_spec(),
    {
        match self {
            CameraMovement::Idle => None,
            CameraMovement::Forward | CameraMovement::Backward => Some(Axis::Front),
            CameraMovement::Left | CameraMovement::Right => Some(Axis::Right),
        }
    }

    /// Whether the position moves with (`1`) or against (`-1`) that vector.
    pub fn sign(self) -> (r: i8)
        ensures
            r as int == self.sign_spec(),
    {
        match self {
            CameraMovement::Idle => 0,
            CameraMovement::Forward | CameraMovement::Right => 1,
            CameraMovement::Backward | CameraMovement::Left => -1,
        }
    }
}

/// A point or direction in space, over exact arithmetic.
pub type Coords = (int, int, int);

pub open spec fn plus(a: Coords, b: Coords) -> Coords {
    (a.0 + b.0, a.1 + b.1, a.2 + b.2)
}

pub open spec fn scaled(v: Coords, k: int) -> Coords {
    (v.0 * k, v.1 * k, v.2 * k)
}

/// Where one keyboard step of `velocity` (speed times elapsed time) takes
/// `position`, given the camera's `front` and `right` vectors.
pub open spec fn moved(
    position: Coords,
    m: CameraMovement,
    front: Coords,
    right: Coords,
    velocity: int,
) -> Coords {
    match m.axis_spec() {
        Option::None => position,
        Option::Some(a) => {
            let d = if a == Axis::Front {
                front
            } else {
                right
            };
            plus(position, scaled(d, m.sign_spec() * velocity))
        },
    }
}

/// A step forward followed by a step backward with the same velocity, and no
/// change of orientation between them, returns the position to where it was
/// (exactly, in exact arithmetic).
pub proof fn lemma_forward_then_backward(
    position: Coords,
    front: Coords,
    right: Coords,
    velocity: int,
)
    ensures
        moved(
            moved(position, CameraMovement::Forward, front, right, velocity),
            CameraMovement::Backward,
            front,
            right,
            velocity,
        ) == position,
{
    assert(front.0 * velocity + front.0 * (-1 * velocity) == 0) by (nonlinear_arith);
    assert(front.1 * velocity + front.1 * (-1 * velocity) == 0) by (nonlinear_arith);
    assert(front.2 * velocity + front.2 * (-1 * velocity) == 0) by (nonlinear_arith);
}

} // verus!
