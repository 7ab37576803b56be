//! One input frame and the named queries on it.
//!
//! A frame holds the raw button flags and the raw axis readings of one controller sample.
//! Axis readings are fixed-point: `AXIS_UNIT` stands for 1.0, so a reading lies between
//! `-AXIS_UNIT` and `AXIS_UNIT`.
use vstd::prelude::*;
use crate::dualsense_state::{
    BUTTON_COUNT, CIRCLE, CROSS, D_PAD_DOWN, D_PAD_LEFT, D_PAD_RIGHT, D_PAD_UP, L1, L2, PS, R1, R2,
    SELECT, SQUARE, START, TRIANGLE,
};
use crate::ps5_dualsense::{
    AXIS_DPAD_X, AXIS_DPAD_Y, BUTTON_CIRCLE, BUTTON_CROSS, BUTTON_L1, BUTTON_L2, BUTTON_PS,
    BUTTON_R1, BUTTON_R2, BUTTON_SELECT, BUTTON_SQUARE, BUTTON_START, BUTTON_TRIANGLE,
    RAW_AXIS_COUNT, RAW_BUTTON_COUNT,
};

verus! {

/// The fixed-point reading that stands for the analog value 1.0.
pub const AXIS_UNIT: i32 = 1000;

/// Why a frame was refused.
#[derive(Clone, Copy, Debug, PartialEq, Eq, Structural)]
pub enum SnapshotError {
    /// Fewer button flags than the controller has raw buttons.
    MissingButtons,
    /// Fewer axis readings than the controller has raw axes.
    MissingAxes,
    /// The reading at this position lies outside `-AXIS_UNIT ..= AXIS_UNIT`.
    AxisOutOfRange(usize),
}

/// Whether a reading lies within the analog range.
pub open spec fn reading_in_range(reading: i32) -> bool {
    -(AXIS_UNIT as int) <= reading <= AXIS_UNIT as int
}

/// Whether raw frame contents make a usable frame.
pub open spec fn frame_usable(buttons: Seq<bool>, axes: Seq<i32>) -> bool {
    &&& buttons.len() >= RAW_BUTTON_COUNT
    &&& axes.len() >= RAW_AXIS_COUNT
    &&& forall|i: int| 0 <= i < axes.len() ==> reading_in_range(#[trigger] axes[i])
}

/// The first position whose reading is out of range, if `i` is one and no earlier is.
pub open spec fn first_out_of_range(axes: Seq<i32>, i: int) -> bool {
    &&& 0 <= i < axes.len()
    &&& !reading_in_range(axes[i])
    &&& forall|j: int| 0 <= j < i ==> reading_in_range(#[trigger] axes[j])
}

/// What `InputSnapshot::new` answers for given raw contents.
pub open spec fn snapshot_verdict(buttons: Seq<bool>, axes: Seq<i32>) -> Option<SnapshotError> {
    if buttons.len() < RAW_BUTTON_COUNT {
        Some(SnapshotError::MissingButtons)
    } else if axes.len() < RAW_AXIS_COUNT {
        Some(SnapshotError::MissingAxes)
    } else if exists|i: int| first_out_of_range(axes, i) {
        Some(SnapshotError::AxisOutOfRange((choose|i: int| first_out_of_range(axes, i)) as usize))
    } else {
        None
    }
}

/// One raw input frame: button flags and axis readings in the controller's order.
#[derive(Debug)]
pub struct InputSnapshot {
    buttons: Vec<bool>,
    axes: Vec<i32>,
}

impl InputSnapshot {
    /// The button flags.
    pub closed spec fn buttons(&self) -> Seq<bool> {
        self.buttons@
    }

    /// The axis readings.
    pub closed spec fn axes(&self) -> Seq<i32> {
        self.axes@
    }

    /// A frame is well formed when it carries every raw button and axis and every
    /// reading is within range.
    pub open spec fn wf(&self) -> bool {
        frame_usable(self.buttons(), self.axes())
    }

    /// Makes a frame from raw contents, or says why they are not usable.
    pub fn new(buttons: Vec<bool>, axes: Vec<i32>) -> (r: Result<InputSnapshot, SnapshotError>)
        ensures
            match r {
                Ok(s) => snapshot_verdict(buttons@, axes@) is None && s.wf()
                    && s.buttons() == buttons@ && s.axes() == axes@,
                Err(e) => snapshot_verdict(buttons@, axes@) == Some(e),
            },
            r is Ok <==> frame_usable(buttons@, axes@),
    {
        if buttons.len() < RAW_BUTTON_COUNT {
            return Err(SnapshotError::MissingButtons);
        }
        if axes.len() < RAW_AXIS_COUNT {
            return Err(SnapshotError::MissingAxes);
        }
        let mut i: usize = 0;
        while i < axes.len()
            invariant
                i <= axes.len(),
                buttons.len() >= RAW_BUTTON_COUNT,
                axes.len() >= RAW_AXIS_COUNT,
                forall|j: int| 0 <= j < i ==> reading_in_range(#[trigger] axes@[j]),
            decreases axes.len() - i,
        {
            if axes[i] < -AXIS_UNIT || axes[i] > AXIS_UNIT {
                proof {
                    assert(first_out_of_range(axes@, i as int));
                    let k = choose|k: int| first_out_of_range(axes@, k);
                    assert(k == i) by {
                        if k < i {
                            assert(reading_in_range(axes@[k]));
                        } else if i < k {
                            assert(reading_in_range(axes@[i as int]));
                        }
                    }
                }
                return Err(SnapshotError::AxisOutOfRange(i));
            }
            i = i + 1;
        }
        proof {
            assert forall|k: int| !first_out_of_range(axes@, k) by {
                if 0 <= k < axes@.len() {
                    assert(reading_in_range(axes@[k]));
                }
            }
        }
        Ok(InputSnapshot { buttons, axes })
    }

    /// Number of button flags.
    pub fn button_len(&self) -> (n: usize)
        ensures
            n == self.buttons().len(),
    {
        self.buttons.len()
    }

    /// Number of axis readings.
    pub fn axis_len(&self) -> (n: usize)
        ensures
            n == self.axes().len(),
    {
        self.axes.len()
    }

    /// The flag of the raw button at `index`.
    pub fn raw_button(&self, index: usize) -> (b: bool)
        requires
            index < self.buttons().len(),
        ensures
            b == self.buttons()[index as int],
    {
        self.buttons[index]
    }

    /// The reading of the raw axis at `index`.
    pub fn raw_axis(&self, index: usize) -> (v: i32)
        requires
            index < self.axes().len(),
        ensures
            v == self.axes()[index as int],
    {
        self.axes[index]
    }
}

/// The raw position of a logical button that has a flag of its own.
pub open spec fn raw_position(button: usize) -> int {
    if button == SQUARE {
        BUTTON_SQUARE as int
    } else if button == CIRCLE {
        BUTTON_CIRCLE as int
    } else if button == TRIANGLE {
        BUTTON_TRIANGLE as int
    } else if button == CROSS {
        BUTTON_CROSS as int
    } else if button == L1 {
        BUTTON_L1 as int
    } else if button == L2 {
        BUTTON_L2 as int
    } else if button == R1 {
        BUTTON_R1 as int
    } else if button == R2 {
        BUTTON_R2 as int
    } else if button == START {
        BUTTON_START as int
    } else if button == SELECT {
        BUTTON_SELECT as int
    } else {
        BUTTON_PS as int
    }
}

/// Whether a frame with these contents shows the logical button as held.
///
/// Left and right share the D-pad's horizontal axis, up and down its vertical axis: left is
/// a positive horizontal reading, right a negative one, up a positive vertical reading,
/// down a negative one. Every other button has a flag of its own.
pub open spec fn decoded(buttons: Seq<bool>, axes: Seq<i32>, button: usize) -> bool {
    if button == D_PAD_LEFT {
        axes[AXIS_DPAD_X as int] > 0
    } else if button == D_PAD_RIGHT {
        axes[AXIS_DPAD_X as int] < 0
    } else if button == D_PAD_UP {
        axes[AXIS_DPAD_Y as int] > 0
    } else if button == D_PAD_DOWN {
        axes[AXIS_DPAD_Y as int] < 0
    } else {
        buttons[raw_position(button)]
    }
}

/// The decoded state of every logical button, in identifier order.
pub open spec fn decoded_all(buttons: Seq<bool>, axes: Seq<i32>) -> Seq<bool> {
    Seq::new(BUTTON_COUNT as nat, |b: int| decoded(buttons, axes, b as usize))
}

/// The decoder: one frame behind named queries. It keeps no history.
#[derive(Debug)]
pub struct PlaystationInterface {
    msg: InputSnapshot,
}

impl PlaystationInterface {
    /// The frame that the queries read.
    pub closed spec fn frame(&self) -> InputSnapshot {
        self.msg
    }

    /// The decoder is well formed when its frame is.
    pub open spec fn wf(&self) -> bool {
        self.frame().wf()
    }

    /// Whether the frame shows the logical button as held.
    pub open spec fn held(&self, button: usize) -> bool {
        decoded(self.frame().buttons(), self.frame().axes(), button)
    }

    /// The decoded state of every logical button.
    pub open spec fn held_all(&self) -> Seq<bool> {
        decoded_all(self.frame().buttons(), self.frame().axes())
    }

    /// Wraps a frame.
    pub fn new(_msg: InputSnapshot) -> (r: PlaystationInterface)
        requires
            _msg.wf(),
        ensures
            r.frame() == _msg,
            r.wf(),
    {
        PlaystationInterface { msg: _msg }
    }

    /// Replaces the frame wholesale.
    pub fn set_joy_msg(&mut self, _msg: InputSnapshot)
        requires
            _msg.wf(),
        ensures
            final(self).frame() == _msg,
            final(self).wf(),
    {
        self.msg = _msg;
    }

    /// D-pad left: the horizontal D-pad reading is positive.
    pub fn pressed_dpad_left(&self) -> (b: bool)
        requires
            self.wf(),
        ensures
            b == (self.frame().axes()[AXIS_DPAD_X as int] > 0),
            b == self.held(D_PAD_LEFT),
    {
        self.msg.raw_axis(AXIS_DPAD_X) > 0
    }

    /// D-pad up: the vertical D-pad reading is positive.
    pub fn pressed_dpad_up(&self) -> (b: bool)
        requires
            self.wf(),
        ensures
            b == (self.frame().axes()[AXIS_DPAD_Y as int] > 0),
            b == self.held(D_PAD_UP),
    {
        self.msg.raw_axis(AXIS_DPAD_Y) > 0
    }

    /// D-pad right: the horizontal D-pad reading is negative.
    pub fn pressed_dpad_right(&self) -> (b: bool)
        requires
            self.wf(),
        ensures
            b == (self.frame().axes()[AXIS_DPAD_X as int] < 0),
            b == self.held(D_PAD_RIGHT),
    {
        self.msg.raw_axis(AXIS_DPAD_X) < 0
    }

    /// D-pad down: the vertical D-pad reading is negative.
    pub fn pressed_dpad_down(&self) -> (b: bool)
        requires
            self.wf(),
        ensures
            b == (self.frame().axes()[AXIS_DPAD_Y as int] < 0),
            b == self.held(D_PAD_DOWN),
    {
        self.msg.raw_axis(AXIS_DPAD_Y) < 0
    }

    /// Whether the logical button is currently held.
    pub fn is_held(&self, button: usize) -> (b: bool)
        requires
            self.wf(),
            button < BUTTON_COUNT,
        ensures
            b == self.held(button),
    {
        if button == D_PAD_LEFT {
            self.pressed_dpad_left()
        } else if button == D_PAD_RIGHT {
            self.pressed_dpad_right()
        } else if button == D_PAD_UP {
            self.pressed_dpad_up()
        } else if button == D_PAD_DOWN {
            self.pressed_dpad_down()
        } else if button == SQUARE {
            self.msg.raw_button(BUTTON_SQUARE)
        } else if button == CIRCLE {
            self.msg.raw_button(BUTTON_CIRCLE)
        } else if button == TRIANGLE {
            self.msg.raw_button(BUTTON_TRIANGLE)
        } else if button == CROSS {
            self.msg.raw_button(BUTTON_CROSS)
        } else if button == L1 {
            self.msg.raw_button(BUTTON_L1)
        } else if button == L2 {
            self.msg.raw_button(BUTTON_L2)
        } else if button == R1 {
            self.msg.raw_button(BUTTON_R1)
        } else if button == R2 {
            self.msg.raw_button(BUTTON_R2)
        } else if button == START {
            self.msg.raw_button(BUTTON_START)
        } else if button == SELECT {
            self.msg.raw_button(BUTTON_SELECT)
        } else {
            self.msg.raw_button(BUTTON_PS)
        }
    }

    /// The reading of a raw axis, between `-AXIS_UNIT` and `AXIS_UNIT`.
    pub fn value(&self, axis: usize) -> (v: i32)
        requires
            self.wf(),
            axis < RAW_AXIS_COUNT,
        ensures
            v == self.frame().axes()[axis as int],
            reading_in_range(v),
    {
        self.msg.raw_axis(axis)
    }

    /// The decoded state of every logical button, in identifier order.
    pub fn decode_all(&self) -> (held: Vec<bool>)
        requires
            self.wf(),
        ensures
            held@ == self.held_all(),
    {
        let mut held: Vec<bool> = Vec::new();
        let mut b: usize = 0;
        while b < BUTTON_COUNT
            invariant
                self.wf(),
                b <= BUTTON_COUNT,
                held@.len() == b,
                forall|k: int| 0 <= k < b ==> held@[k] == self.held(k as usize),
            decreases BUTTON_COUNT - b,
        {
            let h = self.is_held(b);
            held.push(h);
            b = b + 1;
        }
        assert(held@ =~= self.held_all());
        held
    }
}

/// Left and right are never held at once, nor up and down: each pair shares one axis.
pub proof fn lemma_dpad_exclusive(p: PlaystationInterface)
    ensures
        !(p.held(D_PAD_LEFT) && p.held(D_PAD_RIGHT)),
        !(p.held(D_PAD_UP) && p.held(D_PAD_DOWN)),
{
}

} // verus!
