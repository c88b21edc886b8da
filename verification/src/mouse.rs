//! Mouse report decisions: button bits and the sub-pixel motion of each axis.

use vstd::prelude::*;

use crate::config::{mouse_speed, MouseInput};
use crate::mapping_state::MouseEvent;

verus! {

/// Reports are polled every millisecond, so there are 1000 ticks per second.
pub const TICKS_PER_SECOND: i32 = 1000;

/// `a / b` rounded toward zero, as Rust's `/` on integers.
pub open spec fn div_toward_zero(a: int, b: int) -> int {
    if a >= 0 {
        a / b
    } else {
        -((-a) / b)
    }
}

/// `v` limited to -127..=127.
pub open spec fn clamp_to_report(v: int) -> int {
    if v < -127 {
        -127
    } else if v > 127 {
        127
    } else {
        v
    }
}

/// One direction of motion: the sum of the active speeds and the part of a
/// pixel not yet reported.
#[derive(Debug, Clone, Copy, PartialEq, Eq, Structural)]
pub struct Axis {
    /// sum of active velocities (pixels/sec)
    pub velocity: i32,
    /// sub-pixel accumulator in 1/TICKS_PER_SECOND pixel units
    pub remainder: i32,
}

impl Axis {
    /// The whole pixels, rounded toward zero, that the next tick takes out.
    pub open spec fn pixels(self) -> int {
        div_toward_zero(self.remainder + self.velocity, TICKS_PER_SECOND as int)
    }

    /// The axis after a tick: no motion is lost, the new remainder plus the pixels
    /// taken out equals the old remainder plus the velocity.
    pub open spec fn ticked(self) -> Axis {
        Axis {
            velocity: self.velocity,
            remainder: (self.remainder + self.velocity - self.pixels() * TICKS_PER_SECOND) as i32,
        }
    }

    /// Less than a pixel is pending.
    pub open spec fn wf(self) -> bool {
        -TICKS_PER_SECOND < self.remainder < TICKS_PER_SECOND
    }

    /// Whether the next tick's sum of remainder and velocity fits in an `i32`.
    pub open spec fn can_tick(self) -> bool {
        i32::MIN <= self.remainder + self.velocity <= i32::MAX
    }

    pub fn new() -> (r: Self)
        ensures
            r.velocity == 0,
            r.remainder == 0,
            r.wf(),
    {
        Axis { velocity: 0, remainder: 0 }
    }

    pub fn add_velocity(&mut self, v: i32)
        requires
            i32::MIN <= old(self).velocity + v <= i32::MAX,
        ensures
            final(self).velocity == old(self).velocity + v,
            final(self).remainder == old(self).remainder,
    {
        self.velocity = self.velocity + v;
    }

    pub fn sub_velocity(&mut self, v: i32)
        requires
            i32::MIN <= old(self).velocity - v <= i32::MAX,
        ensures
            final(self).velocity == old(self).velocity - v,
            final(self).remainder == old(self).remainder,
    {
        self.velocity = self.velocity - v;
    }

    /// Whether the next tick fits in an `i32`.
    pub fn tick_fits(&self) -> (r: bool)
        ensures
            r == self.can_tick(),
    {
        let sum = self.remainder as i64 + self.velocity as i64;
        -2147483648 <= sum && sum <= 2147483647
    }

    /// Advances one tick: the velocity is added to the remainder, whole pixels
    /// (rounded toward zero) are taken out of it, and their number is reported,
    /// limited to -127..=127. No motion is lost: the remainder plus the pixels
    /// taken out equals the old remainder plus the velocity.
    pub fn tick(&mut self) -> (r: i8)
        requires
            old(self).can_tick(),
        ensures
            *final(self) == old(self).ticked(),
            final(self).remainder + old(self).pixels() * TICKS_PER_SECOND == old(self).remainder
                + old(self).velocity,
            r == clamp_to_report(old(self).pixels()),
            final(self).wf(),
    {
        self.remainder = self.remainder + self.velocity;
        let total = self.remainder;
        let pixels: i32;
        if total >= 0 {
            pixels = total / TICKS_PER_SECOND;
            self.remainder = total % TICKS_PER_SECOND;
        } else {
            let magnitude: i64 = -(total as i64);
            let whole = magnitude / 1000;
            let rest = magnitude % 1000;
            pixels = -(whole as i32);
            self.remainder = -(rest as i32);
        }
        if pixels < -127 {
            -127
        } else if pixels > 127 {
            127
        } else {
            pixels as i8
        }
    }
}

/// The parts of a USB mouse report that the keyboard fills in.
#[derive(Debug, Clone, Copy, PartialEq, Eq, Structural)]
pub struct MouseMotion {
    pub buttons: u8,
    pub x: i8,
    pub y: i8,
    pub wheel: i8,
    pub pan: i8,
}

/// The mouse state between reports: held buttons and the four axes.
#[derive(Debug, Clone, Copy, PartialEq, Eq, Structural)]
pub struct MouseReportState {
    pub buttons: u8,
    pub cursor_x: Axis,
    pub cursor_y: Axis,
    pub scroll_x: Axis,
    pub scroll_y: Axis,
}

/// The change of velocity that pressing `input` makes on each axis, as
/// (cursor_x, cursor_y, scroll_x, scroll_y): down and right are positive for
/// the cursor, up and right for scrolling.
pub open spec fn press_velocity(input: MouseInput) -> (int, int, int, int) {
    match input {
        MouseInput::ScrollUp(v) => (0, 0, 0, v as int),
        MouseInput::ScrollDown(v) => (0, 0, 0, -v),
        MouseInput::ScrollLeft(v) => (0, 0, -v, 0),
        MouseInput::ScrollRight(v) => (0, 0, v as int, 0),
        MouseInput::MoveUp(v) => (0, -v, 0, 0),
        MouseInput::MoveDown(v) => (0, v as int, 0, 0),
        MouseInput::MoveLeft(v) => (-v, 0, 0, 0),
        MouseInput::MoveRight(v) => (v as int, 0, 0, 0),
        _ => (0, 0, 0, 0),
    }
}

/// The change of velocity an event makes on each axis: a release undoes its press.
pub open spec fn velocity_change(event: MouseEvent) -> (int, int, int, int) {
    match event {
        MouseEvent::Pressed(i) => press_velocity(i),
        MouseEvent::Released(i) => {
            let (a, b, c, d) = press_velocity(i);
            (-a, -b, -c, -d)
        },
    }
}

/// The button bits after an event: left is bit 0, right bit 1, middle bit 2.
pub open spec fn buttons_after(buttons: u8, event: MouseEvent) -> u8 {
    match event {
        MouseEvent::Pressed(MouseInput::ClickLeft) => buttons | 1,
        MouseEvent::Pressed(MouseInput::ClickRight) => buttons | 2,
        MouseEvent::Pressed(MouseInput::ClickMiddle) => buttons | 4,
        MouseEvent::Released(MouseInput::ClickLeft) => buttons & 0b1111_1110,
        MouseEvent::Released(MouseInput::ClickRight) => buttons & 0b1111_1101,
        MouseEvent::Released(MouseInput::ClickMiddle) => buttons & 0b1111_1011,
        _ => buttons,
    }
}

impl MouseReportState {
    pub open spec fn wf(self) -> bool {
        &&& self.cursor_x.wf()
        &&& self.cursor_y.wf()
        &&& self.scroll_x.wf()
        &&& self.scroll_y.wf()
    }

    /// Whether every axis velocity stays within `i32` after `event`.
    pub open spec fn can_apply(self, event: MouseEvent) -> bool {
        let (dx, dy, sx, sy) = velocity_change(event);
        &&& i32::MIN <= self.cursor_x.velocity + dx <= i32::MAX
        &&& i32::MIN <= self.cursor_y.velocity + dy <= i32::MAX
        &&& i32::MIN <= self.scroll_x.velocity + sx <= i32::MAX
        &&& i32::MIN <= self.scroll_y.velocity + sy <= i32::MAX
    }

    /// Whether every axis can tick.
    pub open spec fn can_report(self) -> bool {
        &&& self.cursor_x.can_tick()
        &&& self.cursor_y.can_tick()
        &&& self.scroll_x.can_tick()
        &&& self.scroll_y.can_tick()
    }

    /// No button held, no motion.
    pub fn new() -> (r: Self)
        ensures
            r.buttons == 0,
            r.cursor_x == (Axis { velocity: 0, remainder: 0 }),
            r.cursor_y == (Axis { velocity: 0, remainder: 0 }),
            r.scroll_x == (Axis { velocity: 0, remainder: 0 }),
            r.scroll_y == (Axis { velocity: 0, remainder: 0 }),
            r.wf(),
    {
        MouseReportState {
            buttons: 0,
            cursor_x: Axis::new(),
            cursor_y: Axis::new(),
            scroll_x: Axis::new(),
            scroll_y: Axis::new(),
        }
    }

    /// Whether `event` can be applied without an axis velocity leaving `i32`.
    pub fn event_fits(&self, event: MouseEvent) -> (r: bool)
        ensures
            r == self.can_apply(event),
    {
        let (input, released) = match event {
            MouseEvent::Pressed(i) => (i, false),
            MouseEvent::Released(i) => (i, true),
        };
        let (axis, v): (Axis, i64) = match input {
            MouseInput::ScrollUp(v) => (self.scroll_y, v as i64),
            MouseInput::ScrollDown(v) => (self.scroll_y, -(v as i64)),
            MouseInput::ScrollLeft(v) => (self.scroll_x, -(v as i64)),
            MouseInput::ScrollRight(v) => (self.scroll_x, v as i64),
            MouseInput::MoveUp(v) => (self.cursor_y, -(v as i64)),
            MouseInput::MoveDown(v) => (self.cursor_y, v as i64),
            MouseInput::MoveLeft(v) => (self.cursor_x, -(v as i64)),
            MouseInput::MoveRight(v) => (self.cursor_x, v as i64),
            _ => return true,
        };
        let v = if released {
            -v
        } else {
            v
        };
        let sum = axis.velocity as i64 + v;
        -2147483648 <= sum && sum <= 2147483647
    }

    /// Whether every axis can tick.
    pub fn report_fits(&self) -> (r: bool)
        ensures
            r == self.can_report(),
    {
        self.cursor_x.tick_fits() && self.cursor_y.tick_fits() && self.scroll_x.tick_fits()
            && self.scroll_y.tick_fits()
    }

    /// Applies a press or release: movement and scrolling change an axis velocity,
    /// clicks set or clear a button bit.
    pub fn apply(&mut self, event: MouseEvent)
        requires
            old(self).can_apply(event),
        ensures
            final(self).buttons == buttons_after(old(self).buttons, event),
            final(self).cursor_x.velocity == old(self).cursor_x.velocity + velocity_change(event).0,
            final(self).cursor_y.velocity == old(self).cursor_y.velocity + velocity_change(event).1,
            final(self).scroll_x.velocity == old(self).scroll_x.velocity + velocity_change(event).2,
            final(self).scroll_y.velocity == old(self).scroll_y.velocity + velocity_change(event).3,
            final(self).cursor_x.remainder == old(self).cursor_x.remainder,
            final(self).cursor_y.remainder == old(self).cursor_y.remainder,
            final(self).scroll_x.remainder == old(self).scroll_x.remainder,
            final(self).scroll_y.remainder == old(self).scroll_y.remainder,
    {
        match event {
            MouseEvent::Pressed(input) => match input {
                MouseInput::ScrollUp(value) => self.scroll_y.add_velocity(value as i32),
                MouseInput::ScrollDown(value) => self.scroll_y.sub_velocity(value as i32),
                MouseInput::ScrollLeft(value) => self.scroll_x.sub_velocity(value as i32),
                MouseInput::ScrollRight(value) => self.scroll_x.add_velocity(value as i32),
                MouseInput::MoveUp(value) => self.cursor_y.sub_velocity(value as i32),
                MouseInput::MoveDown(value) => self.cursor_y.add_velocity(value as i32),
                MouseInput::MoveLeft(value) => self.cursor_x.sub_velocity(value as i32),
                MouseInput::MoveRight(value) => self.cursor_x.add_velocity(value as i32),
                MouseInput::ClickLeft => self.buttons = self.buttons | 0b0000_0001,
                MouseInput::ClickRight => self.buttons = self.buttons | 0b0000_0010,
                MouseInput::ClickMiddle => self.buttons = self.buttons | 0b0000_0100,
            },
            MouseEvent::Released(input) => match input {
                MouseInput::ScrollUp(value) => self.scroll_y.sub_velocity(value as i32),
                MouseInput::ScrollDown(value) => self.scroll_y.add_velocity(value as i32),
                MouseInput::ScrollLeft(value) => self.scroll_x.add_velocity(value as i32),
                MouseInput::ScrollRight(value) => self.scroll_x.sub_velocity(value as i32),
                MouseInput::MoveUp(value) => self.cursor_y.add_velocity(value as i32),
                MouseInput::MoveDown(value) => self.cursor_y.sub_velocity(value as i32),
                MouseInput::MoveLeft(value) => self.cursor_x.add_velocity(value as i32),
                MouseInput::MoveRight(value) => self.cursor_x.sub_velocity(value as i32),
                MouseInput::ClickLeft => self.buttons = self.buttons & 0b1111_1110,
                MouseInput::ClickRight => self.buttons = self.buttons & 0b1111_1101,
                MouseInput::ClickMiddle => self.buttons = self.buttons & 0b1111_1011,
            },
        }
    }

    /// The next report: the held buttons, and one tick of each axis.
    pub fn report(&mut self) -> (r: MouseMotion)
        requires
            old(self).can_report(),
        ensures
            r.buttons == old(self).buttons,
            final(self).buttons == old(self).buttons,
            final(self).cursor_x == old(self).cursor_x.ticked(),
            final(self).cursor_y == old(self).cursor_y.ticked(),
            final(self).scroll_x == old(self).scroll_x.ticked(),
            final(self).scroll_y == old(self).scroll_y.ticked(),
            r.x == clamp_to_report(old(self).cursor_x.pixels()),
            r.y == clamp_to_report(old(self).cursor_y.pixels()),
            r.pan == clamp_to_report(old(self).scroll_x.pixels()),
            r.wheel == clamp_to_report(old(self).scroll_y.pixels()),
            final(self).wf(),
    {
        let x = self.cursor_x.tick();
        let y = self.cursor_y.tick();
        let pan = self.scroll_x.tick();
        let wheel = self.scroll_y.tick();
        MouseMotion { buttons: self.buttons, x, y, wheel, pan }
    }
}

/// Releasing an input undoes the velocity change of pressing it.
pub proof fn lemma_release_undoes_press(input: MouseInput)
    ensures
        velocity_change(MouseEvent::Released(input)).0 == -velocity_change(MouseEvent::Pressed(input)).0,
        velocity_change(MouseEvent::Released(input)).1 == -velocity_change(MouseEvent::Pressed(input)).1,
        velocity_change(MouseEvent::Released(input)).2 == -velocity_change(MouseEvent::Pressed(input)).2,
        velocity_change(MouseEvent::Released(input)).3 == -velocity_change(MouseEvent::Pressed(input)).3,
{
}

/// Pressing a button sets its bit and releasing it clears that bit again,
/// leaving the other buttons' bits as they were.
pub proof fn lemma_click_press_release(buttons: u8, input: MouseInput)
    requires
        input == MouseInput::ClickLeft || input == MouseInput::ClickRight || input
            == MouseInput::ClickMiddle,
    ensures
        ({
            let bit: u8 = match input {
                MouseInput::ClickLeft => 1,
                MouseInput::ClickRight => 2,
                _ => 4,
            };
            &&& buttons_after(buttons, MouseEvent::Pressed(input)) & bit == bit
            &&& buttons_after(buttons, MouseEvent::Released(input)) & bit == 0
            &&& buttons_after(buttons, MouseEvent::Pressed(input)) & !bit == buttons & !bit
            &&& buttons_after(buttons, MouseEvent::Released(input)) & !bit == buttons & !bit
        }),
{
    assert((buttons | 1u8) & 1u8 == 1u8 && (buttons & 0b1111_1110u8) & 1u8 == 0u8 && (buttons
        | 1u8) & !1u8 == buttons & !1u8 && (buttons & 0b1111_1110u8) & !1u8 == buttons & !1u8)
        by (bit_vector);
    assert((buttons | 2u8) & 2u8 == 2u8 && (buttons & 0b1111_1101u8) & 2u8 == 0u8 && (buttons
        | 2u8) & !2u8 == buttons & !2u8 && (buttons & 0b1111_1101u8) & !2u8 == buttons & !2u8)
        by (bit_vector);
    assert((buttons | 4u8) & 4u8 == 4u8 && (buttons & 0b1111_1011u8) & 4u8 == 0u8 && (buttons
        | 4u8) & !4u8 == buttons & !4u8 && (buttons & 0b1111_1011u8) & !4u8 == buttons & !4u8)
        by (bit_vector);
}

/// The axis after `k` ticks, and the pixels those ticks took out in total.
pub open spec fn after_ticks(a: Axis, k: nat) -> (Axis, int)
    decreases k,
{
    if k == 0 {
        (a, 0)
    } else {
        let before = after_ticks(a, (k - 1) as nat);
        (before.0.ticked(), before.1 + before.0.pixels())
    }
}

/// From rest at velocity `v`, after `k` ticks the velocity is kept, the
/// pixels taken out plus what is pending make up `k * v` thousandths, the
/// pending part has the sign of `v` and is under a pixel, and the next
/// tick takes out at most 127 pixels either way.
proof fn lemma_ticks_from_rest(v: i32, k: nat)
    requires
        -127000 <= v <= 127000,
    ensures
        ({
            let r = after_ticks(Axis { velocity: v, remainder: 0 }, k);
            &&& r.0.velocity == v
            &&& r.1 * 1000 + r.0.remainder == k * v
            &&& v >= 0 ==> 0 <= r.0.remainder < 1000
            &&& v < 0 ==> -1000 < r.0.remainder <= 0
            &&& -127 <= r.0.pixels() <= 127
        }),
    decreases k,
{
    let a0 = Axis { velocity: v, remainder: 0 };
    if k > 0 {
        lemma_ticks_from_rest(v, (k - 1) as nat);
        let b = after_ticks(a0, (k - 1) as nat);
        assert(k * v == (k - 1) * v + v) by (nonlinear_arith);
        assert(b.0.ticked().remainder == b.0.remainder + v - b.0.pixels() * 1000);
    }
}

/// At a constant velocity of `v` pixels per second from rest, one second of
/// ticks reports exactly `v` pixels, no tick reports more than the report
/// can carry, and nothing is left pending.
pub proof fn lemma_a_second_of_motion(v: i32)
    requires
        -127000 <= v <= 127000,
    ensures
        after_ticks(Axis { velocity: v, remainder: 0 }, 1000) == (
            Axis { velocity: v, remainder: 0 },
            v as int,
        ),
        forall|k: nat|
            k < 1000 ==> clamp_to_report(
                #[trigger] after_ticks(Axis { velocity: v, remainder: 0 }, k).0.pixels(),
            ) == after_ticks(Axis { velocity: v, remainder: 0 }, k).0.pixels(),
{
    lemma_ticks_from_rest(v, 1000);
    assert forall|k: nat| k < 1000 implies clamp_to_report(
        #[trigger] after_ticks(Axis { velocity: v, remainder: 0 }, k).0.pixels(),
    ) == after_ticks(Axis { velocity: v, remainder: 0 }, k).0.pixels() by {
        lemma_ticks_from_rest(v, k);
    }
}

/// The velocity changes of a series of events, summed per axis (cursor x,
/// cursor y, scroll x, scroll y).
pub open spec fn net_change(events: Seq<MouseEvent>) -> (int, int, int, int)
    decreases events.len(),
{
    if events.len() == 0 {
        (0, 0, 0, 0)
    } else {
        let r = net_change(events.drop_last());
        let c = velocity_change(events.last());
        (r.0 + c.0, r.1 + c.1, r.2 + c.2, r.3 + c.3)
    }
}

proof fn lemma_net_change_concat(a: Seq<MouseEvent>, b: Seq<MouseEvent>)
    ensures
        net_change(a + b) == ({
            let x = net_change(a);
            let y = net_change(b);
            (x.0 + y.0, x.1 + y.1, x.2 + y.2, x.3 + y.3)
        }),
    decreases b.len(),
{
    if b.len() > 0 {
        lemma_net_change_concat(a, b.drop_last());
        assert((a + b).drop_last() =~= a + b.drop_last());
        assert((a + b).last() == b.last());
    } else {
        assert(a + b =~= a);
    }
}

/// Within a series of events, a press of an input and a later release of the
/// same input cancel, whatever comes between: the series changes the axis
/// velocities as it would without the pair.
pub proof fn lemma_press_release_pair_cancels(events: Seq<MouseEvent>, i: int, j: int, x: MouseInput)
    requires
        0 <= i < j < events.len(),
        events[i] == MouseEvent::Pressed(x),
        events[j] == MouseEvent::Released(x),
    ensures
        net_change(events) == net_change(events.remove(j).remove(i)),
{
    let a = events.take(i);
    let b = events.subrange(i + 1, j);
    let c = events.skip(j + 1);
    let p = seq![MouseEvent::Pressed(x)];
    let r = seq![MouseEvent::Released(x)];
    assert(events =~= a + p + b + r + c);
    assert(events.remove(j).remove(i) =~= a + b + c);
    lemma_net_change_concat(a + p + b + r, c);
    lemma_net_change_concat(a + p + b, r);
    lemma_net_change_concat(a + p, b);
    lemma_net_change_concat(a, p);
    lemma_net_change_concat(a + b, c);
    lemma_net_change_concat(a, b);
    assert(net_change(p) == velocity_change(MouseEvent::Pressed(x))) by {
        assert(p.drop_last() =~= Seq::<MouseEvent>::empty());
        assert(net_change(p.drop_last()) == (0int, 0int, 0int, 0int));
        let c = velocity_change(p.last());
        assert(net_change(p) == (0 + c.0, 0 + c.1, 0 + c.2, 0 + c.3));
    }
    assert(net_change(r) == velocity_change(MouseEvent::Released(x))) by {
        assert(r.drop_last() =~= Seq::<MouseEvent>::empty());
        assert(net_change(r.drop_last()) == (0int, 0int, 0int, 0int));
        let c = velocity_change(r.last());
        assert(net_change(r) == (0 + c.0, 0 + c.1, 0 + c.2, 0 + c.3));
    }
    lemma_release_undoes_press(x);
}

/// The direction of each mouse action. On the cursor, x grows to the right
/// and y downwards; scrolling pans right for positive x and wheels up for
/// positive y. Pressing an action adds its speed on its own axis, in its
/// direction, and leaves the other axes alone; clicks move nothing. The axes
/// are, in order, cursor x, cursor y, scroll x (pan) and scroll y (wheel).
pub proof fn lemma_mouse_directions(v: i16)
    ensures
        velocity_change(MouseEvent::Pressed(MouseInput::MoveRight(v))) == (v as int, 0int, 0int, 0int),
        velocity_change(MouseEvent::Pressed(MouseInput::MoveLeft(v))) == (-(v as int), 0int, 0int, 0int),
        velocity_change(MouseEvent::Pressed(MouseInput::MoveDown(v))) == (0int, v as int, 0int, 0int),
        velocity_change(MouseEvent::Pressed(MouseInput::MoveUp(v))) == (0int, -(v as int), 0int, 0int),
        velocity_change(MouseEvent::Pressed(MouseInput::ScrollRight(v))) == (0int, 0int, v as int, 0int),
        velocity_change(MouseEvent::Pressed(MouseInput::ScrollLeft(v))) == (0int, 0int, -(v as int), 0int),
        velocity_change(MouseEvent::Pressed(MouseInput::ScrollUp(v))) == (0int, 0int, 0int, v as int),
        velocity_change(MouseEvent::Pressed(MouseInput::ScrollDown(v))) == (0int, 0int, 0int, -(v as int)),
        velocity_change(MouseEvent::Pressed(MouseInput::ClickLeft)) == (0int, 0int, 0int, 0int),
        velocity_change(MouseEvent::Pressed(MouseInput::ClickMiddle)) == (0int, 0int, 0int, 0int),
        velocity_change(MouseEvent::Pressed(MouseInput::ClickRight)) == (0int, 0int, 0int, 0int),
{
}

/// Movement and scrolling leave the button bits alone.
pub proof fn lemma_motion_leaves_the_buttons(buttons: u8, input: MouseInput)
    requires
        mouse_speed(input) is Some,
    ensures
        buttons_after(buttons, MouseEvent::Pressed(input)) == buttons,
        buttons_after(buttons, MouseEvent::Released(input)) == buttons,
{
}

} // verus!
