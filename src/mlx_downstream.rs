//! The MLX90363 driver of one port: parameter bootstrap (id, then minimum,
//! then maximum), then angle sampling shaped into controller events.
use vstd::prelude::*;
use crate::mlx90363::{mem_read_bytes, transfer_result, Mlx90363, MlxAlpha, MlxError, MlxReply};
use crate::negicon_event::{NegiconEvent, NegiconEventType};
use crate::spi_downstream::DownstreamError;
use crate::spi_protocol::stamped;

verus! {

/// Memory address of the sensor's event id.
pub const ADDR_ID: u16 = 0x1018;
/// Memory address of the calibrated minimum.
pub const ADDR_MIN: u16 = 0x103A;
/// Memory address of the calibrated maximum.
pub const ADDR_MAX: u16 = 0x103C;
/// Smallest movement, exclusive, that produces an event.
pub const DEADZONE: i32 = 64;
/// Gain byte below which the button is pressed, above which it is released.
pub const BUTTON_THRESHOLD: u8 = 35;
/// Polls during which movement stays suppressed after a release.
pub const RELEASE_LOCK: i16 = 100;
/// Countdown value that holds movement while the button is down.
pub const LATCHED: i16 = -1;
/// Number of angle values in one turn: angles are 14-bit.
pub const ANGLE_RANGE: i32 = 16384;

/// How angles become output values.
#[derive(PartialEq, Eq, Structural, Clone, Copy, Debug)]
pub enum InputMode {
    /// The angle scaled into the calibrated range.
    Absolute,
    /// The wrapped change since the previous angle.
    Relative,
}

/// A parameter read from sensor memory: one transaction at a time.
#[derive(PartialEq, Eq, Structural, Clone, Copy, Debug)]
pub enum ParameterState<T> {
    Uninitialized(T),
    Requested(T),
    Initialized(T),
}

pub open spec fn param_value<T>(p: ParameterState<T>) -> T {
    match p {
        ParameterState::Uninitialized(v) => v,
        ParameterState::Requested(v) => v,
        ParameterState::Initialized(v) => v,
    }
}

impl<T: Copy> ParameterState<T> {
    pub fn get_value(&self) -> (r: T)
        ensures
            r == param_value(*self),
    {
        match self {
            ParameterState::Uninitialized(value) => *value,
            ParameterState::Requested(value) => *value,
            ParameterState::Initialized(value) => *value,
        }
    }
}

#[derive(PartialEq, Eq, Structural, Clone, Copy, Debug)]
pub enum ButtonState {
    Up,
    Down,
}

/// The driver's state.
#[derive(PartialEq, Eq, Structural, Clone, Copy, Debug)]
pub struct MlxDownstream {
    pub id: ParameterState<u16>,
    pub min: ParameterState<u16>,
    pub max: ParameterState<u16>,
    pub mode: InputMode,
    /// The previous angle.
    pub last: u16,
    pub button_state: ButtonState,
    /// Polls left in which movement is suppressed; `LATCHED` while pressed.
    pub lock_countdown: i16,
}

/// The parameter after one exchange of its bootstrap.
pub open spec fn param_next(p: ParameterState<u16>, res: Result<MlxReply, MlxError>) -> Result<
    ParameterState<u16>,
    DownstreamError,
> {
    match p {
        ParameterState::Uninitialized(d) => match res {
            Ok(_) => Ok(ParameterState::Requested(d)),
            Err(e) => Err(DownstreamError::MlxError(e)),
        },
        ParameterState::Requested(_) => match res {
            Ok(MlxReply::MlxMemReadResponse(m)) => Ok(ParameterState::Initialized(m.data1)),
            Ok(other) => Err(DownstreamError::UnexpectedReply(other)),
            Err(e) => Err(DownstreamError::MlxError(e)),
        },
        ParameterState::Initialized(_) => Ok(p),
    }
}

/// More than `DEADZONE` away from the previous angle.
pub open spec fn deadzone_exceeded(last: u16, input: u16) -> bool {
    input - last > 64 || last - input > 64
}

/// The change from `last` to `input`, wrapped into one half-turn either way.
pub open spec fn relative_delta(last: u16, input: u16) -> int {
    let d = input - last;
    if d > 8192 {
        d - 16384
    } else if d < -8192 {
        d + 16384
    } else {
        d
    }
}

/// Integer division rounding toward zero, for a positive divisor.
pub open spec fn trunc_div(a: int, b: int) -> int {
    if a >= 0 {
        a / b
    } else {
        -((-a) / b)
    }
}

/// `(input - min) * 16383 / (max - min)`, rounded toward zero.
pub open spec fn absolute_scaled(input: u16, min: u16, max: u16) -> int {
    trunc_div((input - min) * 16383, max - min)
}

/// The output value of an angle; none where absolute scaling has an empty
/// range or a result beyond 16 bits.
pub open spec fn output_of(mode: InputMode, min: u16, max: u16, last: u16, input: u16) -> Option<i16> {
    match mode {
        InputMode::Relative => Some(relative_delta(last, input) as i16),
        InputMode::Absolute => if max > min && -32768 <= absolute_scaled(input, min, max) <= 32767 {
            Some(absolute_scaled(input, min, max) as i16)
        } else {
            None
        },
    }
}

/// The event id of the button: one past the sensor's id, wrapping.
pub open spec fn button_id(id: u16) -> u16 {
    if id == 65535 {
        0
    } else {
        (id + 1) as u16
    }
}

/// The state and event after a gain byte: a press below the threshold while
/// up, a release above it while down.
pub open spec fn button_step(s: MlxDownstream, vg: u8) -> (MlxDownstream, Option<NegiconEvent>) {
    let bid = button_id(param_value(s.id));
    if s.button_state == ButtonState::Up && vg < 35 {
        (
            MlxDownstream { lock_countdown: -1i16, button_state: ButtonState::Down, ..s },
            Some(NegiconEvent { event_type: NegiconEventType::Input, id: bid, value: 1, controller_id: 0, sequence: 0 }),
        )
    } else if s.button_state == ButtonState::Down && vg > 35 {
        (
            MlxDownstream { lock_countdown: 100, button_state: ButtonState::Up, ..s },
            Some(NegiconEvent { event_type: NegiconEventType::Input, id: bid, value: -1i16, controller_id: 0, sequence: 0 }),
        )
    } else {
        (s, None)
    }
}

/// The state and event after one angle sample: a button transition wins;
/// otherwise movement is suppressed while the countdown runs, and outside the
/// deadzone it becomes an event on the sensor's id.
pub open spec fn sample_step(s: MlxDownstream, a: MlxAlpha) -> (MlxDownstream, Option<NegiconEvent>) {
    let (s1, ev) = button_step(s, a.vg);
    if ev is Some {
        (s1, ev)
    } else if s1.lock_countdown == -1 {
        (MlxDownstream { last: a.data, ..s1 }, None)
    } else if s1.lock_countdown != 0 {
        (MlxDownstream { last: a.data, lock_countdown: (s1.lock_countdown - 1) as i16, ..s1 }, None)
    } else if !deadzone_exceeded(s1.last, a.data) {
        (s1, None)
    } else {
        let s2 = MlxDownstream { last: a.data, ..s1 };
        match output_of(s1.mode, param_value(s1.min), param_value(s1.max), s1.last, a.data) {
            Some(v) => (
                s2,
                Some(NegiconEvent { event_type: NegiconEventType::Input, id: param_value(s1.id), value: v, controller_id: 0, sequence: 0 }),
            ),
            None => (s2, None),
        }
    }
}

/// Updates one parameter of the bootstrap, or reports the failure with the
/// state unchanged.
pub open spec fn bootstrap_step(
    s: MlxDownstream,
    s_next: MlxDownstream,
    p: ParameterState<u16>,
    res: Result<MlxReply, MlxError>,
) -> (MlxDownstream, Result<Option<NegiconEvent>, DownstreamError>) {
    match param_next(p, res) {
        Ok(_) => (s_next, Ok(None)),
        Err(e) => (s, Err(e)),
    }
}

/// One poll of the driver, given what its exchange brought back.
pub open spec fn driver_step(s: MlxDownstream, received: Result<[u8; 8], ()>) -> (MlxDownstream, Result<
    Option<NegiconEvent>,
    DownstreamError,
>) {
    let res = transfer_result(received);
    if !(s.id is Initialized) {
        bootstrap_step(s, MlxDownstream { id: param_next(s.id, res)->Ok_0, ..s }, s.id, res)
    } else if !(s.min is Initialized) {
        bootstrap_step(s, MlxDownstream { min: param_next(s.min, res)->Ok_0, ..s }, s.min, res)
    } else if !(s.max is Initialized) {
        bootstrap_step(s, MlxDownstream { max: param_next(s.max, res)->Ok_0, ..s }, s.max, res)
    } else {
        match res {
            Ok(MlxReply::MlxAlpha(a)) => {
                let (s1, ev) = sample_step(s, a);
                (s1, Ok(ev))
            },
            Ok(_) => (s, Ok(None)),
            Err(e) => (s, Err(DownstreamError::MlxError(e))),
        }
    }
}

/// The frame that the driver's next poll exchanges: the read of the first
/// parameter not yet known, else an angle query.
pub open spec fn request_of(s: MlxDownstream) -> Seq<u8> {
    if !(s.id is Initialized) {
        stamped(mem_read_bytes(ADDR_ID, ADDR_ID))
    } else if !(s.min is Initialized) {
        stamped(mem_read_bytes(ADDR_MIN, ADDR_MIN))
    } else if !(s.max is Initialized) {
        stamped(mem_read_bytes(ADDR_MAX, ADDR_MAX))
    } else {
        stamped(seq![0u8, 0u8, 0xFFu8, 0xFFu8, 0u8, 0u8, 0x13u8, 0u8])
    }
}

/// A driver before its bootstrap: all parameters unread, relative mode,
/// button up, movement held for the release window.
pub open spec fn fresh_driver() -> MlxDownstream {
    MlxDownstream {
        id: ParameterState::Uninitialized(0),
        min: ParameterState::Uninitialized(0),
        max: ParameterState::Uninitialized(0),
        mode: InputMode::Relative,
        last: 0,
        button_state: ButtonState::Up,
        lock_countdown: 100,
    }
}

impl MlxDownstream {
    /// Angles are 14-bit and the countdown stays within its window.
    pub open spec fn wf(self) -> bool {
        self.last < 16384 && -1 <= self.lock_countdown <= 100
    }

    pub fn new() -> (r: Self)
        ensures
            r == fresh_driver(),
            r.wf(),
    {
        Self {
            id: ParameterState::Uninitialized(0),
            min: ParameterState::Uninitialized(0),
            max: ParameterState::Uninitialized(0),
            mode: InputMode::Relative,
            last: 0,
            button_state: ButtonState::Up,
            lock_countdown: RELEASE_LOCK,
        }
    }

    /// A fresh driver that shapes angles in the given mode.
    pub fn with_mode(mode: InputMode) -> (r: Self)
        ensures
            r == (MlxDownstream { mode, ..fresh_driver() }),
            r.wf(),
    {
        let mut d = Self::new();
        d.mode = mode;
        d
    }

    /// The frame that the next poll exchanges.
    pub fn next_request(&self) -> (r: [u8; 8])
        ensures
            r@ == request_of(*self),
    {
        match self.id {
            ParameterState::Initialized(_) => {},
            _ => return Mlx90363::read_memory(ADDR_ID, ADDR_ID),
        }
        match self.min {
            ParameterState::Initialized(_) => {},
            _ => return Mlx90363::read_memory(ADDR_MIN, ADDR_MIN),
        }
        match self.max {
            ParameterState::Initialized(_) => {},
            _ => return Mlx90363::read_memory(ADDR_MAX, ADDR_MAX),
        }
        Mlx90363::get_alpha()
    }

    /// One step of a parameter's bootstrap: the first read is only sent, the
    /// reply to the repeated read resolves the value (its second word).
    fn init_param(param: ParameterState<u16>, received: Result<[u8; 8], ()>) -> (r: Result<
        ParameterState<u16>,
        DownstreamError,
    >)
        ensures
            r == param_next(param, transfer_result(received)),
    {
        match param {
            ParameterState::Uninitialized(default) => match Mlx90363::transfer(received) {
                Ok(_) => Ok(ParameterState::Requested(default)),
                Err(e) => Err(DownstreamError::MlxError(e)),
            },
            ParameterState::Requested(_) => match Mlx90363::transfer(received) {
                Ok(res) => match res {
                    MlxReply::MlxMemReadResponse(msg) => Ok(ParameterState::Initialized(msg.data1)),
                    _ => Err(DownstreamError::UnexpectedReply(res)),
                },
                Err(e) => Err(DownstreamError::MlxError(e)),
            },
            ParameterState::Initialized(_) => Ok(param),
        }
    }

    /// Whether `input` is more than the deadzone away from the previous angle.
    pub fn check_deadzone(&self, input: u16) -> (r: bool)
        ensures
            r == deadzone_exceeded(self.last, input),
    {
        let diff = input as i32 - self.last as i32;
        diff > DEADZONE || diff < -DEADZONE
    }

    /// The output value of `input`; the angle becomes the previous angle.
    pub fn calculate_output(&mut self, input: u16) -> (r: Option<i16>)
        requires
            old(self).wf(),
            input < 16384,
        ensures
            *final(self) == (MlxDownstream { last: input, ..*old(self) }),
            r == output_of(old(self).mode, param_value(old(self).min), param_value(old(self).max), old(self).last, input),
    {
        match self.mode {
            InputMode::Absolute => {
                self.last = input;
                let min = self.min.get_value();
                let max = self.max.get_value();
                if max <= min {
                    return None;
                }
                let span = (max - min) as i64;
                let num = (input as i64 - min as i64) * 16383;
                let q = if num >= 0 {
                    num / span
                } else {
                    -((-num) / span)
                };
                if -32768 <= q && q <= 32767 {
                    Some(q as i16)
                } else {
                    None
                }
            },
            InputMode::Relative => {
                let last = self.last as i32;
                let input = input as i32;
                self.last = input as u16;
                let mut diff = input - last;
                if diff > ANGLE_RANGE / 2 {
                    diff = diff - ANGLE_RANGE;
                } else if diff < -ANGLE_RANGE / 2 {
                    diff = diff + ANGLE_RANGE;
                }
                Some(diff as i16)
            },
        }
    }

    /// Debounces the button from the gain byte.
    pub fn check_button(&mut self, vg: u8) -> (r: Option<NegiconEvent>)
        ensures
            (*final(self), r) == button_step(*old(self), vg),
    {
        let id = self.id.get_value();
        let bid = if id == u16::MAX {
            0
        } else {
            id + 1
        };
        if self.button_state == ButtonState::Up && vg < BUTTON_THRESHOLD {
            self.lock_countdown = LATCHED;
            self.button_state = ButtonState::Down;
            Some(NegiconEvent::new(NegiconEventType::Input, bid, 1, 0, 0))
        } else if self.button_state == ButtonState::Down && vg > BUTTON_THRESHOLD {
            self.button_state = ButtonState::Up;
            self.lock_countdown = RELEASE_LOCK;
            Some(NegiconEvent::new(NegiconEventType::Input, bid, -1, 0, 0))
        } else {
            None
        }
    }

    fn on_sample(&mut self, a: MlxAlpha) -> (r: Option<NegiconEvent>)
        requires
            old(self).wf(),
            a.data < 16384,
        ensures
            (*final(self), r) == sample_step(*old(self), a),
            final(self).wf(),
    {
        match self.check_button(a.vg) {
            Some(event) => return Some(event),
            None => {},
        }
        if self.lock_countdown == LATCHED {
            self.last = a.data;
            return None;
        } else if self.lock_countdown != 0 {
            self.last = a.data;
            self.lock_countdown = self.lock_countdown - 1;
            return None;
        }
        if self.check_deadzone(a.data) {
            let id = self.id.get_value();
            match self.calculate_output(a.data) {
                Some(v) => Some(NegiconEvent::new(NegiconEventType::Input, id, v, 0, 0)),
                None => None,
            }
        } else {
            None
        }
    }

    /// One poll, given what the exchange of `next_request` brought back: a
    /// bootstrap step while a parameter is unknown, else an angle sample.
    pub fn poll(&mut self, received: Result<[u8; 8], ()>) -> (r: Result<Option<NegiconEvent>, DownstreamError>)
        requires
            old(self).wf(),
        ensures
            (*final(self), r) == driver_step(*old(self), received),
            final(self).wf(),
    {
        match self.id {
            ParameterState::Initialized(_) => {},
            _ => {
                self.id = match Self::init_param(self.id, received) {
                    Ok(p) => p,
                    Err(e) => return Err(e),
                };
                return Ok(None);
            },
        }
        match self.min {
            ParameterState::Initialized(_) => {},
            _ => {
                self.min = match Self::init_param(self.min, received) {
                    Ok(p) => p,
                    Err(e) => return Err(e),
                };
                return Ok(None);
            },
        }
        match self.max {
            ParameterState::Initialized(_) => {},
            _ => {
                self.max = match Self::init_param(self.max, received) {
                    Ok(p) => p,
                    Err(e) => return Err(e),
                };
                return Ok(None);
            },
        }
        match Mlx90363::transfer(received) {
            Ok(res) => match res {
                MlxReply::MlxAlpha(a) => Ok(self.on_sample(a)),
                _ => Ok(None),
            },
            Err(e) => Err(DownstreamError::MlxError(e)),
        }
    }
}

/// Absolute mode maps the calibrated minimum to 0 and the maximum to 16383.
pub proof fn lemma_absolute_endpoints(min: u16, max: u16, last: u16)
    requires
        min < max,
    ensures
        absolute_scaled(min, min, max) == 0,
        absolute_scaled(max, min, max) == 16383,
        output_of(InputMode::Absolute, min, max, last, min) == Some(0i16),
        output_of(InputMode::Absolute, min, max, last, max) == Some(16383i16),
{
    let span = max - min;
    assert((span * 16383) / span == 16383) by (nonlinear_arith)
        requires
            span > 0,
    ;
}

/// While a parameter is unknown, a poll yields no event, changes no field but
/// the first unknown parameter (id, then minimum, then maximum).
pub proof fn lemma_bootstrap_order(s: MlxDownstream, received: Result<[u8; 8], ()>)
    requires
        !(s.id is Initialized && s.min is Initialized && s.max is Initialized),
    ensures
        !(driver_step(s, received).1 matches Ok(Some(_))),
        ({
            let t = driver_step(s, received).0;
            &&& t.mode == s.mode && t.last == s.last && t.button_state == s.button_state
            &&& t.lock_countdown == s.lock_countdown
            &&& !(s.id is Initialized) ==> t.min == s.min && t.max == s.max
            &&& (s.id is Initialized && !(s.min is Initialized)) ==> t.id == s.id && t.max == s.max
            &&& (s.id is Initialized && s.min is Initialized) ==> t.id == s.id && t.min == s.min
        }),
{
}

} // verus!
