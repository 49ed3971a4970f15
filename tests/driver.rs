use negicon::mlx90363::Mlx90363;
use negicon::mlx_downstream::{ButtonState, InputMode, MlxDownstream, ParameterState};
use negicon::negicon_event::{NegiconEvent, NegiconEventType};
use negicon::spi_downstream::DownstreamError;
use negicon::spi_protocol::stamp;

fn ready() -> MlxDownstream {
    MlxDownstream {
        id: ParameterState::Initialized(10),
        min: ParameterState::Initialized(0),
        max: ParameterState::Initialized(16383),
        mode: InputMode::Relative,
        last: 0,
        button_state: ButtonState::Up,
        lock_countdown: 0,
    }
}

fn mem_answer(data0: u16, data1: u16) -> [u8; 8] {
    stamp([data0 as u8, (data0 >> 8) as u8, data1 as u8, (data1 >> 8) as u8, 0, 0, 0xC2, 0])
}

fn alpha(angle: u16, vg: u8) -> [u8; 8] {
    stamp([angle as u8, (angle >> 8) as u8 | 0x80, 0, 0, vg, 0, 1, 0])
}

fn idle() -> [u8; 8] {
    stamp([0, 0, 0, 0, 0, 0, 0xFE, 0])
}

#[test]
fn relative_mode_wraps_across_boundary() {
    let mut d = MlxDownstream { last: 16000, ..ready() };
    assert_eq!(d.calculate_output(100), Some(484));
    assert_eq!(d.last, 100);
}

#[test]
fn relative_mode_wraps_backwards() {
    let mut d = MlxDownstream { last: 100, ..ready() };
    assert_eq!(d.calculate_output(16000), Some(-484));
}

#[test]
fn relative_mode_plain_delta() {
    let mut d = MlxDownstream { last: 1000, ..ready() };
    assert_eq!(d.calculate_output(1100), Some(100));
    assert_eq!(d.calculate_output(1000), Some(-100));
}

#[test]
fn absolute_mode_remap() {
    let mut d = MlxDownstream { mode: InputMode::Absolute, ..ready() };
    assert_eq!(d.calculate_output(0), Some(0));
    assert_eq!(d.calculate_output(16383), Some(16383));
    assert_eq!(d.calculate_output(8192), Some(8192));
    assert_eq!(d.last, 8192);
}

#[test]
fn absolute_mode_truncates() {
    let mut d = MlxDownstream {
        mode: InputMode::Absolute,
        min: ParameterState::Initialized(1000),
        max: ParameterState::Initialized(4000),
        ..ready()
    };
    assert_eq!(d.calculate_output(1001), Some(5));
    assert_eq!(d.calculate_output(999), Some(-5));
}

#[test]
fn absolute_mode_empty_range_gives_nothing() {
    let mut d = MlxDownstream {
        mode: InputMode::Absolute,
        min: ParameterState::Initialized(500),
        max: ParameterState::Initialized(500),
        ..ready()
    };
    assert_eq!(d.calculate_output(700), None);
}

#[test]
fn deadzone_suppresses_small_moves() {
    let d = MlxDownstream { last: 1000, ..ready() };
    assert!(!d.check_deadzone(1050));
    assert!(d.check_deadzone(1100));
    assert!(!d.check_deadzone(1064));
    assert!(d.check_deadzone(1065));
    assert!(d.check_deadzone(900));
}

#[test]
fn button_debounce_press_then_release() {
    let mut d = ready();
    let mut events = Vec::new();
    if let Some(e) = d.check_button(40) {
        events.push(e);
    }
    assert_eq!(d.lock_countdown, 0);
    if let Some(e) = d.check_button(30) {
        events.push(e);
    }
    assert_eq!(d.lock_countdown, -1);
    assert_eq!(d.button_state, ButtonState::Down);
    if let Some(e) = d.check_button(40) {
        events.push(e);
    }
    assert_eq!(d.lock_countdown, 100);
    assert_eq!(d.button_state, ButtonState::Up);
    assert_eq!(
        events,
        vec![
            NegiconEvent::new(NegiconEventType::Input, 11, 1, 0, 0),
            NegiconEvent::new(NegiconEventType::Input, 11, -1, 0, 0),
        ]
    );
}

#[test]
fn button_threshold_itself_changes_nothing() {
    let mut d = ready();
    assert_eq!(d.check_button(35), None);
    d.button_state = ButtonState::Down;
    assert_eq!(d.check_button(35), None);
}

#[test]
fn bootstrap_resolves_id_min_max_in_order() {
    let mut d = MlxDownstream::new();
    assert_eq!(d.next_request(), Mlx90363::read_memory(0x1018, 0x1018));
    assert_eq!(d.poll(Ok(idle())), Ok(None));
    assert_eq!(d.id, ParameterState::Requested(0));
    assert_eq!(d.next_request(), Mlx90363::read_memory(0x1018, 0x1018));
    assert_eq!(d.poll(Ok(mem_answer(0, 7))), Ok(None));
    assert_eq!(d.id, ParameterState::Initialized(7));
    assert_eq!(d.min, ParameterState::Uninitialized(0));

    assert_eq!(d.next_request(), Mlx90363::read_memory(0x103A, 0x103A));
    assert_eq!(d.poll(Ok(idle())), Ok(None));
    assert_eq!(d.poll(Ok(mem_answer(0, 100))), Ok(None));
    assert_eq!(d.min, ParameterState::Initialized(100));
    assert_eq!(d.max, ParameterState::Uninitialized(0));

    assert_eq!(d.next_request(), Mlx90363::read_memory(0x103C, 0x103C));
    assert_eq!(d.poll(Ok(idle())), Ok(None));
    assert_eq!(d.poll(Ok(mem_answer(0, 16000))), Ok(None));
    assert_eq!(d.max, ParameterState::Initialized(16000));
    assert_eq!(d.next_request(), Mlx90363::get_alpha());
}

#[test]
fn bootstrap_unexpected_reply_is_an_error() {
    let mut d = MlxDownstream::new();
    assert_eq!(d.poll(Ok(idle())), Ok(None));
    assert!(matches!(d.poll(Ok(idle())), Err(DownstreamError::UnexpectedReply(_))));
}

#[test]
fn bootstrap_transport_failure_is_an_error() {
    let mut d = MlxDownstream::new();
    assert!(matches!(d.poll(Err(())), Err(DownstreamError::MlxError(_))));
}

#[test]
fn sampling_after_release_window() {
    let mut d = MlxDownstream { lock_countdown: 2, last: 500, ..ready() };
    assert_eq!(d.poll(Ok(alpha(1000, 40))), Ok(None));
    assert_eq!(d.lock_countdown, 1);
    assert_eq!(d.poll(Ok(alpha(1200, 40))), Ok(None));
    assert_eq!(d.lock_countdown, 0);
    assert_eq!(d.last, 1200);
    assert_eq!(d.poll(Ok(alpha(1230, 40))), Ok(None));
    assert_eq!(
        d.poll(Ok(alpha(1300, 40))),
        Ok(Some(NegiconEvent::new(NegiconEventType::Input, 10, 100, 0, 0)))
    );
    assert_eq!(d.last, 1300);
}

#[test]
fn press_latches_movement_until_release() {
    let mut d = MlxDownstream { last: 500, ..ready() };
    assert_eq!(
        d.poll(Ok(alpha(500, 20))),
        Ok(Some(NegiconEvent::new(NegiconEventType::Input, 11, 1, 0, 0)))
    );
    assert_eq!(d.poll(Ok(alpha(3000, 20))), Ok(None));
    assert_eq!(d.lock_countdown, -1);
    assert_eq!(d.last, 3000);
    assert_eq!(
        d.poll(Ok(alpha(3000, 50))),
        Ok(Some(NegiconEvent::new(NegiconEventType::Input, 11, -1, 0, 0)))
    );
    assert_eq!(d.lock_countdown, 100);
}

#[test]
fn with_mode_selects_absolute() {
    let d = MlxDownstream::with_mode(InputMode::Absolute);
    assert_eq!(d.mode, InputMode::Absolute);
    assert_eq!(d.id, ParameterState::Uninitialized(0));
    assert_eq!(d.lock_countdown, 100);
}
