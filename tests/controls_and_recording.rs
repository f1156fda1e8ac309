use fdtd_wave::controls::{Controls, INITIAL_GAIN_EXP, INITIAL_SPEED_EXP};
use fdtd_wave::frame::PixelFrame;
use fdtd_wave::grid::{Grid, GridError};
use fdtd_wave::recorder::{record_all, Recorder};
use fdtd_wave::session::{Event, Session, StepPlan};

fn gain(c: &Controls) -> f32 {
    2f32.powi(c.gain_exp)
}

#[test]
fn controls_start_at_unit_gain_and_quarter_speed() {
    let c = Controls::new();
    assert_eq!(c.gain_exp, INITIAL_GAIN_EXP);
    assert_eq!(c.speed_exp, INITIAL_SPEED_EXP);
    assert_eq!(gain(&c), 1.0);
    assert_eq!(2f32.powi(c.speed_exp), 0.25);
}

#[test]
fn two_gain_increases_quadruple_the_gain() {
    let mut c = Controls::new();
    let before = gain(&c);
    c.increase_gain();
    c.increase_gain();
    assert_eq!(gain(&c), 4.0 * before);
    assert_eq!(c.speed_exp, INITIAL_SPEED_EXP);
}

#[test]
fn two_gain_decreases_quarter_the_gain() {
    let mut c = Controls { gain_exp: 3, speed_exp: 0 };
    let before = gain(&c);
    c.decrease_gain();
    c.decrease_gain();
    assert_eq!(gain(&c), 0.25 * before);
    assert_eq!(c.gain_exp, 1);
}

#[test]
fn speed_moves_independently_of_gain() {
    let mut c = Controls::new();
    c.increase_speed();
    assert_eq!(c.speed_exp, -1);
    c.decrease_speed();
    c.decrease_speed();
    assert_eq!(c.speed_exp, -3);
    assert_eq!(c.gain_exp, 0);
}

#[test]
fn exponents_stay_put_at_their_limits() {
    let mut c = Controls { gain_exp: i32::MAX, speed_exp: i32::MIN };
    c.increase_gain();
    c.decrease_speed();
    assert_eq!(c, Controls { gain_exp: i32::MAX, speed_exp: i32::MIN });
}

#[test]
fn recorder_keeps_one_sample_per_step_in_order() {
    let mut r = Recorder::new();
    assert_eq!(r.len(), 0);
    for step in 0..25i16 {
        r.record(step * 3 - 7);
    }
    assert_eq!(r.len(), 25);
    for step in 0..25i16 {
        assert_eq!(r.get(step as usize), Some(step * 3 - 7));
    }
    assert_eq!(r.get(25), None);
}

#[test]
fn recording_nothing_leaves_the_stream_empty() {
    let mut r = Recorder::new();
    record_all(&mut r, &Vec::new());
    assert!(r.samples().is_empty());
}

#[test]
fn record_all_appends_after_earlier_samples() {
    let mut r = Recorder::new();
    r.record(i16::MIN);
    record_all(&mut r, &vec![1, 2, i16::MAX]);
    assert_eq!(r.samples(), &vec![i16::MIN, 1, 2, i16::MAX]);
}

#[test]
fn frame_writes_four_bytes_at_pixel_offset() {
    let mut f = PixelFrame::new(3, 2, 4).unwrap();
    assert_eq!(f.pitch(), 12);
    assert_eq!(f.bytes().len(), 24);
    assert_eq!(f.set_pixel(1, 1, [9, 8, 7, 6]), Ok(()));
    let mut expected = vec![0u8; 24];
    expected[16..20].copy_from_slice(&[9, 8, 7, 6]);
    assert_eq!(f.bytes(), &expected);
}

#[test]
fn frame_refuses_pixels_outside() {
    let mut f = PixelFrame::new(3, 2, 4).unwrap();
    assert_eq!(f.set_pixel(3, 0, [1, 1, 1, 1]), Err(GridError::IndexOutOfBounds));
    assert_eq!(f.set_pixel(0, 2, [1, 1, 1, 1]), Err(GridError::IndexOutOfBounds));
    assert!(f.bytes().iter().all(|b| *b == 0));
}

#[test]
fn frame_with_narrow_pixels_refuses_the_last_pixel() {
    let mut f = PixelFrame::new(2, 2, 3).unwrap();
    assert_eq!(f.set_pixel(0, 0, [1, 2, 3, 4]), Ok(()));
    assert_eq!(&f.bytes()[..4], &[1, 2, 3, 4]);
    assert_eq!(f.set_pixel(1, 1, [1, 2, 3, 4]), Err(GridError::IndexOutOfBounds));
}

#[test]
fn frame_new_rejects_overflow() {
    assert!(PixelFrame::new(usize::MAX, 2, 4).is_none());
    assert!(PixelFrame::new(usize::MAX / 2, 1, 4).is_none());
    let f = PixelFrame::new(800, 600, 4).unwrap();
    assert_eq!((f.width(), f.height(), f.bytes_per_pixel()), (800, 600, 4));
}

#[test]
fn session_reports_every_tenth_step() {
    let mut s = Session::new();
    let mut reports = Vec::new();
    for _ in 0..25 {
        let plan = s.begin_step();
        if plan.report {
            reports.push(plan.step);
        }
    }
    assert_eq!(reports, vec![10, 20]);
    assert_eq!(s.step, 25);
}

#[test]
fn session_first_step_is_one() {
    let mut s = Session::new();
    assert_eq!(s.begin_step(), StepPlan { step: 1, report: false });
}

#[test]
fn session_events_adjust_controls_and_quit() {
    let g = Grid::new(10, 10).unwrap();
    let mut s = Session::new();
    assert!(s.handle(&g, Event::GainUp).is_empty());
    assert!(s.handle(&g, Event::GainUp).is_empty());
    s.handle(&g, Event::SpeedDown);
    assert_eq!(s.controls, Controls { gain_exp: 2, speed_exp: -3 });
    s.handle(&g, Event::GainDown);
    s.handle(&g, Event::SpeedUp);
    assert_eq!(s.controls, Controls { gain_exp: 1, speed_exp: -2 });
    assert!(s.running);
    s.handle(&g, Event::Quit);
    assert!(!s.running);
}

#[test]
fn pointer_paints_only_while_active() {
    let g = Grid::new(10, 10).unwrap();
    let mut s = Session::new();
    assert!(s.handle(&g, Event::Pointer { x: 5, y: 5, paint: false }).is_empty());
    assert_eq!(
        s.handle(&g, Event::Pointer { x: 5, y: 5, paint: true }),
        vec![44, 45, 46, 54, 55, 56, 64, 65, 66]
    );
    assert_eq!(s.handle(&g, Event::Pointer { x: 0, y: 9, paint: true }), vec![80, 81, 90, 91]);
    assert!(s.running);
}
