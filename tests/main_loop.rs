use getting_started::main_loop::{MainLoop, Registration};
use getting_started::motion::FrameDriver;

#[test]
fn trampoline_before_start_does_nothing() {
    let mut l: MainLoop<FrameDriver> = MainLoop::new();
    assert!(!l.is_started());
    for _ in 0..3 {
        assert!(l.invoke_if_present().is_none());
    }
    assert!(!l.is_started());
}

#[test]
fn start_registers_and_returns_at_once() {
    let mut l = MainLoop::new();
    let reg = l.start(FrameDriver::new(640, 480), 30, false);
    assert_eq!(reg, Registration { fps: 30, simulate_infinite_loop: false });
    assert!(l.is_started());
}

#[test]
fn start_passes_the_configuration_through() {
    let mut l = MainLoop::new();
    let reg = l.start(FrameDriver::new(1, 1), 60, true);
    assert_eq!(reg.fps, 60);
    assert!(reg.simulate_infinite_loop);
}

#[test]
fn trampoline_runs_the_registered_callback() {
    let mut l = MainLoop::new();
    l.start(FrameDriver::new(640, 480), 30, false);
    let first = l.invoke_if_present().unwrap();
    let second = l.invoke_if_present().unwrap();
    assert_eq!(first.transform.rotation, 2);
    assert_eq!(second.transform.rotation, 4);
}

#[test]
fn last_start_wins() {
    let mut l = MainLoop::new();
    l.start(FrameDriver::new(640, 480), 30, false);
    l.invoke_if_present();
    l.start(FrameDriver::new(100, 50), 30, false);
    for k in 1..=5u64 {
        let f = l.invoke_if_present().unwrap();
        assert_eq!((f.width, f.height), (100, 50));
        assert_eq!(f.transform.rotation, 2 * k);
    }
}

#[test]
fn end_to_end_half_second() {
    let mut l = MainLoop::new();
    let reg = l.start(FrameDriver::new(640, 480), 30, false);
    assert_eq!(reg, Registration { fps: 30, simulate_infinite_loop: false });
    let mut last = None;
    for _ in 0..15 {
        last = l.invoke_if_present();
    }
    let f = last.unwrap();
    assert_eq!(f.transform.rotation, 30);
    assert_eq!((f.transform.center_x, f.transform.center_y), (320, 240));
}

#[test]
fn can_invoke_follows_the_callback() {
    let mut l: MainLoop<FrameDriver> = MainLoop::new();
    assert!(l.can_invoke());
    let mut d = FrameDriver::new(640, 480);
    d.app.rotation = u64::MAX - 1;
    l.start(d, 30, false);
    assert!(!l.can_invoke());
    let mut d = FrameDriver::new(640, 480);
    d.app.rotation = u64::MAX - 2;
    l.start(d, 30, false);
    assert!(l.can_invoke());
    assert_eq!(l.invoke_if_present().unwrap().transform.rotation, u64::MAX);
    assert!(!l.can_invoke());
}
