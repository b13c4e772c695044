use quixel::control::{LoopControl, Size};
use std::time::Instant;
use winit::dpi::PhysicalSize;
use winit::event_loop::ControlFlow;

#[test]
fn apply_writes_wait() {
    let mut flow = ControlFlow::Poll;
    LoopControl::Wait.apply(&mut flow);
    assert_eq!(flow, ControlFlow::Wait);
}

#[test]
fn apply_writes_poll() {
    let mut flow = ControlFlow::Wait;
    LoopControl::Poll.apply(&mut flow);
    assert_eq!(flow, ControlFlow::Poll);
}

#[test]
fn apply_writes_plain_exit() {
    let mut flow = ControlFlow::Wait;
    LoopControl::Exit.apply(&mut flow);
    assert_eq!(flow, ControlFlow::ExitWithCode(0));
}

#[test]
fn apply_overwrites_an_exit_code() {
    let mut flow = ControlFlow::ExitWithCode(3);
    LoopControl::Wait.apply(&mut flow);
    assert_eq!(flow, ControlFlow::Wait);
}

#[test]
fn observe_reads_each_variant() {
    assert_eq!(LoopControl::observe(&ControlFlow::Poll), LoopControl::Poll);
    assert_eq!(LoopControl::observe(&ControlFlow::Wait), LoopControl::Wait);
    assert_eq!(LoopControl::observe(&ControlFlow::WaitUntil(Instant::now())), LoopControl::Wait);
    assert_eq!(LoopControl::observe(&ControlFlow::ExitWithCode(0)), LoopControl::Exit);
    assert_eq!(LoopControl::observe(&ControlFlow::ExitWithCode(-42)), LoopControl::Exit);
}

#[test]
fn observe_after_apply_gives_the_signal_back() {
    for control in [LoopControl::Wait, LoopControl::Poll, LoopControl::Exit] {
        let mut flow = ControlFlow::Poll;
        control.apply(&mut flow);
        assert_eq!(LoopControl::observe(&flow), control);
    }
}

#[test]
fn size_from_physical_keeps_both_fields() {
    let s = Size::from_physical(PhysicalSize::new(400, 300));
    assert_eq!(s, Size { width: 400, height: 300 });
}

#[test]
fn size_to_physical_keeps_both_fields() {
    let p = Size { width: 1920, height: 1080 }.to_physical();
    assert_eq!(p.width, 1920);
    assert_eq!(p.height, 1080);
    assert_eq!(Size::from_physical(p), Size { width: 1920, height: 1080 });
}

#[test]
fn signal_waits_by_default() {
    assert_eq!(LoopControl::default(), LoopControl::Wait);
    let mut flow = ControlFlow::Poll;
    LoopControl::default().apply(&mut flow);
    assert_eq!(flow, ControlFlow::Wait);
}
