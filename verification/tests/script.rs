use std::collections::VecDeque;

use quixel::control::{LoopControl, Size};
use quixel::event::{Event, Step};
use quixel::script::Cycle;
use quixel::window::{QuixelWindow, WindowCreationError};

type Ev = Event<u32, (i32, i32), i8, u8, &'static str>;
type Cy = Cycle<u32, (i32, i32), i8, u8, &'static str, &'static str>;
type St = Step<u32, (i32, i32), i8, u8, &'static str, &'static str>;

fn fresh(width: u32, height: u32) -> QuixelWindow {
    let made: Result<(QuixelWindow, ()), WindowCreationError<(), ()>> =
        QuixelWindow::new(Size { width, height }, Ok(()));
    made.expect("the surface was created").0
}

fn plain(event: Ev) -> Cy {
    Cycle { event, choice: None, present: Ok(()), reset_at: 0 }
}

fn run(window: QuixelWindow, now: u64, script: Vec<Cy>) -> (Vec<St>, QuixelWindow) {
    window.start(now, VecDeque::from(script))
}

#[test]
fn empty_script_only_starts() {
    let (steps, w) = run(fresh(800, 600), 9, vec![]);
    assert_eq!(steps, vec![Step::Start, Step::ResetClock]);
    assert_eq!(w.control(), LoopControl::Wait);
    assert_eq!(w.buffer_size(), Size { width: 800, height: 600 });
}

#[test]
fn start_callback_comes_once_and_first() {
    let (steps, _) = run(
        fresh(800, 600),
        0,
        vec![plain(Event::Focused(true)), plain(Event::RedrawRequested)],
    );
    assert_eq!(steps[0], Step::Start);
    assert_eq!(steps.iter().filter(|s| matches!(s, Step::Start)).count(), 1);
    assert_eq!(
        steps,
        vec![
            Step::Start,
            Step::ResetClock,
            Step::WindowFocus(true),
            Step::Render,
            Step::Present,
        ]
    );
}

#[test]
fn resize_in_script_reaches_next_render() {
    let (steps, w) = run(
        fresh(800, 600),
        0,
        vec![
            plain(Event::Resized(Size { width: 400, height: 300 })),
            plain(Event::RedrawRequested),
        ],
    );
    let s = Size { width: 400, height: 300 };
    assert_eq!(
        steps,
        vec![
            Step::Start,
            Step::ResetClock,
            Step::ResizeSurface(s),
            Step::ResizeBuffer(s),
            Step::RequestRedraw,
            Step::WindowResize(s),
            Step::Render,
            Step::Present,
        ]
    );
    assert_eq!(w.buffer_size(), s);
    assert_eq!(w.surface_size(), s);
}

#[test]
fn close_request_ends_the_loop_with_one_quit() {
    let (steps, w) = run(
        fresh(800, 600),
        0,
        vec![
            plain(Event::KeyboardInput(30)),
            plain(Event::CloseRequested),
            plain(Event::MainEventsCleared(50)),
            plain(Event::RedrawRequested),
            plain(Event::LoopDestroyed),
        ],
    );
    assert_eq!(steps, vec![Step::Start, Step::ResetClock, Step::Input(30), Step::Quit]);
    assert_eq!(steps.iter().filter(|s| matches!(s, Step::Quit)).count(), 1);
    assert!(w.exiting());
}

#[test]
fn destroyed_ends_the_loop_with_one_quit() {
    let (steps, w) = run(
        fresh(800, 600),
        0,
        vec![plain(Event::Destroyed), plain(Event::Focused(false))],
    );
    assert_eq!(steps, vec![Step::Start, Step::ResetClock, Step::Quit]);
    assert!(w.exiting());
}

#[test]
fn present_failure_with_exit_ends_the_loop() {
    let failing = Cycle {
        event: Event::RedrawRequested,
        choice: Some(LoopControl::Exit),
        present: Err("surface lost"),
        reset_at: 0,
    };
    let (steps, w) = run(
        fresh(800, 600),
        0,
        vec![
            failing,
            plain(Event::MainEventsCleared(10)),
            plain(Event::RedrawRequested),
        ],
    );
    assert_eq!(
        steps,
        vec![
            Step::Start,
            Step::ResetClock,
            Step::Render,
            Step::Present,
            Step::RenderError("surface lost"),
        ]
    );
    assert_eq!(steps.iter().filter(|s| matches!(s, Step::RenderError(_))).count(), 1);
    assert!(w.exiting());
}

#[test]
fn present_failure_without_exit_goes_on() {
    let failing = Cycle {
        event: Event::RedrawRequested,
        choice: None,
        present: Err("timeout"),
        reset_at: 0,
    };
    let (steps, w) = run(fresh(800, 600), 0, vec![failing, plain(Event::RedrawRequested)]);
    assert_eq!(
        steps,
        vec![
            Step::Start,
            Step::ResetClock,
            Step::Render,
            Step::Present,
            Step::RenderError("timeout"),
            Step::Render,
            Step::Present,
        ]
    );
    assert!(!w.exiting());
}

#[test]
fn choice_is_ignored_where_present_succeeds() {
    let cycle = Cycle {
        event: Event::RedrawRequested,
        choice: Some(LoopControl::Exit),
        present: Ok(()),
        reset_at: 0,
    };
    let (steps, w) = run(fresh(800, 600), 0, vec![cycle, plain(Event::CursorEntered)]);
    assert_eq!(
        steps,
        vec![
            Step::Start,
            Step::ResetClock,
            Step::Render,
            Step::Present,
            Step::CursorInWindowChange(true),
        ]
    );
    assert_eq!(w.control(), LoopControl::Wait);
}

#[test]
fn idle_cycles_measure_from_the_last_reset() {
    let idle = |now: u64, reset_at: u64| Cycle {
        event: Event::MainEventsCleared(now),
        choice: None,
        present: Ok(()),
        reset_at,
    };
    let (steps, _) = run(fresh(800, 600), 100, vec![idle(150, 160), idle(200, 230), idle(220, 240)]);
    let updates: Vec<u64> = steps
        .iter()
        .filter_map(|s| match s {
            Step::Update(dt) => Some(*dt),
            _ => None,
        })
        .collect();
    assert_eq!(updates, vec![50, 40, 0]);
    assert_eq!(steps.iter().filter(|s| matches!(s, Step::RequestRedraw)).count(), 3);
}

#[test]
fn exit_chosen_in_update_ends_the_loop() {
    let idle = Cycle {
        event: Event::MainEventsCleared(5),
        choice: Some(LoopControl::Exit),
        present: Ok(()),
        reset_at: 6,
    };
    let (steps, w) = run(fresh(800, 600), 0, vec![idle, plain(Event::RedrawRequested)]);
    assert_eq!(
        steps,
        vec![Step::Start, Step::ResetClock, Step::Update(5), Step::RequestRedraw, Step::ResetClock]
    );
    assert!(w.exiting());
}

#[test]
fn poll_chosen_in_update_lasts_until_next_event() {
    let idle = Cycle {
        event: Event::MainEventsCleared(5),
        choice: Some(LoopControl::Poll),
        present: Ok(()),
        reset_at: 6,
    };
    let mut w = fresh(800, 600);
    let steps: Vec<St> = w.turn(idle);
    assert_eq!(steps, vec![Step::Update(5), Step::RequestRedraw, Step::ResetClock]);
    assert_eq!(w.control(), LoopControl::Poll);
    let _: Vec<St> = w.turn(plain(Event::Misc("resumed")));
    assert_eq!(w.control(), LoopControl::Wait);
}

#[test]
fn started_after_exit_runs_no_turn() {
    let mut w = fresh(800, 600);
    let _: Vec<St> = w.handle::<u32, (i32, i32), i8, u8, &'static str, &'static str>(
        Event::CloseRequested,
    );
    let (steps, w) = run(w, 0, vec![plain(Event::Focused(true))]);
    assert_eq!(steps, vec![Step::Start, Step::ResetClock]);
    assert!(w.exiting());
}
