use led_matrix_daemon::dispatch::{DispatchStep, Dispatcher};
use led_matrix_daemon::gray_image::GrayImage;
use led_matrix_daemon::port::DisplayError;
use led_matrix_daemon::render::{
    finish, queue_even_odd, side_result, RenderError, RenderTask, Side, SideFailure, SideOutcome,
    SideResult,
};
use led_matrix_daemon::transmission::{Action, Failure, TransportError};

fn image(fill: u8) -> GrayImage {
    GrayImage::new(9, 34, vec![fill; 9 * 34]).unwrap()
}

fn fill_of(img: &GrayImage) -> u8 {
    img.get_pixel(0, 0)
}

fn outcome(side: Side, result: SideResult) -> SideOutcome {
    SideOutcome { side, result }
}

#[test]
fn both_task_with_only_left_configured_fails_whole() {
    match RenderTask::Both(image(1), image(2)).render(true, false) {
        Err(e) => assert_eq!(e, RenderError::RightNotConfigured),
        Ok(_) => panic!("a both-sides task ran with one side"),
    }
    match RenderTask::Both(image(1), image(2)).render(false, true) {
        Err(e) => assert_eq!(e, RenderError::LeftNotConfigured),
        Ok(_) => panic!("a both-sides task ran with one side"),
    }
    match RenderTask::Both(image(1), image(2)).render(false, false) {
        Err(e) => assert_eq!(e, RenderError::BothNotConfigured),
        Ok(_) => panic!("a both-sides task ran with no side"),
    }
}

#[test]
fn single_side_tasks_need_their_side() {
    assert_eq!(
        RenderTask::Left(image(1)).render(false, true).err(),
        Some(RenderError::LeftNotConfigured)
    );
    assert_eq!(
        RenderTask::Right(image(1)).render(true, false).err(),
        Some(RenderError::RightNotConfigured)
    );
    let jobs = RenderTask::Right(image(7)).render(false, true).unwrap();
    assert_eq!(jobs.len(), 1);
    assert_eq!(jobs[0].side, Side::Right);
    assert_eq!(fill_of(&jobs[0].image), 7);
}

#[test]
fn both_task_plans_left_then_right() {
    let jobs = RenderTask::Both(image(3), image(4)).render(true, true).unwrap();
    assert_eq!(jobs.len(), 2);
    assert_eq!((jobs[0].side, fill_of(&jobs[0].image)), (Side::Left, 3));
    assert_eq!((jobs[1].side, fill_of(&jobs[1].image)), (Side::Right, 4));
}

#[test]
fn first_failure_in_plan_order_wins() {
    let ok = vec![
        outcome(Side::Left, SideResult::Rendered),
        outcome(Side::Right, SideResult::Rendered),
    ];
    assert_eq!(finish(&ok), Ok(()));
    let join = SideFailure::Join;
    let io = SideFailure::Transport(TransportError::Write(Failure::Io));
    let both_fail = vec![
        outcome(Side::Left, SideResult::Failed(join)),
        outcome(Side::Right, SideResult::Failed(io)),
    ];
    assert_eq!(finish(&both_fail), Err(RenderError::Side(Side::Left, join)));
    let right_fails = vec![
        outcome(Side::Left, SideResult::Rendered),
        outcome(Side::Right, SideResult::Failed(io)),
    ];
    assert_eq!(finish(&right_fails), Err(RenderError::Side(Side::Right, io)));
    assert_eq!(finish(&vec![]), Ok(()));
}

#[test]
fn side_result_from_last_action() {
    assert_eq!(side_result(Action::Done), SideResult::Rendered);
    assert_eq!(
        side_result(Action::Failed(TransportError::Open)),
        SideResult::Failed(SideFailure::Transport(TransportError::Open))
    );
}

#[test]
fn images_pair_up_odd_one_left() {
    let tasks = queue_even_odd(vec![image(1), image(2), image(3), image(4), image(5)]);
    assert_eq!(tasks.len(), 3);
    match &tasks[0] {
        RenderTask::Both(l, r) => assert_eq!((fill_of(l), fill_of(r)), (1, 2)),
        _ => panic!("expected a both-sides task"),
    }
    match &tasks[1] {
        RenderTask::Both(l, r) => assert_eq!((fill_of(l), fill_of(r)), (3, 4)),
        _ => panic!("expected a both-sides task"),
    }
    match &tasks[2] {
        RenderTask::Left(l) => assert_eq!(fill_of(l), 5),
        _ => panic!("expected a left task"),
    }
    assert!(queue_even_odd(vec![]).is_empty());
}

#[test]
fn tasks_render_one_at_a_time_in_order() {
    let mut d = Dispatcher::new(true, true);
    assert!(!d.busy());
    let first = d.on_received(RenderTask::Both(image(1), image(2)));
    match first {
        DispatchStep::Start(jobs) => assert_eq!(jobs.len(), 2),
        _ => panic!("expected the sides to start"),
    }
    assert!(d.busy());
    // The right side finishes first; the task stays in flight until the left does.
    let step = d.on_side_finished(outcome(Side::Right, SideResult::Rendered));
    assert!(matches!(step, DispatchStep::Await));
    assert!(d.busy());
    // A repeated report of the same side is ignored.
    let step = d.on_side_finished(outcome(Side::Right, SideResult::Rendered));
    assert!(matches!(step, DispatchStep::Await));
    let step = d.on_side_finished(outcome(Side::Left, SideResult::Rendered));
    assert!(matches!(step, DispatchStep::Report(Ok(()))));
    assert!(!d.busy());
    // Only now is the second task taken.
    let second = d.on_received(RenderTask::Right(image(3)));
    assert!(matches!(second, DispatchStep::Start(_)));
    let step = d.on_side_finished(outcome(
        Side::Right,
        SideResult::Failed(SideFailure::Display(DisplayError::WrongSize { width: 1, height: 1 })),
    ));
    match step {
        DispatchStep::Report(Err(RenderError::Side(Side::Right, _))) => {}
        _ => panic!("expected the right side's failure"),
    }
    assert!(!d.busy());
}

#[test]
fn task_that_cannot_run_is_reported_at_once() {
    let mut d = Dispatcher::new(true, false);
    let step = d.on_received(RenderTask::Both(image(1), image(2)));
    assert!(matches!(
        step,
        DispatchStep::Report(Err(RenderError::RightNotConfigured))
    ));
    assert!(!d.busy());
    let step = d.on_side_finished(outcome(Side::Left, SideResult::Rendered));
    assert!(matches!(step, DispatchStep::Await));
}

#[test]
fn join_failure_is_distinct() {
    let mut d = Dispatcher::new(true, true);
    d.on_received(RenderTask::Left(image(9)));
    let step = d.on_side_finished(outcome(Side::Left, SideResult::Failed(SideFailure::Join)));
    assert!(matches!(
        step,
        DispatchStep::Report(Err(RenderError::Side(Side::Left, SideFailure::Join)))
    ));
}

#[test]
fn bounded_queue_of_one_holds_back_second_task() {
    let (sender, receiver) = kanal::bounded::<RenderTask>(1);
    assert_eq!(sender.try_send(RenderTask::Left(image(1))).unwrap(), true);
    assert_eq!(sender.len(), 1);
    assert_eq!(sender.try_send(RenderTask::Left(image(2))).unwrap(), false);
    match receiver.recv().unwrap() {
        RenderTask::Left(img) => assert_eq!(fill_of(&img), 1),
        _ => panic!("expected the first task"),
    }
    assert_eq!(sender.try_send(RenderTask::Left(image(2))).unwrap(), true);
    match receiver.recv().unwrap() {
        RenderTask::Left(img) => assert_eq!(fill_of(&img), 2),
        _ => panic!("expected the second task"),
    }
    assert_eq!(sender.len(), 0);
}
