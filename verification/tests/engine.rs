//! Engine behavior: hot swap, per-frame re-execution, and the host surface.

use whimsy::bridge::EditQueue;
use whimsy::draw::DrawCommand;
use whimsy::fx::Fx;
use whimsy::lang::ErrorKind;
use whimsy::lang::FillArg;
use whimsy::lang::HostCall;
use whimsy::lang::HostError;
use whimsy::lang::Lang;

fn fxi(n: i32) -> Fx {
    Fx::from_int(n)
}

fn to_f64(x: Fx) -> f64 {
    x.bits as f64 / 4294967296.0
}

/// A little program: set-fill("red") then emit-rect(0, 0, 10, 10).
fn red_rect_program() -> Vec<HostCall> {
    vec![
        HostCall::SetFill(FillArg::Name("red".to_string())),
        HostCall::EmitRect(fxi(0), fxi(0), fxi(10), fxi(10)),
    ]
}

#[test]
fn empty_program_emits_nothing() {
    let mut lang: Lang<u64> = Lang::new(1);
    lang.set_global("time", fxi(0));
    let calls: Vec<HostCall> = Vec::new();
    assert_eq!(lang.run_ast(&calls), Ok(()));
    assert!(lang.draw_commands().is_empty());
}

#[test]
fn rerun_at_same_time_is_identical() {
    let mut lang: Lang<u64> = Lang::new(1);
    lang.set_global("time", fxi(250));
    let program = red_rect_program();
    assert_eq!(lang.run_ast(&program), Ok(()));
    let first = lang.draw_commands();
    assert_eq!(lang.run_ast(&program), Ok(()));
    let second = lang.draw_commands();
    assert_eq!(first, second);
}

#[test]
fn failed_update_keeps_old_program_output() {
    let mut lang: Lang<u64> = Lang::new(1);
    lang.set_global("time", fxi(0));
    let program = red_rect_program();
    assert_eq!(lang.run_ast(&program), Ok(()));
    let before = lang.draw_commands();

    let err = lang.try_update_ast(Err("SyntaxError: invalid syntax".to_string()));
    assert_eq!(err, Err("SyntaxError: invalid syntax".to_string()));
    assert!(!err.unwrap_err().is_empty());
    assert_eq!(*lang.active_ast(), 1);

    assert_eq!(lang.run_ast(&program), Ok(()));
    let after = lang.draw_commands();
    assert_eq!(before, after);
}

#[test]
fn successful_update_swaps_program() {
    let mut lang: Lang<u64> = Lang::new(1);
    assert_eq!(lang.try_update_ast(Ok(2)), Ok(()));
    assert_eq!(*lang.active_ast(), 2);
}

#[test]
fn update_burst_keeps_last_success_and_reports_each_failure() {
    let mut lang: Lang<u64> = Lang::new(1);
    let outcomes: Vec<Result<u64, String>> = vec![
        Err("a".to_string()),
        Ok(5),
        Err("b".to_string()),
        Ok(9),
        Err("c".to_string()),
    ];
    let errs = lang.process_updates(outcomes);
    assert_eq!(errs, vec!["a".to_string(), "b".to_string(), "c".to_string()]);
    assert_eq!(*lang.active_ast(), 9);
}

#[test]
fn update_burst_with_no_success_keeps_old_program() {
    let mut lang: Lang<u64> = Lang::new(4);
    let outcomes: Vec<Result<u64, String>> = vec![Err("x".to_string()), Err("y".to_string())];
    let errs = lang.process_updates(outcomes);
    assert_eq!(errs.len(), 2);
    assert_eq!(*lang.active_ast(), 4);
}

#[test]
fn fill_with_three_channels_is_a_value_error_and_queues_nothing() {
    let mut lang: Lang<u64> = Lang::new(1);
    let call = HostCall::SetFill(FillArg::Channels(vec![fxi(1), fxi(2), fxi(3)]));
    let r = lang.dispatch(&call);
    assert_eq!(r, Err(HostError::ChannelCount(3)));
    assert_eq!(HostError::ChannelCount(3).kind(), ErrorKind::Value);
    assert!(lang.draw_commands().is_empty());
}

#[test]
fn fill_with_four_channels_queues_that_color() {
    let mut lang: Lang<u64> = Lang::new(1);
    let call = HostCall::SetFill(FillArg::Channels(vec![fxi(1), fxi(0), fxi(0), fxi(1)]));
    assert_eq!(lang.dispatch(&call), Ok(None));
    let cmds = lang.draw_commands();
    assert_eq!(cmds.len(), 1);
    match cmds[0] {
        DrawCommand::Fill(c) => {
            assert_eq!(c.r, fxi(1));
            assert_eq!(c.g, fxi(0));
            assert_eq!(c.b, fxi(0));
            assert_eq!(c.a, fxi(1));
        }
        _ => panic!("expected a fill command"),
    }
}

#[test]
fn unknown_color_is_a_lookup_error() {
    let mut lang: Lang<u64> = Lang::new(1);
    let call = HostCall::SetFill(FillArg::Name("tartan".to_string()));
    let r = lang.dispatch(&call);
    assert_eq!(r, Err(HostError::UnknownColor("tartan".to_string())));
    assert_eq!(HostError::UnknownColor("tartan".to_string()).kind(), ErrorKind::Lookup);
    assert!(lang.draw_commands().is_empty());
}

#[test]
fn error_midway_keeps_commands_queued_before_it() {
    let mut lang: Lang<u64> = Lang::new(1);
    let program = vec![
        HostCall::PushFrame,
        HostCall::SetFill(FillArg::Name("nosuch".to_string())),
        HostCall::PopFrame,
    ];
    let r = lang.run_ast(&program);
    assert_eq!(r, Err(HostError::UnknownColor("nosuch".to_string())));
    // The push before the failure is still there; the pop after it is not.
    assert_eq!(lang.draw_commands(), vec![DrawCommand::PushTransform]);
}

#[test]
fn oscillate_at_half_period_is_one() {
    let mut lang: Lang<u64> = Lang::new(1);
    lang.set_global("time", fxi(500));
    let r = lang.dispatch(&HostCall::Oscillate(fxi(1000)));
    match r {
        Ok(Some(v)) => {
            let expected = (500.0_f64 * std::f64::consts::PI / 1000.0).sin().abs();
            assert!((to_f64(v) - expected).abs() < 1e-3);
            assert!((to_f64(v) - 1.0).abs() < 1e-3);
        }
        other => panic!("unexpected oscillate outcome: {:?}", other),
    }
}

#[test]
fn oscillate_at_quarter_period() {
    let mut lang: Lang<u64> = Lang::new(1);
    lang.set_global("time", fxi(250));
    let r = lang.dispatch(&HostCall::Oscillate(fxi(1000)));
    match r {
        Ok(Some(v)) => {
            let expected = (250.0_f64 * std::f64::consts::PI / 1000.0).sin().abs();
            assert!((to_f64(v) - expected).abs() < 1e-3);
        }
        other => panic!("unexpected oscillate outcome: {:?}", other),
    }
}

#[test]
fn oscillate_at_time_zero_is_zero() {
    let mut lang: Lang<u64> = Lang::new(1);
    lang.set_global("time", fxi(0));
    match lang.dispatch(&HostCall::Oscillate(fxi(1000))) {
        Ok(Some(v)) => assert!(to_f64(v).abs() < 1e-3),
        other => panic!("unexpected oscillate outcome: {:?}", other),
    }
}

#[test]
fn oscillate_without_time_is_a_runtime_error() {
    let mut lang: Lang<u64> = Lang::new(1);
    let r = lang.dispatch(&HostCall::Oscillate(fxi(1000)));
    assert_eq!(r, Err(HostError::TimeNotSet));
    assert_eq!(HostError::TimeNotSet.kind(), ErrorKind::Runtime);
}

#[test]
fn oscillate_with_zero_period_is_a_value_error() {
    let mut lang: Lang<u64> = Lang::new(1);
    lang.set_global("time", fxi(500));
    let r = lang.dispatch(&HostCall::Oscillate(fxi(0)));
    assert_eq!(r, Err(HostError::ZeroPeriod));
    assert_eq!(HostError::ZeroPeriod.kind(), ErrorKind::Value);
}

#[test]
fn time_injection_overwrites_previous_frame() {
    let mut lang: Lang<u64> = Lang::new(1);
    lang.set_global("time", fxi(0));
    lang.set_global("time", fxi(500));
    match lang.dispatch(&HostCall::Oscillate(fxi(1000))) {
        Ok(Some(v)) => assert!((to_f64(v) - 1.0).abs() < 1e-3),
        other => panic!("unexpected oscillate outcome: {:?}", other),
    }
}

#[test]
fn queue_is_empty_after_drain() {
    let mut lang: Lang<u64> = Lang::new(1);
    let program = red_rect_program();
    assert_eq!(lang.run_ast(&program), Ok(()));
    assert!(!lang.draw_commands().is_empty());
    assert!(lang.draw_commands().is_empty());
}

#[test]
fn bridge_drains_in_arrival_order() {
    let mut q = EditQueue::new();
    assert!(!q.is_pending());
    q.submit("one".to_string());
    q.submit("two".to_string());
    q.submit("three".to_string());
    assert!(q.is_pending());
    let drained = q.drain();
    assert_eq!(drained, vec!["one".to_string(), "two".to_string(), "three".to_string()]);
    assert!(!q.is_pending());
    assert!(q.drain().is_empty());
}
