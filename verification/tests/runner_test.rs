//! The course of a test and the line that shows it.

use tcpkali2::command::{validated_config, Args, Config};
use tcpkali2::printer::{
    can_read, live_figures, Printer, PrinterAction, PrinterEvent, PrinterPhase,
};
use tcpkali2::report::{live_line, LiveFigures};
use tcpkali2::runner::{
    run_notice_text, start_delay, RunAction, RunEvent, RunNotice, RunStep, Runner, Stage,
};
use tcpkali2::stats::{QpsSample, Stats};
use tcpkali2::time::Duration;

fn config(warmup: Duration, quiet: bool) -> Config {
    let args = Args {
        duration: Duration::from_millis(15_900),
        warmup,
        message_size: 1,
        quiet,
        nagle: false,
        pipeline: false,
        connections: 1,
        connect_rate: 100,
        connect_timeout: Duration::from_secs(1),
        channel_lifetime: None,
        unescape: false,
        first_message: None,
        first_message_file: None,
        message: None,
        message_file: None,
        message_rate: None,
        websocket: false,
    };
    validated_config(&args, None, None).unwrap()
}

#[test]
fn connections_start_at_the_connection_rate() {
    assert_eq!(start_delay(0, 5), None);
    assert_eq!(start_delay(1, 0), Some(Duration::from_secs(0)));
    assert_eq!(start_delay(1, 1), Some(Duration::from_secs(1)));
    assert_eq!(start_delay(100, 7), Some(Duration::from_millis(70)));
    assert_eq!(start_delay(100, 107), Some(Duration::from_millis(1070)));
    assert_eq!(start_delay(3, 1), Some(Duration::new(0, 333_333_334)));
    assert_eq!(start_delay(3, 3), Some(Duration::from_secs(1)));
    assert_eq!(start_delay(1, u64::MAX), Some(Duration::from_secs(u64::MAX)));
    assert_eq!(start_delay(0x1_0000_0000, 0x1_0000_0000), Some(Duration::from_secs(1)));
    assert_eq!(start_delay(u64::MAX, 1), Some(Duration::new(0, 1)));
}

#[test]
fn no_second_sees_more_connections_than_the_rate() {
    for rate in [1u64, 3, 7, 100] {
        for index in 0..300u64 {
            let start = start_delay(rate, index).unwrap().as_nanos();
            assert!(start * rate as u128 >= index as u128 * 1_000_000_000);
            let later = start_delay(rate, index + rate).unwrap().as_nanos();
            assert_eq!(later, start + 1_000_000_000);
        }
    }
}

#[test]
fn a_test_warms_up_and_is_measured() {
    let mut stats = Stats::new(0);
    let c = config(Duration::from_millis(5_500), false);
    let (mut runner, step) = Runner::start(&c, &mut stats, 1);
    assert_eq!(
        step,
        RunStep {
            notice: Some(RunNotice::WarmupStarts(5)),
            action: RunAction::WarmUp(Duration::from_millis(5_500)),
        }
    );
    assert!(stats.is_warmup());
    assert!(runner.can_take(RunEvent::Waited));
    assert!(!runner.can_take(RunEvent::NoTaskLeft));
    let step = runner.step(&mut stats, RunEvent::Waited, 2);
    assert_eq!(
        step,
        RunStep {
            notice: Some(RunNotice::TestStarts(15)),
            action: RunAction::Measure(Duration::from_millis(15_900)),
        }
    );
    assert!(!stats.is_warmup());
    assert_eq!(stats.last_print_time, 2);
    assert!(!stats.is_shutting_down());
    let step = runner.step(&mut stats, RunEvent::Waited, 3);
    assert_eq!(step, RunStep { notice: None, action: RunAction::Shutdown });
    assert!(stats.is_shutting_down());
    assert!(!runner.can_take(RunEvent::Waited));
    let step = runner.step(&mut stats, RunEvent::TaskEnded, 4);
    assert_eq!(step, RunStep { notice: None, action: RunAction::AwaitTask });
    let step = runner.step(&mut stats, RunEvent::TaskFailed, 4);
    assert_eq!(
        step,
        RunStep { notice: Some(RunNotice::TaskFailed), action: RunAction::AwaitTask }
    );
    let step = runner.step(&mut stats, RunEvent::TaskLost, 4);
    assert_eq!(step.notice, Some(RunNotice::TaskLost));
    let step = runner.step(&mut stats, RunEvent::NoTaskLeft, 4);
    assert_eq!(step, RunStep { notice: None, action: RunAction::Report });
    assert_eq!(runner.stage, Stage::Over);
    assert!(!runner.can_take(RunEvent::NoTaskLeft));
}

#[test]
fn a_test_without_warmup() {
    let mut stats = Stats::new(0);
    let c = config(Duration::from_secs(0), false);
    let (runner, step) = Runner::start(&c, &mut stats, 8);
    assert_eq!(step.notice, None);
    assert_eq!(step.action, RunAction::Measure(Duration::from_millis(15_900)));
    assert_eq!(runner.stage, Stage::Measuring);
    assert!(!stats.is_warmup());
    assert_eq!(stats.last_print_time, 8);
}

#[test]
fn a_quiet_test_says_nothing() {
    let mut stats = Stats::new(0);
    let c = config(Duration::from_secs(1), true);
    let (mut runner, step) = Runner::start(&c, &mut stats, 0);
    assert_eq!(step.notice, None);
    assert_eq!(runner.step(&mut stats, RunEvent::Waited, 0).notice, None);
    assert_eq!(runner.step(&mut stats, RunEvent::Waited, 0).notice, None);
    assert_eq!(runner.step(&mut stats, RunEvent::TaskFailed, 0).notice, None);
    assert_eq!(runner.step(&mut stats, RunEvent::TaskLost, 0).notice, None);
}

#[test]
fn texts_of_the_course() {
    assert_eq!(run_notice_text(RunNotice::WarmupStarts(5), ""), "Warming up for 5 seconds...");
    assert_eq!(
        run_notice_text(RunNotice::TestStarts(15), ""),
        "Warmup completed. Starting benchmark for 15 seconds..."
    );
    assert_eq!(run_notice_text(RunNotice::TaskFailed, "x"), "Task error: x");
    assert_eq!(run_notice_text(RunNotice::TaskLost, "y"), "Task join error: y");
}

#[test]
fn the_printer_waits_and_ticks() {
    let mut stats = Stats::new(0);
    let (mut printer, action) = Printer::start(&stats);
    assert_eq!(action, PrinterAction::Sleep(100));
    assert_eq!(printer.step(&mut stats, PrinterEvent::Woke, 1), PrinterAction::Sleep(100));
    stats.end_warmup(2);
    assert_eq!(printer.step(&mut stats, PrinterEvent::Woke, 2), PrinterAction::Sleep(1000));
    stats.total_requests = 40;
    assert_eq!(
        printer.step(&mut stats, PrinterEvent::Woke, 1002),
        PrinterAction::StartTicking(1000)
    );
    assert_eq!(stats.last_print_count, 40);
    assert_eq!(stats.last_print_time, 1002);
    stats.total_requests = 90;
    assert_eq!(stats.record_latency(77, 0), None);
    assert!(printer.can_take(&stats, PrinterEvent::Tick, 2002));
    assert_eq!(
        printer.step(&mut stats, PrinterEvent::Tick, 2002),
        PrinterAction::Show(LiveFigures {
            rate: Some(QpsSample { requests: 50, elapsed_ms: 1000 }),
            requests: 90,
            p50: 77,
            p95: 77,
            p99: 77,
        })
    );
    assert_eq!(stats.last_print_time, 2002);
    assert!(!printer.can_take(&stats, PrinterEvent::Tick, 2001));
    assert!(!printer.can_take(&stats, PrinterEvent::Woke, 3000));
    assert_eq!(printer.step(&mut stats, PrinterEvent::Shutdown, 3000), PrinterAction::Stop);
    assert_eq!(printer.phase, PrinterPhase::Stopped);
    assert!(!printer.can_take(&stats, PrinterEvent::Shutdown, 3000));
}

#[test]
fn the_printer_skips_a_warmup_that_is_over() {
    let mut stats = Stats::new(0);
    stats.end_warmup(0);
    let (printer, action) = Printer::start(&stats);
    assert_eq!(action, PrinterAction::Sleep(1000));
    assert_eq!(printer.phase, PrinterPhase::Settling);
}

#[test]
fn live_figures_without_requests() {
    let mut stats = Stats::new(5);
    assert!(can_read(&stats, 5));
    assert!(!can_read(&stats, 4));
    let figures = live_figures(&mut stats, 5);
    assert_eq!(figures, LiveFigures { rate: None, requests: 0, p50: 0, p95: 0, p99: 0 });
    stats.last_print_count = 1;
    assert!(!can_read(&stats, 6));
}

#[test]
fn two_ticks_count_every_request_once() {
    let mut stats = Stats::new(0);
    stats.total_requests = 10;
    let first = live_figures(&mut stats, 100).rate.unwrap();
    stats.total_requests = 25;
    let second = live_figures(&mut stats, 400).rate.unwrap();
    assert_eq!(first.requests + second.requests, 25);
    assert_eq!(first.elapsed_ms + second.elapsed_ms, 400);
}

#[test]
fn the_live_line() {
    let figures = LiveFigures { rate: None, requests: 1234, p50: 5, p95: 67, p99: 890 };
    assert_eq!(
        live_line(&figures, "42"),
        "[Live] QPS: 42 | Req: 1234 | Latency(us): P50=5 P95=67 P99=890"
    );
}
