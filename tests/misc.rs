use tiempo::opts::{Command, Opts};
use tiempo::stopwatch::Stopwatch;
use tiempo::printer::TermOp;

#[test]
fn no_command_means_now() {
    assert!(matches!(Opts { command: None }.command(), Command::Now));
    assert!(matches!(Opts { command: Some(Command::Clock) }.command(), Command::Clock));
}

#[test]
fn stopwatch_counts_up() {
    let mut w = Stopwatch::new();
    w.tick();
    let ops = w.tick();
    assert_eq!(w.elapsed(), 2);
    assert!(matches!(ops.last(), Some(TermOp::Text(t)) if t == "00:00:02"));
}
