//! `PipeWire` control against a recorded `pw-metadata`.

use ferrosonic::audio::pipewire::{
    parse_force_rate_from_output, probe_arguments, PipeWireController, PwMetadataCommand,
    RunOutcome,
};
use ferrosonic::audio::AudioError;

/// A `pw-metadata` that records its calls.
struct FakeRunner {
    calls: Vec<Vec<String>>,
    initial_query_stdout: String,
    fail_next: Option<String>,
    fail_status: bool,
}

impl FakeRunner {
    fn new() -> Self {
        Self {
            calls: Vec::new(),
            initial_query_stdout: String::new(),
            fail_next: None,
            fail_status: false,
        }
    }

    fn set_initial_query(&mut self, stdout: &str) {
        self.initial_query_stdout = stdout.to_string();
    }

    fn fail_next_with(&mut self, msg: &str) {
        self.fail_next = Some(msg.to_string());
    }

    fn probe(&mut self) -> PipeWireController {
        self.calls.push(probe_arguments());
        if self.fail_next.take().is_some() {
            return PipeWireController::with_runner(None);
        }
        PipeWireController::with_runner(Some(self.initial_query_stdout.as_bytes()))
    }

    fn run(&mut self, args: Vec<String>) -> RunOutcome {
        self.calls.push(args);
        if let Some(msg) = self.fail_next.take() {
            return RunOutcome::Failed(AudioError::PipeWire(msg));
        }
        RunOutcome::Exited {
            success: !self.fail_status,
            stderr: if self.fail_status {
                b"bad".to_vec()
            } else {
                Vec::new()
            },
        }
    }

    fn set_rate(&mut self, ctrl: &mut PipeWireController, rate: u32) -> Result<(), AudioError> {
        match ctrl.set_rate(rate) {
            Some(args) => {
                let outcome = self.run(args);
                ctrl.finish_set_rate(rate, outcome)
            }
            None => Ok(()),
        }
    }

    fn clear_forced_rate(&mut self, ctrl: &mut PipeWireController) -> Result<(), AudioError> {
        match ctrl.clear_forced_rate() {
            Some(args) => {
                let outcome = self.run(args);
                ctrl.finish_clear_forced_rate(outcome)
            }
            None => Ok(()),
        }
    }

    fn drop_controller(&mut self, ctrl: PipeWireController) {
        if let Some(args) = ctrl.restore_original() {
            let _ = self.run(args);
        }
    }
}

#[test]
fn new_calls_pw_metadata_to_read_original_rate() {
    let mut runner = FakeRunner::new();
    runner.set_initial_query("update: id:0 key:'clock.force-rate' value:'48000' type:''\n");
    let ctrl = runner.probe();
    assert_eq!(ctrl.get_original_rate(), Some(48000));
    assert_eq!(
        runner.calls,
        vec![vec!["-n", "settings", "0", "clock.force-rate"]]
    );
}

#[test]
fn new_with_unknown_rate_records_zero() {
    let mut runner = FakeRunner::new();
    runner.set_initial_query("");
    let ctrl = runner.probe();
    assert_eq!(ctrl.get_original_rate(), Some(0));
}

#[test]
fn successful_probe_marks_controller_available() {
    let mut runner = FakeRunner::new();
    runner.set_initial_query("");
    let ctrl = runner.probe();
    assert!(ctrl.is_available());
}

#[test]
fn failed_probe_marks_controller_unavailable() {
    let mut runner = FakeRunner::new();
    runner.fail_next_with("pw-metadata missing");
    let ctrl = runner.probe();
    assert!(!ctrl.is_available());
    assert_eq!(ctrl.get_original_rate(), None);
    assert_eq!(
        runner.calls.len(),
        1,
        "only the construction probe may run when unavailable"
    );
}

#[test]
fn unavailable_controller_set_and_clear_are_noops() {
    let mut runner = FakeRunner::new();
    runner.fail_next_with("pw-metadata missing");
    let mut ctrl = runner.probe();
    runner
        .set_rate(&mut ctrl, 48_000)
        .expect("set_rate must not fail");
    runner
        .clear_forced_rate(&mut ctrl)
        .expect("clear must not fail");
    assert_eq!(ctrl.get_current_rate(), None);
    assert_eq!(
        runner.calls.len(),
        1,
        "no pw-metadata calls may be issued while unavailable"
    );
}

#[test]
fn set_rate_invokes_runner_with_expected_args() {
    let mut runner = FakeRunner::new();
    runner.set_initial_query("");
    let mut ctrl = runner.probe();
    runner.set_rate(&mut ctrl, 96000).expect("set_rate ok");
    assert_eq!(ctrl.get_current_rate(), Some(96000));
    assert!(runner
        .calls
        .iter()
        .any(|c| c.contains(&"96000".to_string()) && c.contains(&"clock.force-rate".to_string())));
}

#[test]
fn set_rate_with_same_value_still_issues_pw_metadata() {
    let mut runner = FakeRunner::new();
    runner.set_initial_query("");
    let mut ctrl = runner.probe();
    runner.set_rate(&mut ctrl, 44100).unwrap();
    let calls_before = runner.calls.len();
    runner.set_rate(&mut ctrl, 44100).unwrap();
    let calls_after = runner.calls.len();
    assert!(
        calls_after > calls_before,
        "second set_rate must still run pw-metadata"
    );
}

#[test]
fn set_rate_propagates_runner_error() {
    let mut runner = FakeRunner::new();
    runner.set_initial_query("");
    let mut ctrl = runner.probe();
    runner.fail_next_with("boom");
    let r = runner.set_rate(&mut ctrl, 48000);
    assert_eq!(r, Err(AudioError::PipeWire("boom".to_string())));
    assert_eq!(ctrl.get_current_rate(), None);
}

#[test]
fn set_rate_propagates_nonzero_exit_as_error() {
    let mut runner = FakeRunner::new();
    runner.set_initial_query("");
    let mut ctrl = runner.probe();
    runner.fail_status = true;
    let r = runner.set_rate(&mut ctrl, 48000);
    assert_eq!(
        r,
        Err(AudioError::PipeWire("pw-metadata failed: bad".to_string())),
        "nonzero exit must map to AudioError"
    );
}

#[test]
fn clear_forced_rate_invokes_runner_with_zero() {
    let mut runner = FakeRunner::new();
    runner.set_initial_query("");
    let mut ctrl = runner.probe();
    runner.set_rate(&mut ctrl, 48000).unwrap();
    runner.clear_forced_rate(&mut ctrl).expect("clear ok");
    assert_eq!(ctrl.get_current_rate(), None);
    assert_eq!(
        runner.calls.last().unwrap(),
        &vec!["-n", "settings", "0", "clock.force-rate", "0"],
        "must call with value 0"
    );
}

#[test]
fn clear_forced_rate_propagates_runner_error() {
    let mut runner = FakeRunner::new();
    runner.set_initial_query("");
    let mut ctrl = runner.probe();
    runner.fail_next_with("dead");
    let r = runner.clear_forced_rate(&mut ctrl);
    assert!(r.is_err());
}

#[test]
fn drop_restores_original_rate_when_set() {
    let mut runner = FakeRunner::new();
    runner.set_initial_query("update: id:0 key:'clock.force-rate' value:'44100' type:''");
    let ctrl = runner.probe();
    runner.drop_controller(ctrl);
    let restored = runner
        .calls
        .iter()
        .rev()
        .find(|c| c.len() == 5 && c[3] == "clock.force-rate")
        .expect("restore call captured");
    assert_eq!(
        restored[4], "44100",
        "Drop must restore the original rate via run_blocking; got {:?}",
        restored
    );
}

#[test]
fn original_rate_is_restored_after_any_changes() {
    let mut runner = FakeRunner::new();
    runner.set_initial_query("update: id:0 key:'clock.force-rate' value:'44100' type:''");
    let mut ctrl = runner.probe();
    runner.set_rate(&mut ctrl, 96_000).unwrap();
    runner.set_rate(&mut ctrl, 48_000).unwrap();
    runner.clear_forced_rate(&mut ctrl).unwrap();
    runner.set_rate(&mut ctrl, 192_000).unwrap();
    assert!(ctrl
        .finish_set_rate(
            88_200,
            RunOutcome::Exited {
                success: false,
                stderr: Vec::new(),
            },
        )
        .is_err());
    assert_eq!(ctrl.get_current_rate(), Some(192_000));
    runner.drop_controller(ctrl);
    assert_eq!(runner.calls.last().unwrap()[4], "44100");
}

#[test]
fn drop_clears_rate_when_original_was_zero() {
    let mut runner = FakeRunner::new();
    runner.set_initial_query("update: id:0 key:'clock.force-rate' value:'0' type:''");
    let ctrl = runner.probe();
    runner.drop_controller(ctrl);
    let last_set = runner
        .calls
        .iter()
        .rev()
        .find(|c| c.len() == 5 && c[3] == "clock.force-rate")
        .expect("restore call captured");
    assert_eq!(last_set[4], "0");
}

#[test]
fn unavailable_controller_restores_nothing() {
    assert_eq!(PipeWireController::with_runner(None).restore_original(), None);
}

#[test]
fn force_rate_is_read_from_the_first_line_that_gives_one() {
    let happy = "key:'clock.force-rate' value:'48000' type:''";
    assert_eq!(parse_force_rate_from_output(happy), 48000);
    assert_eq!(parse_force_rate_from_output(""), 0);
    assert_eq!(
        parse_force_rate_from_output("clock.force-rate value:'oops'"),
        0
    );
    assert_eq!(parse_force_rate_from_output("clock.rate value:'48000'"), 0);
    assert_eq!(
        parse_force_rate_from_output("clock.force-rate value:'4294967296'"),
        0,
        "a number that does not fit"
    );
    assert_eq!(
        parse_force_rate_from_output(
            "Found \"settings\"\r\nclock.force-rate value:'x'\r\nclock.force-rate value:'+96000'\r\n"
        ),
        96000
    );
    for rate in [0u32, 7, 44_100, 192_000, u32::MAX] {
        assert_eq!(
            parse_force_rate_from_output(&format!("key:'clock.force-rate' value:'{rate}'")),
            rate
        );
    }
}

#[test]
fn production_runner_names_the_program() {
    let line = PwMetadataCommand.command(probe_arguments());
    assert_eq!(line.program, "pw-metadata");
    assert_eq!(line.args, probe_arguments());
}

#[test]
fn output_that_is_not_utf8_is_still_read() {
    let ctrl = PipeWireController::with_runner(Some(
        b"\xff key:'clock.force-rate' value:'96000' type:''",
    ));
    assert_eq!(ctrl.get_original_rate(), Some(96_000));
    let mut ctrl = PipeWireController::with_runner(Some(b""));
    let complaint = ctrl.finish_set_rate(
        48_000,
        RunOutcome::Exited {
            success: false,
            stderr: b"a\xffb".to_vec(),
        },
    );
    assert_eq!(
        complaint,
        Err(AudioError::PipeWire(
            "pw-metadata failed: a\u{fffd}b".to_string()
        ))
    );
}

#[test]
fn other_lines_are_skipped() {
    let line = "update: id:0 key:'clock.force-rate' value:'44100' type:''\n";
    for lead in [
        "Found \"settings\" metadata 33\n",
        "\n\n",
        "clock.force-rate value:'oops'\r\n",
        "clock.rate value:'48000'\n",
    ] {
        assert_eq!(parse_force_rate_from_output(&format!("{lead}{line}")), 44_100);
    }
    assert_eq!(
        parse_force_rate_from_output("v value clock.force-rate value:'7'value:'8'"),
        7
    );
}
