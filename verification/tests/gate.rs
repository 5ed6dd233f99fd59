use noise_gate::{Gate, GateState};

use GateState::{Attacking, Closing, Holding, Opening, Releasing};

const LOUD: [i32; 3] = [9000, -100, 0];
const MID: [i32; 3] = [0, -3000, 100];
const SILENT: [i32; 3] = [0, 100, -100];

/// Runs one `process` call on a sentinel-filled output buffer and checks the
/// gating side of the contract: the output is a sample-for-sample copy of the
/// input when the resulting state is not `Closing`, and untouched otherwise.
/// Returns the state after the call.
fn step(g: &mut Gate, input: &[i32; 3]) -> GateState {
    let sentinel: [i32; 3] = [7777, -7777, 7777];
    let mut output = sentinel;
    let ok = g.process(input, &mut output);
    assert!(ok);
    if g.state() == Closing {
        assert_eq!(output, sentinel);
    } else {
        assert_eq!(&output, input);
    }
    g.state()
}

#[test]
fn new_gate_starts_closed() {
    let g = Gate::new(5000, 2000);
    assert_eq!(g.state(), Closing);
}

#[test]
fn full_attack_to_release_to_close_cycle() {
    let mut g = Gate::new(5000, 2000);

    // A loud buffer starts the attack; from this call on the signal passes.
    assert_eq!(step(&mut g, &LOUD), Attacking(5));

    // Five more loud buffers count the attack down to 0.
    for remaining in (0..5).rev() {
        assert_eq!(step(&mut g, &LOUD), Attacking(remaining));
    }

    // With the count at 0 the next call opens fully.
    assert_eq!(step(&mut g, &LOUD), Opening);

    // A silent buffer starts the hold period.
    assert_eq!(step(&mut g, &SILENT), Holding(5));

    // Five more silent buffers count the hold down to 0.
    for remaining in (0..5).rev() {
        assert_eq!(step(&mut g, &SILENT), Holding(remaining));
    }

    // With the count at 0 the next silent call starts the release.
    assert_eq!(step(&mut g, &SILENT), Releasing(5));

    // Five more silent buffers count the release down to 0.
    for remaining in (0..5).rev() {
        assert_eq!(step(&mut g, &SILENT), Releasing(remaining));
    }

    // With the count at 0 the next call closes fully; from this call on
    // the output stays untouched.
    assert_eq!(step(&mut g, &SILENT), Closing);
    assert_eq!(step(&mut g, &SILENT), Closing);
}

#[test]
fn reattack_during_release_opens_almost_at_once() {
    let mut g = Gate {
        state: Releasing(4),
        open_threshold: 5000,
        close_threshold: 2000,
    };

    // A loud buffer early in the release re-attacks with count 5 * (1 - 4 / 2).
    assert_eq!(step(&mut g, &LOUD), Attacking(-5));

    // The non-positive count collapses on the next call, whatever its level.
    assert_eq!(step(&mut g, &SILENT), Opening);
}

#[test]
fn held_gate_reopens_on_signal_between_thresholds() {
    let mut g = Gate {
        state: Holding(3),
        open_threshold: 5000,
        close_threshold: 2000,
    };
    assert_eq!(step(&mut g, &MID), Opening);
}

#[test]
fn closed_gate_leaves_output_untouched() {
    let mut g = Gate::new(5000, 2000);
    let input = [1999, -1999, 0];
    let mut output = [11, 22, 33];
    let ok = g.process(&input, &mut output);
    assert!(ok);
    assert_eq!(g.state(), Closing);
    assert_eq!(output, [11, 22, 33]);
}

#[test]
fn open_gate_copies_input_exactly() {
    let mut g = Gate {
        state: Opening,
        open_threshold: 5000,
        close_threshold: 2000,
    };
    let input = [i32::MIN, -1, 0, 1, i32::MAX];
    let mut output = [0; 5];
    let ok = g.process(&input, &mut output);
    assert!(ok);
    assert_eq!(g.state(), Opening);
    assert_eq!(output, input);
}

#[test]
fn process_always_reports_success() {
    let mut g = Gate::new(5000, 2000);
    for input in [LOUD, MID, SILENT, LOUD, SILENT, MID] {
        let mut output = [0; 3];
        assert!(g.process(&input, &mut output));
    }
}

#[test]
fn empty_buffers_are_processed() {
    let mut g = Gate {
        state: Opening,
        open_threshold: 5000,
        close_threshold: 0,
    };
    let input: [i32; 0] = [];
    let mut output: [i32; 0] = [];
    // An empty buffer has level 0, which is at the close threshold here, so
    // it stays open.
    assert!(g.process(&input, &mut output));
    assert_eq!(g.state(), Opening);
}
