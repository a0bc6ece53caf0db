use antilysis::engine::{aggregate, decide, detected, run_probes, Probe};
use antilysis::machine::evaluate;
use antilysis::debugger::DebuggerSignals;
use antilysis::ProbeResult;
use std::cell::RefCell;

fn run_with(answers: [ProbeResult; 5]) -> (ProbeResult, Vec<Probe>) {
    let asked: RefCell<Vec<Probe>> = RefCell::new(Vec::new());
    let verdict = detected(|probe: Probe| {
        asked.borrow_mut().push(probe);
        match probe {
            Probe::Process => answers[0],
            Probe::Sandbox => answers[1],
            Probe::Debugger => answers[2],
            Probe::MacAddress => answers[3],
            Probe::FileArtifact => answers[4],
        }
    });
    (verdict, asked.into_inner())
}

const P: ProbeResult = ProbeResult::Positive;
const N: ProbeResult = ProbeResult::Negative;
const I: ProbeResult = ProbeResult::Indeterminate;

#[test]
fn first_positive_stops_the_run() {
    let (verdict, asked) = run_with([P, P, I, N, P]);
    assert_eq!(verdict, ProbeResult::Positive);
    assert_eq!(asked, vec![Probe::Process]);
}

#[test]
fn all_negative_is_negative_and_asks_every_probe_in_order() {
    let (verdict, asked) = run_with([N, N, N, N, N]);
    assert_eq!(verdict, ProbeResult::Negative);
    assert_eq!(
        asked,
        vec![
            Probe::Process,
            Probe::Sandbox,
            Probe::Debugger,
            Probe::MacAddress,
            Probe::FileArtifact
        ]
    );
}

#[test]
fn later_positive_is_found_after_negatives() {
    let (verdict, asked) = run_with([N, N, P, N, N]);
    assert_eq!(verdict, ProbeResult::Positive);
    assert_eq!(asked, vec![Probe::Process, Probe::Sandbox, Probe::Debugger]);
}

#[test]
fn last_probe_positive() {
    let (verdict, asked) = run_with([N, N, N, N, P]);
    assert_eq!(verdict, ProbeResult::Positive);
    assert_eq!(asked.len(), 5);
}

#[test]
fn indeterminate_ends_the_run_before_a_later_positive() {
    let (verdict, asked) = run_with([N, I, P, P, P]);
    assert_eq!(verdict, ProbeResult::Indeterminate);
    assert_eq!(asked, vec![Probe::Process, Probe::Sandbox]);
}

#[test]
fn indeterminate_is_not_read_as_negative() {
    let (verdict, _) = run_with([N, N, N, I, N]);
    assert_eq!(verdict, ProbeResult::Indeterminate);
    let (verdict, _) = run_with([N, N, N, N, I]);
    assert_eq!(verdict, ProbeResult::Indeterminate);
}

#[test]
fn ordered_probes() {
    assert_eq!(
        Probe::ordered(),
        vec![
            Probe::Process,
            Probe::Sandbox,
            Probe::Debugger,
            Probe::MacAddress,
            Probe::FileArtifact
        ]
    );
}

#[test]
fn run_probes_on_a_chosen_order() {
    let asked: RefCell<Vec<Probe>> = RefCell::new(Vec::new());
    let order = vec![Probe::FileArtifact, Probe::Process];
    let verdict = run_probes(&order, |probe: Probe| {
        asked.borrow_mut().push(probe);
        if probe == Probe::Process {
            ProbeResult::Positive
        } else {
            ProbeResult::Negative
        }
    });
    assert_eq!(verdict, ProbeResult::Positive);
    assert_eq!(asked.into_inner(), vec![Probe::FileArtifact, Probe::Process]);
}

#[test]
fn run_probes_on_no_probe_is_negative() {
    let order: Vec<Probe> = Vec::new();
    let verdict = run_probes(&order, |_probe: Probe| ProbeResult::Positive);
    assert_eq!(verdict, ProbeResult::Negative);
}

#[test]
fn decide_goes_on_only_after_negative() {
    assert_eq!(decide(N), None);
    assert_eq!(decide(P), Some(ProbeResult::Positive));
    assert_eq!(decide(I), Some(ProbeResult::Indeterminate));
}

#[test]
fn aggregate_takes_the_first_answer_that_is_not_negative() {
    assert_eq!(aggregate(&vec![]), ProbeResult::Negative);
    assert_eq!(aggregate(&vec![N, N, N]), ProbeResult::Negative);
    assert_eq!(aggregate(&vec![N, P, I]), ProbeResult::Positive);
    assert_eq!(aggregate(&vec![N, I, P]), ProbeResult::Indeterminate);
    assert_eq!(aggregate(&vec![P]), ProbeResult::Positive);
}

#[test]
fn aggregate_agrees_with_a_lazy_run() {
    let cases = [[N, N, N, N, N], [N, P, N, I, N], [I, P, P, P, P], [N, N, N, N, P]];
    for answers in cases {
        let (verdict, _) = run_with(answers);
        assert_eq!(verdict, aggregate(&answers.to_vec()));
    }
}

#[test]
fn evaluate_reads_only_what_the_probe_needs() {
    let debugger_reads = RefCell::new(0u32);
    let adapter_reads = RefCell::new(0u32);
    let all = DebuggerSignals { local: true, remote_answered: true, remote: true, device: true };
    let read_debugger = || {
        *debugger_reads.borrow_mut() += 1;
        all
    };
    let read_adapters = || {
        *adapter_reads.borrow_mut() += 1;
        Some(vec![[0x08u8, 0x00, 0x27, 0x12, 0x34, 0x56]])
    };
    assert_eq!(evaluate(Probe::Debugger, &read_debugger, &read_adapters), ProbeResult::Positive);
    assert_eq!((*debugger_reads.borrow(), *adapter_reads.borrow()), (1, 0));
    assert_eq!(evaluate(Probe::MacAddress, &read_debugger, &read_adapters), ProbeResult::Positive);
    assert_eq!((*debugger_reads.borrow(), *adapter_reads.borrow()), (1, 1));
    let files = evaluate(Probe::FileArtifact, &read_debugger, &read_adapters);
    assert_ne!(files, ProbeResult::Indeterminate);
    assert_eq!((*debugger_reads.borrow(), *adapter_reads.borrow()), (1, 1));
}

#[test]
fn evaluate_without_adapters_is_indeterminate() {
    let none = DebuggerSignals { local: false, remote_answered: false, remote: false, device: false };
    let r = evaluate(Probe::MacAddress, || none, || None);
    assert_eq!(r, ProbeResult::Indeterminate);
    let r = evaluate(Probe::Debugger, || none, || None);
    assert_eq!(r, ProbeResult::Negative);
}

#[test]
fn result_flags() {
    assert_eq!(ProbeResult::from_flag(true), P);
    assert_eq!(ProbeResult::from_flag(false), N);
    assert_eq!(ProbeResult::from_option(Some(true)), P);
    assert_eq!(ProbeResult::from_option(Some(false)), N);
    assert_eq!(ProbeResult::from_option(None), I);
    assert_eq!(P.to_option(), Some(true));
    assert_eq!(N.to_option(), Some(false));
    assert_eq!(I.to_option(), None);
    assert!(P.is_positive() && !N.is_positive() && !I.is_positive());
    assert!(N.is_negative() && !P.is_negative() && !I.is_negative());
    assert!(I.is_indeterminate() && !P.is_indeterminate() && !N.is_indeterminate());
}

fn thorough_with(answers: [ProbeResult; 5]) -> (ProbeResult, usize) {
    let asked = RefCell::new(0usize);
    let verdict = antilysis::detected_thorough(|probe: Probe| {
        *asked.borrow_mut() += 1;
        match probe {
            Probe::Process => answers[0],
            Probe::Sandbox => answers[1],
            Probe::Debugger => answers[2],
            Probe::MacAddress => answers[3],
            Probe::FileArtifact => answers[4],
        }
    });
    let count = *asked.borrow();
    (verdict, count)
}

#[test]
fn thorough_run_goes_past_an_indeterminate() {
    assert_eq!(thorough_with([N, I, N, P, N]), (ProbeResult::Positive, 4));
    assert_eq!(thorough_with([I, I, I, I, P]), (ProbeResult::Positive, 5));
}

#[test]
fn thorough_run_is_indeterminate_without_a_positive() {
    assert_eq!(thorough_with([N, I, N, N, N]), (ProbeResult::Indeterminate, 5));
    assert_eq!(thorough_with([N, N, N, N, I]), (ProbeResult::Indeterminate, 5));
}

#[test]
fn thorough_run_stops_at_the_first_positive() {
    assert_eq!(thorough_with([P, I, P, N, N]), (ProbeResult::Positive, 1));
    assert_eq!(thorough_with([N, N, N, N, N]), (ProbeResult::Negative, 5));
}

#[test]
fn detected_on_this_machine_with_stubbed_system_calls() {
    let all = DebuggerSignals { local: true, remote_answered: true, remote: true, device: true };
    let processes = antilysis::process::processes();
    let sandbox = antilysis::sandbox::sandbox();
    let verdict = detected(|probe: Probe| evaluate(probe, || all, || None));
    let expected = if processes != N {
        processes
    } else if sandbox != N {
        sandbox
    } else {
        P
    };
    assert_eq!(verdict, expected);
}
