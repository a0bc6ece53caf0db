//! The decision engine: one verdict from an ordered list of probes.
//!
//! Probes are consulted from left to right. The first answer that is not
//! `Negative` ends the run and is what the engine gives: `Positive`, since
//! one sign suffices, or `Indeterminate`, since a probe that could not decide
//! is never read as clean. Only when every probe answered `Negative` is the
//! verdict `Negative`.

use vstd::prelude::*;
use crate::result::ProbeResult;

verus! {

/// The probes that the engine knows, by name.
#[derive(Clone, Copy, Debug, PartialEq, Eq, Structural)]
pub enum Probe {
    Process,
    Sandbox,
    Debugger,
    MacAddress,
    FileArtifact,
}

impl Probe {
    /// The order in which `detected` consults the probes.
    pub open spec fn order() -> Seq<Probe> {
        seq![
            Probe::Process,
            Probe::Sandbox,
            Probe::Debugger,
            Probe::MacAddress,
            Probe::FileArtifact,
        ]
    }

    /// The probes in the order in which `detected` consults them.
    pub fn ordered() -> (v: Vec<Probe>)
        ensures
            v@ == Probe::order(),
    {
        let mut v: Vec<Probe> = Vec::new();
        v.push(Probe::Process);
        v.push(Probe::Sandbox);
        v.push(Probe::Debugger);
        v.push(Probe::MacAddress);
        v.push(Probe::FileArtifact);
        assert(v@ =~= Probe::order());
        v
    }
}

/// The verdict on a sequence of answers: the first one that is not
/// `Negative`, and `Negative` where there is none.
pub open spec fn verdict_of(answers: Seq<ProbeResult>) -> ProbeResult
    decreases answers.len(),
{
    if answers.len() == 0 {
        ProbeResult::Negative
    } else if answers[0] != ProbeResult::Negative {
        answers[0]
    } else {
        verdict_of(answers.drop_first())
    }
}

/// How many of the answers the engine reads: all up to and including the
/// first one that is not `Negative`.
pub open spec fn consulted(answers: Seq<ProbeResult>) -> nat
    decreases answers.len(),
{
    if answers.len() == 0 {
        0
    } else if answers[0] != ProbeResult::Negative {
        1
    } else {
        1 + consulted(answers.drop_first())
    }
}

/// Whether `answers` is what a run of the engine over `order` can have
/// gathered from `consult`: one answer of `consult` for each probe from the
/// left, none after the first answer that is not `Negative`.
pub open spec fn is_run<F: Fn(Probe) -> ProbeResult>(
    consult: F,
    order: Seq<Probe>,
    answers: Seq<ProbeResult>,
) -> bool {
    &&& answers.len() <= order.len()
    &&& forall|i: int| 0 <= i < answers.len() ==> consult.ensures((order[i],), #[trigger] answers[i])
    &&& forall|i: int| 0 <= i < answers.len() - 1 ==> #[trigger] answers[i] == ProbeResult::Negative
    &&& (answers.len() == order.len() || (answers.len() > 0 && answers.last()
        != ProbeResult::Negative))
}

/// What the engine does after one answer: `Some(verdict)` ends the run,
/// `None` lets it go on to the next probe.
pub fn decide(answer: ProbeResult) -> (r: Option<ProbeResult>)
    ensures
        r == (if answer == ProbeResult::Negative {
            None
        } else {
            Some(answer)
        }),
{
    match answer {
        ProbeResult::Negative => None,
        _ => Some(answer),
    }
}

/// The verdict on answers that were all gathered beforehand.
pub fn aggregate(answers: &Vec<ProbeResult>) -> (r: ProbeResult)
    ensures
        r == verdict_of(answers@),
{
    let mut i: usize = 0;
    proof {
        assert(answers@.skip(0) =~= answers@);
    }
    while i < answers.len()
        invariant
            0 <= i <= answers.len(),
            verdict_of(answers@) == verdict_of(answers@.skip(i as int)),
        decreases answers.len() - i,
    {
        proof {
            assert(answers@.skip(i as int).drop_first() =~= answers@.skip(i as int + 1));
        }
        match decide(answers[i]) {
            Some(verdict) => {
                return verdict;
            },
            None => {},
        }
        i += 1;
    }
    ProbeResult::Negative
}

/// Consults the probes of `order` from the left through `consult` and gives
/// the verdict. No probe is consulted after the first answer that is not
/// `Negative`.
pub fn run_probes<F: Fn(Probe) -> ProbeResult>(order: &Vec<Probe>, consult: F) -> (r: ProbeResult)
    requires
        forall|p: Probe| consult.requires((p,)),
    ensures
        exists|answers: Seq<ProbeResult>|
            is_run(consult, order@, answers) && r == #[trigger] verdict_of(answers),
{
    let ghost mut answers: Seq<ProbeResult> = Seq::empty();
    let mut i: usize = 0;
    while i < order.len()
        invariant
            0 <= i <= order.len(),
            answers.len() == i,
            forall|p: Probe| consult.requires((p,)),
            forall|k: int| 0 <= k < i ==> consult.ensures((order@[k],), #[trigger] answers[k]),
            forall|k: int| 0 <= k < i ==> #[trigger] answers[k] == ProbeResult::Negative,
        decreases order.len() - i,
    {
        let answer = consult(order[i]);
        proof {
            answers = answers.push(answer);
        }
        match decide(answer) {
            Some(verdict) => {
                proof {
                    lemma_verdict_is_last(answers);
                    assert(is_run(consult, order@, answers));
                }
                return verdict;
            },
            None => {},
        }
        i += 1;
    }
    proof {
        lemma_verdict_is_last(answers);
        assert(is_run(consult, order@, answers));
    }
    ProbeResult::Negative
}

/// Whether any sign of an analysis environment is present: the verdict over
/// the process, sandbox, debugger, hardware-address and file probes, in this
/// order, each consulted through `consult`.
pub fn detected<F: Fn(Probe) -> ProbeResult>(consult: F) -> (r: ProbeResult)
    requires
        forall|p: Probe| consult.requires((p,)),
    ensures
        exists|answers: Seq<ProbeResult>|
            is_run(consult, Probe::order(), answers) && r == #[trigger] verdict_of(answers),
{
    let order = Probe::ordered();
    run_probes(&order, consult)
}

/// The verdict of the thorough policy on a sequence of answers: `Positive`
/// where one answer is, else `Indeterminate` where one answer is, else
/// `Negative`.
pub open spec fn thorough_verdict_of(answers: Seq<ProbeResult>) -> ProbeResult {
    if exists|i: int| 0 <= i < answers.len() && #[trigger] answers[i] == ProbeResult::Positive {
        ProbeResult::Positive
    } else if exists|i: int|
        0 <= i < answers.len() && #[trigger] answers[i] == ProbeResult::Indeterminate {
        ProbeResult::Indeterminate
    } else {
        ProbeResult::Negative
    }
}

/// Whether `answers` is what a thorough run over `order` can have gathered
/// from `consult`: one answer of `consult` for each probe from the left, none
/// after the first `Positive`.
pub open spec fn is_thorough_run<F: Fn(Probe) -> ProbeResult>(
    consult: F,
    order: Seq<Probe>,
    answers: Seq<ProbeResult>,
) -> bool {
    &&& answers.len() <= order.len()
    &&& forall|i: int| 0 <= i < answers.len() ==> consult.ensures((order[i],), #[trigger] answers[i])
    &&& forall|i: int| 0 <= i < answers.len() - 1 ==> #[trigger] answers[i] != ProbeResult::Positive
    &&& (answers.len() == order.len() || (answers.len() > 0 && answers.last()
        == ProbeResult::Positive))
}

/// The thorough policy: a probe that cannot decide does not end the run. The
/// probes of `order` are consulted from the left until one answers
/// `Positive`; the verdict is `Indeterminate` only where none did and one
/// could not decide.
pub fn run_probes_thorough<F: Fn(Probe) -> ProbeResult>(order: &Vec<Probe>, consult: F) -> (r:
    ProbeResult)
    requires
        forall|p: Probe| consult.requires((p,)),
    ensures
        exists|answers: Seq<ProbeResult>|
            is_thorough_run(consult, order@, answers) && r == #[trigger] thorough_verdict_of(
                answers,
            ),
{
    let ghost mut answers: Seq<ProbeResult> = Seq::empty();
    let mut undecided = false;
    let mut i: usize = 0;
    while i < order.len()
        invariant
            0 <= i <= order.len(),
            answers.len() == i,
            forall|p: Probe| consult.requires((p,)),
            forall|k: int| 0 <= k < i ==> consult.ensures((order@[k],), #[trigger] answers[k]),
            forall|k: int| 0 <= k < i ==> #[trigger] answers[k] != ProbeResult::Positive,
            undecided <==> exists|k: int|
                0 <= k < i && #[trigger] answers[k] == ProbeResult::Indeterminate,
        decreases order.len() - i,
    {
        let answer = consult(order[i]);
        let ghost before = answers;
        proof {
            answers = answers.push(answer);
            assert forall|k: int| 0 <= k < i implies answers[k] == before[k] by {}
        }
        match answer {
            ProbeResult::Positive => {
                proof {
                    assert(answers[i as int] == ProbeResult::Positive);
                    assert(is_thorough_run(consult, order@, answers));
                    assert(thorough_verdict_of(answers) == ProbeResult::Positive);
                }
                return ProbeResult::Positive;
            },
            ProbeResult::Indeterminate => {
                proof {
                    assert(answers[i as int] == ProbeResult::Indeterminate);
                }
                undecided = true;
            },
            ProbeResult::Negative => {
                proof {
                    if exists|k: int|
                        0 <= k < i + 1 && #[trigger] answers[k] == ProbeResult::Indeterminate {
                        let k = choose|k: int|
                            0 <= k < i + 1 && #[trigger] answers[k] == ProbeResult::Indeterminate;
                        assert(before[k] == ProbeResult::Indeterminate);
                    }
                    if undecided {
                        let k = choose|k: int|
                            0 <= k < i && #[trigger] before[k] == ProbeResult::Indeterminate;
                        assert(answers[k] == ProbeResult::Indeterminate);
                    }
                }
            },
        }
        i += 1;
    }
    proof {
        assert(is_thorough_run(consult, order@, answers));
        assert(thorough_verdict_of(answers) == (if undecided {
            ProbeResult::Indeterminate
        } else {
            ProbeResult::Negative
        }));
    }
    if undecided {
        ProbeResult::Indeterminate
    } else {
        ProbeResult::Negative
    }
}

/// The thorough policy over the probes in the order of `detected`.
pub fn detected_thorough<F: Fn(Probe) -> ProbeResult>(consult: F) -> (r: ProbeResult)
    requires
        forall|p: Probe| consult.requires((p,)),
    ensures
        exists|answers: Seq<ProbeResult>|
            is_thorough_run(consult, Probe::order(), answers) && r == #[trigger] thorough_verdict_of(
                answers,
            ),
{
    let order = Probe::ordered();
    run_probes_thorough(&order, consult)
}

/// The two policies on the same answers: they agree where no answer is
/// `Indeterminate`, and a `Positive` of the first is a `Positive` of the
/// thorough one. Under the thorough policy, too, a first answer `Positive`
/// ends the run.
pub proof fn lemma_policies(answers: Seq<ProbeResult>)
    ensures
        verdict_of(answers) == ProbeResult::Positive ==> thorough_verdict_of(answers)
            == ProbeResult::Positive,
        verdict_of(answers) == ProbeResult::Negative <==> thorough_verdict_of(answers)
            == ProbeResult::Negative,
        (forall|i: int| 0 <= i < answers.len() ==> #[trigger] answers[i]
            != ProbeResult::Indeterminate) ==> verdict_of(answers) == thorough_verdict_of(answers),
{
    lemma_verdict_meaning(answers);
    if thorough_verdict_of(answers) == ProbeResult::Negative {
        assert forall|i: int| 0 <= i < answers.len() implies #[trigger] answers[i]
            == ProbeResult::Negative by {
            if answers[i] == ProbeResult::Positive {
            } else if answers[i] == ProbeResult::Indeterminate {
            }
        }
    }
    if forall|i: int| 0 <= i < answers.len() ==> #[trigger] answers[i]
        != ProbeResult::Indeterminate {
        if verdict_of(answers) == ProbeResult::Indeterminate {
            assert(answers[consulted(answers) - 1] == ProbeResult::Indeterminate);
        }
        if thorough_verdict_of(answers) == ProbeResult::Positive {
            if verdict_of(answers) == ProbeResult::Negative {
                let i = choose|i: int|
                    0 <= i < answers.len() && #[trigger] answers[i] == ProbeResult::Positive;
                assert(answers[i] == ProbeResult::Negative);
            }
        }
    }
}

/// Short circuit under the thorough policy: where the first probe of the
/// order can only answer `Positive`, a run holds that one answer and no
/// other, and the verdict is `Positive`.
pub proof fn lemma_first_positive_ends_thorough_run<F: Fn(Probe) -> ProbeResult>(
    consult: F,
    order: Seq<Probe>,
    answers: Seq<ProbeResult>,
)
    requires
        is_thorough_run(consult, order, answers),
        order.len() > 0,
        forall|answer: ProbeResult| #[trigger]
            consult.ensures((order[0],), answer) ==> answer == ProbeResult::Positive,
    ensures
        answers.len() == 1,
        answers[0] == ProbeResult::Positive,
        thorough_verdict_of(answers) == ProbeResult::Positive,
{
    assert(consult.ensures((order[0],), answers[0]));
}

/// Where every answer but the last is `Negative`, the verdict is the last
/// answer; with no answer at all it is `Negative`.
pub proof fn lemma_verdict_is_last(answers: Seq<ProbeResult>)
    requires
        forall|i: int| 0 <= i < answers.len() - 1 ==> #[trigger] answers[i] == ProbeResult::Negative,
    ensures
        answers.len() == 0 ==> verdict_of(answers) == ProbeResult::Negative,
        answers.len() > 0 ==> verdict_of(answers) == answers.last(),
        answers.len() > 0 && answers.last() != ProbeResult::Negative ==> consulted(answers)
            == answers.len(),
    decreases answers.len(),
{
    if answers.len() > 1 {
        let rest = answers.drop_first();
        assert forall|i: int| 0 <= i < rest.len() - 1 implies #[trigger] rest[i]
            == ProbeResult::Negative by {
            assert(rest[i] == answers[i + 1]);
        }
        lemma_verdict_is_last(rest);
        assert(rest.last() == answers.last());
        assert(answers[0] == ProbeResult::Negative);
    } else if answers.len() == 1 {
        lemma_verdict_is_last(answers.drop_first());
    }
}

/// Short circuit: where the first probe of the order can only answer
/// `Positive`, a run holds that one answer and no other, so no later probe
/// was consulted, and the verdict is `Positive`.
pub proof fn lemma_first_positive_ends_run<F: Fn(Probe) -> ProbeResult>(
    consult: F,
    order: Seq<Probe>,
    answers: Seq<ProbeResult>,
)
    requires
        is_run(consult, order, answers),
        order.len() > 0,
        forall|answer: ProbeResult| #[trigger]
            consult.ensures((order[0],), answer) ==> answer == ProbeResult::Positive,
    ensures
        answers.len() == 1,
        answers[0] == ProbeResult::Positive,
        verdict_of(answers) == ProbeResult::Positive,
        consulted(answers) == 1,
{
    assert(consult.ensures((order[0],), answers[0]));
}

/// Of any answers, the engine reads just the first where that one is
/// `Positive`, and its verdict is then `Positive` whatever the others are.
pub proof fn lemma_short_circuit(answers: Seq<ProbeResult>)
    requires
        answers.len() > 0,
        answers[0] == ProbeResult::Positive,
    ensures
        consulted(answers) == 1,
        verdict_of(answers) == ProbeResult::Positive,
{
}

/// The verdict is `Positive` exactly where one of the answers that the engine
/// read is `Positive`; it is `Negative` exactly where every answer is; and the
/// engine reads nothing after the answer that decided.
pub proof fn lemma_verdict_meaning(answers: Seq<ProbeResult>)
    ensures
        consulted(answers) <= answers.len(),
        verdict_of(answers) == verdict_of(answers.take(consulted(answers) as int)),
        verdict_of(answers) == ProbeResult::Positive <==> exists|i: int|
            0 <= i < consulted(answers) && #[trigger] answers[i] == ProbeResult::Positive,
        verdict_of(answers) == ProbeResult::Negative <==> forall|i: int|
            0 <= i < answers.len() ==> #[trigger] answers[i] == ProbeResult::Negative,
        verdict_of(answers) == ProbeResult::Indeterminate <==> (0 < consulted(answers)
            && answers[consulted(answers) - 1] == ProbeResult::Indeterminate),
    decreases answers.len(),
{
    if answers.len() > 0 {
        let rest = answers.drop_first();
        lemma_verdict_meaning(rest);
        let n = consulted(answers) as int;
        if answers[0] != ProbeResult::Negative {
            assert(answers.take(1)[0] == answers[0]);
        } else {
            assert(answers.take(n).drop_first() =~= rest.take(n - 1));
            assert(answers.take(n)[0] == answers[0]);
            if verdict_of(rest) == ProbeResult::Positive {
                let i = choose|i: int|
                    0 <= i < consulted(rest) && #[trigger] rest[i] == ProbeResult::Positive;
                assert(answers[i + 1] == ProbeResult::Positive);
            }
            if exists|i: int|
                0 <= i < consulted(answers) && #[trigger] answers[i] == ProbeResult::Positive {
                let i = choose|i: int|
                    0 <= i < consulted(answers) && #[trigger] answers[i] == ProbeResult::Positive;
                assert(rest[i - 1] == ProbeResult::Positive);
            }
            if forall|i: int| 0 <= i < rest.len() ==> #[trigger] rest[i] == ProbeResult::Negative {
                assert forall|i: int| 0 <= i < answers.len() implies #[trigger] answers[i]
                    == ProbeResult::Negative by {
                    if i > 0 {
                        assert(rest[i - 1] == answers[i]);
                    }
                }
            }
            if forall|i: int|
                0 <= i < answers.len() ==> #[trigger] answers[i] == ProbeResult::Negative {
                assert forall|i: int| 0 <= i < rest.len() implies #[trigger] rest[i]
                    == ProbeResult::Negative by {
                    assert(rest[i] == answers[i + 1]);
                }
            }
            if rest.len() > 0 {
                assert(rest[consulted(rest) - 1] == answers[consulted(answers) - 1]);
            }
        }
    } else {
        assert(answers.take(0) =~= answers);
    }
}

} // verus!
