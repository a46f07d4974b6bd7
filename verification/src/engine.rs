//! The reporting engine: one line per target, one aggregate status.
//!
//! Digests are computed concurrently by collaborators outside this crate;
//! every decision the run makes is here.  [`format_result`] says what line a
//! pair produces and on which stream, [`exitcode`] and [`combine_status`]
//! give the first-failure-wins fold, and [`report`] and [`run_model`] are the
//! serialized model of a whole run: exactly one line per target, folded into
//! one status, whatever the order in which the targets completed.

use vstd::prelude::*;
use vstd::seq_lib::group_to_multiset_ensures;
use vstd::string::StringExecFns;

use crate::input::Input;
use crate::outcome::{hex_of, to_hex, Outcome};
use crate::text::{lower_of, lowercase};
use crate::{EXITCODE_IOERR, EXITCODE_OK};

verus! {

/// One (target, outcome) pair: the unit a worker hands to the printer.
#[derive(Clone, Debug)]
pub struct ResultPair {
    pub input: Input,
    pub outcome: Outcome,
}

/// The exit code one outcome contributes: success, or the I/O-error
/// convention for a failure of any kind.
pub open spec fn spec_exitcode(outcome: Outcome) -> i32 {
    if outcome.is_failure() {
        EXITCODE_IOERR
    } else {
        EXITCODE_OK
    }
}

/// Turns one outcome into its exit code; every failure kind collapses to the
/// same code.
pub fn exitcode(outcome: &Outcome) -> (r: i32)
    ensures
        r == spec_exitcode(*outcome),
{
    match outcome {
        Outcome::Digest(_) => EXITCODE_OK,
        Outcome::Failure(_, _) => EXITCODE_IOERR,
    }
}

/// First-failure-wins combination of two codes: a success on the left yields
/// the right code, anything else keeps the left.
pub open spec fn spec_combine(acc: i32, rc: i32) -> i32 {
    if acc == EXITCODE_OK {
        rc
    } else {
        acc
    }
}

/// Combines a running status with one more code, first failure winning.
pub fn combine_status(acc: i32, rc: i32) -> (r: i32)
    ensures
        r == spec_combine(acc, rc),
{
    if acc == EXITCODE_OK {
        rc
    } else {
        acc
    }
}

/// The left fold of per-target codes, starting from success.
pub open spec fn fold_status(codes: Seq<i32>) -> i32
    decreases codes.len(),
{
    if codes.len() == 0 {
        EXITCODE_OK
    } else {
        spec_combine(fold_status(codes.drop_last()), codes.last())
    }
}

/// The outcomes of a sequence of pairs, in order.
pub open spec fn outcomes_of(pairs: Seq<ResultPair>) -> Seq<Outcome> {
    pairs.map_values(|pair: ResultPair| pair.outcome)
}

/// The codes of a sequence of outcomes, in order.
pub open spec fn codes_of(outcomes: Seq<Outcome>) -> Seq<i32> {
    outcomes.map_values(|outcome: Outcome| spec_exitcode(outcome))
}

/// Whether at least one outcome in the sequence is a failure.
pub open spec fn has_failure(outcomes: Seq<Outcome>) -> bool {
    exists|i: int| 0 <= i < outcomes.len() && outcomes[i].is_failure()
}

/// The aggregate status a run with these outcomes must end with.
pub open spec fn spec_aggregate(outcomes: Seq<Outcome>) -> i32 {
    if has_failure(outcomes) {
        EXITCODE_IOERR
    } else {
        EXITCODE_OK
    }
}

/// The combination of codes is commutative and associative on the two codes
/// a target can contribute, so a parallel reduction is valid in any shape.
pub proof fn lemma_combine_commutative_associative(a: i32, b: i32, c: i32)
    requires
        a == EXITCODE_OK || a == EXITCODE_IOERR,
        b == EXITCODE_OK || b == EXITCODE_IOERR,
    ensures
        spec_combine(a, b) == spec_combine(b, a),
        spec_combine(spec_combine(a, b), c) == spec_combine(a, spec_combine(b, c)),
{
}

/// Fold correctness: the folded status of any outcomes is the I/O-error code
/// if and only if at least one outcome is a failure, and the success code
/// otherwise.
pub proof fn lemma_fold_failure_iff(outcomes: Seq<Outcome>)
    ensures
        fold_status(codes_of(outcomes)) == spec_aggregate(outcomes),
    decreases outcomes.len(),
{
    if outcomes.len() == 0 {
        assert(!has_failure(outcomes));
    } else {
        let prefix = outcomes.drop_last();
        lemma_fold_failure_iff(prefix);
        assert(codes_of(outcomes).drop_last() =~= codes_of(prefix));
        assert(codes_of(outcomes).last() == spec_exitcode(outcomes.last()));
        if outcomes.last().is_failure() {
            assert(outcomes[outcomes.len() - 1].is_failure());
            assert(has_failure(outcomes));
        } else {
            if has_failure(outcomes) {
                let i = choose|i: int| 0 <= i < outcomes.len() && outcomes[i].is_failure();
                assert(i < outcomes.len() - 1);
                assert(prefix[i] == outcomes[i]);
                assert(has_failure(prefix));
            }
            if has_failure(prefix) {
                let i = choose|i: int| 0 <= i < prefix.len() && prefix[i].is_failure();
                assert(outcomes[i] == prefix[i]);
                assert(has_failure(outcomes));
            }
        }
    }
}

/// Fold correctness under every completion order: outcome sequences that are
/// permutations of one another fold to the same aggregate status.
pub proof fn lemma_fold_order_independent(a: Seq<Outcome>, b: Seq<Outcome>)
    requires
        a.to_multiset() == b.to_multiset(),
    ensures
        fold_status(codes_of(a)) == fold_status(codes_of(b)),
{
    broadcast use group_to_multiset_ensures;

    lemma_fold_failure_iff(a);
    lemma_fold_failure_iff(b);
    if has_failure(a) {
        let i = choose|i: int| 0 <= i < a.len() && a[i].is_failure();
        assert(a.contains(a[i]));
        assert(b.to_multiset().count(a[i]) > 0);
        assert(b.contains(a[i]));
        let j = choose|j: int| 0 <= j < b.len() && b[j] == a[i];
        assert(b[j].is_failure());
        assert(has_failure(b));
    }
    if has_failure(b) {
        let i = choose|i: int| 0 <= i < b.len() && b[i].is_failure();
        assert(b.contains(b[i]));
        assert(a.to_multiset().count(b[i]) > 0);
        assert(a.contains(b[i]));
        let j = choose|j: int| 0 <= j < a.len() && a[j] == b[i];
        assert(a[j].is_failure());
        assert(has_failure(a));
    }
}

/// The one line printed for a pair: the target's display form, a separator,
/// then the digest in lowercase hexadecimal or the failure message folded to
/// lowercase.
pub open spec fn line_of(pair: ResultPair) -> Seq<char> {
    match pair.outcome {
        Outcome::Digest(digest) => pair.input.spec_display() + ": "@ + hex_of(digest@),
        Outcome::Failure(_, message) => pair.input.spec_display() + ": "@ + lower_of(message@),
    }
}

/// Isolation: whatever happens to the pair at one position, every sibling
/// pair's printed line is unchanged.
pub proof fn lemma_isolation(a: Seq<ResultPair>, b: Seq<ResultPair>, j: int)
    requires
        a.len() == b.len(),
        forall|i: int| 0 <= i < a.len() && i != j ==> a[i] == b[i],
    ensures
        forall|i: int| 0 <= i < a.len() && i != j ==> line_of(a[i]) == line_of(b[i]),
{
}

/// Formats one pair into its line and says on which stream it belongs:
/// `false` for the success stream, `true` for the failure stream.
pub fn format_result(pair: &ResultPair) -> (r: (String, bool))
    ensures
        r.0@ == line_of(*pair),
        r.1 == pair.outcome.is_failure(),
{
    let mut line = pair.input.display();
    line.append(": ");
    match &pair.outcome {
        Outcome::Digest(digest) => {
            let hex = to_hex(digest);
            line.append(hex.as_str());
            proof {
                assert(line@ =~= line_of(*pair));
            }
            (line, false)
        },
        Outcome::Failure(_, message) => {
            let folded = lowercase(message.as_str());
            line.append(folded.as_str());
            proof {
                assert(line@ =~= line_of(*pair));
            }
            (line, true)
        },
    }
}

/// The serialized model of one run: for a fixed sequence of pairs it yields
/// exactly one line per pair, each pair's own line, together with the
/// first-failure-wins aggregate of every outcome.
pub fn report(pairs: &Vec<ResultPair>) -> (r: (Vec<String>, i32))
    ensures
        r.0@.len() == pairs@.len(),
        forall|i: int| 0 <= i < pairs@.len() ==> r.0@[i]@ == line_of(pairs@[i]),
        r.1 == spec_aggregate(outcomes_of(pairs@)),
{
    let mut lines: Vec<String> = Vec::new();
    let mut status: i32 = EXITCODE_OK;
    let mut i: usize = 0;
    while i < pairs.len()
        invariant
            i <= pairs@.len(),
            lines@.len() == i,
            forall|k: int| 0 <= k < i ==> lines@[k]@ == line_of(pairs@[k]),
            status == fold_status(codes_of(outcomes_of(pairs@.subrange(0, i as int)))),
        decreases pairs@.len() - i,
    {
        let pair = &pairs[i];
        let (line, _is_failure) = format_result(pair);
        lines.push(line);
        let rc = exitcode(&pair.outcome);
        status = combine_status(status, rc);
        proof {
            let prefix = pairs@.subrange(0, i as int);
            let extended = pairs@.subrange(0, i as int + 1);
            assert(extended.drop_last() =~= prefix);
            assert(codes_of(outcomes_of(extended)).drop_last() =~= codes_of(outcomes_of(prefix)));
            assert(codes_of(outcomes_of(extended)).last() == spec_exitcode(pairs@[i as int].outcome));
        }
        i = i + 1;
    }
    proof {
        assert(pairs@.subrange(0, pairs@.len() as int) =~= pairs@);
        lemma_fold_failure_iff(outcomes_of(pairs@));
    }
    (lines, status)
}

/// The engine model for one whole run: the i-th target is paired with the
/// i-th outcome — exactly one pair per target, no duplicates, no omissions —
/// and every pair is reported, so a run with N targets prints exactly N
/// lines and ends with the fold of every outcome.
pub fn run_model(targets: Vec<Input>, outcomes: Vec<Outcome>) -> (r: (Vec<String>, i32))
    requires
        targets@.len() == outcomes@.len(),
    ensures
        r.0@.len() == targets@.len(),
        forall|i: int|
            0 <= i < targets@.len() ==> r.0@[i]@ == line_of(
                (ResultPair { input: targets@[i], outcome: outcomes@[i] }),
            ),
        r.1 == spec_aggregate(outcomes@),
{
    let ghost orig_targets = targets@;
    let ghost orig_outcomes = outcomes@;
    let mut targets = targets;
    let mut outcomes = outcomes;
    let mut pairs: Vec<ResultPair> = Vec::new();
    while targets.len() > 0
        invariant
            targets@.len() == outcomes@.len(),
            orig_targets.len() == orig_outcomes.len(),
            pairs@.len() + targets@.len() == orig_targets.len(),
            targets@ =~= orig_targets.skip(pairs@.len() as int),
            outcomes@ =~= orig_outcomes.skip(pairs@.len() as int),
            forall|k: int|
                0 <= k < pairs@.len() ==> pairs@[k] == (ResultPair {
                    input: orig_targets[k],
                    outcome: orig_outcomes[k],
                }),
        decreases targets@.len(),
    {
        let ghost done = pairs@.len() as int;
        let ghost remaining_targets = targets@;
        let ghost remaining_outcomes = outcomes@;
        let input = targets.remove(0);
        let outcome = outcomes.remove(0);
        proof {
            assert(input == remaining_targets[0] && remaining_targets[0] == orig_targets[done]);
            assert(outcome == remaining_outcomes[0] && remaining_outcomes[0]
                == orig_outcomes[done]);
            assert(targets@ =~= orig_targets.skip(done + 1));
            assert(outcomes@ =~= orig_outcomes.skip(done + 1));
        }
        pairs.push(ResultPair { input, outcome });
    }
    proof {
        assert(outcomes_of(pairs@) =~= orig_outcomes);
    }
    report(&pairs)
}

} // verus!
