//! What holds of whole delivery runs.
//!
//! A run is told here as the list of its rounds: for each round the clock
//! reading at which the caller asked for the next attempt, and what the
//! request of that round came to. [`run`] plays the rounds through the two
//! decisions of the reporter, the deadline test of
//! [`Reporter::next_attempt`](crate::reporter::Reporter::next_attempt) and
//! the verdict of [`judge`](crate::reporter::judge), and the lemmas below
//! say what comes out.

use crate::reporter::{backoff_secs, deadline_reached, judged, Exchange, Judgement, Outcome};
use vstd::prelude::*;

verus! {

/// One round of a run.
pub struct Round {
    /// The seconds since the start of the run, read before the request.
    pub elapsed_secs: u64,
    /// What the request came to, if it was made.
    pub exchange: Exchange,
}

/// How far a run has come.
pub struct Progress {
    /// The number of requests sent.
    pub requests: nat,
    /// The outcome, once the run has ended.
    pub outcome: Option<Outcome>,
}

/// The progress of a run that has sent `sent` requests and goes on with
/// `rounds`. A round at or after the deadline ends the run without a
/// request. Every other round sends one; the run ends there if the exchange
/// settles it, and goes on with the next round if not.
pub open spec fn run_from(sent: nat, rounds: Seq<Round>) -> Progress
    decreases rounds.len(),
{
    if rounds.len() == 0 {
        Progress { requests: sent, outcome: None }
    } else if deadline_reached(rounds[0].elapsed_secs) {
        Progress { requests: sent, outcome: Some(Outcome::DeadlineExceeded) }
    } else {
        match judged(rounds[0].exchange) {
            Judgement::Settled(outcome) => Progress { requests: sent + 1, outcome: Some(outcome) },
            Judgement::Retry(_) => run_from(sent + 1, rounds.drop_first()),
        }
    }
}

/// The progress of a run from its start.
pub open spec fn run(rounds: Seq<Round>) -> Progress {
    run_from(0, rounds)
}

/// Whether every round begins before the deadline.
pub open spec fn all_before_deadline(rounds: Seq<Round>) -> bool {
    forall|i: int| 0 <= i < rounds.len() ==> !deadline_reached((#[trigger] rounds[i]).elapsed_secs)
}

/// Whether every exchange fails in a way that is tried again.
pub open spec fn all_transient(rounds: Seq<Round>) -> bool {
    forall|i: int| 0 <= i < rounds.len() ==> judged((#[trigger] rounds[i]).exchange) is Retry
}

/// Whether the clock shows that the caller waited: each round begins no
/// sooner than the round before it plus the back-off of that round.
pub open spec fn clock_honours_backoff(rounds: Seq<Round>) -> bool {
    forall|i: int|
        0 <= i < rounds.len() - 1 ==> rounds[i + 1].elapsed_secs >= (#[trigger] rounds[i]).elapsed_secs
            + backoff_secs(i as nat)
}

/// The seconds of back-off that come before the request of round `round`,
/// all rounds before it counted.
pub open spec fn total_backoff(round: nat) -> nat
    decreases round,
{
    if round == 0 {
        0
    } else {
        total_backoff((round - 1) as nat) + backoff_secs((round - 1) as nat)
    }
}

/// The most requests that a run can send under a clock that honours the
/// back-off: the tenth would begin 36 seconds in.
pub const MAX_REQUESTS: u64 = 9;

/// The longest back-off of such a run, in seconds: that of its ninth
/// request.
pub const MAX_BACKOFF_SECS: u64 = 8;

proof fn lemma_failures_then_settled_from(sent: nat, failures: Seq<Round>, last: Round)
    requires
        all_before_deadline(failures),
        all_transient(failures),
        !deadline_reached(last.elapsed_secs),
        judged(last.exchange) is Settled,
    ensures
        run_from(sent, failures.push(last)) == (Progress {
            requests: sent + failures.len() + 1,
            outcome: Some(judged(last.exchange)->Settled_0),
        }),
    decreases failures.len(),
{
    let rounds = failures.push(last);
    if failures.len() == 0 {
        assert(rounds[0] == last);
    } else {
        assert(rounds[0] == failures[0]);
        let rest = failures.drop_first();
        assert(rounds.drop_first() =~= rest.push(last));
        assert forall|i: int| 0 <= i < rest.len() implies !deadline_reached(
            (#[trigger] rest[i]).elapsed_secs,
        ) && judged(rest[i].exchange) is Retry by {
            assert(rest[i] == failures[i + 1]);
        }
        lemma_failures_then_settled_from(sent + 1, rest, last);
    }
}

/// Failures that are tried again, however many, followed by one exchange
/// that settles the run, all begun before the deadline: the run sends one
/// request for each of them and no other, and ends with the outcome of the
/// last. After transport failures and one success that outcome is
/// `Delivered`; a rejection in the first round ends the run after one
/// request.
pub proof fn lemma_failures_then_settled(failures: Seq<Round>, last: Round)
    requires
        all_before_deadline(failures),
        all_transient(failures),
        !deadline_reached(last.elapsed_secs),
        judged(last.exchange) is Settled,
    ensures
        run(failures.push(last)) == (Progress {
            requests: failures.len() + 1,
            outcome: Some(judged(last.exchange)->Settled_0),
        }),
{
    lemma_failures_then_settled_from(0, failures, last);
}

proof fn lemma_ended_run_is_final_from(sent: nat, rounds: Seq<Round>, more: Seq<Round>)
    requires
        run_from(sent, rounds).outcome is Some,
    ensures
        run_from(sent, rounds + more) == run_from(sent, rounds),
    decreases rounds.len(),
{
    let all = rounds + more;
    assert(all[0] == rounds[0]);
    if !deadline_reached(rounds[0].elapsed_secs) && judged(rounds[0].exchange) is Retry {
        assert(all.drop_first() =~= rounds.drop_first() + more);
        lemma_ended_run_is_final_from(sent + 1, rounds.drop_first(), more);
    }
}

/// A run that has ended stays ended: whatever rounds are offered after its
/// outcome, no further request is sent and the outcome stands.
pub proof fn lemma_ended_run_is_final(rounds: Seq<Round>, more: Seq<Round>)
    requires
        run(rounds).outcome is Some,
    ensures
        run(rounds + more) == run(rounds),
{
    lemma_ended_run_is_final_from(0, rounds, more);
}

proof fn lemma_transient_run_from(sent: nat, rounds: Seq<Round>)
    requires
        all_transient(rounds),
    ensures
        all_before_deadline(rounds) ==> run_from(sent, rounds) == (Progress {
            requests: sent + rounds.len(),
            outcome: None,
        }),
        !all_before_deadline(rounds) ==> {
            &&& run_from(sent, rounds).outcome == Some(Outcome::DeadlineExceeded)
            &&& sent <= run_from(sent, rounds).requests < sent + rounds.len()
            &&& deadline_reached(rounds[run_from(sent, rounds).requests - sent].elapsed_secs)
            &&& all_before_deadline(rounds.take(run_from(sent, rounds).requests - sent))
        },
    decreases rounds.len(),
{
    if rounds.len() > 0 {
        if deadline_reached(rounds[0].elapsed_secs) {
            assert(rounds.take(0).len() == 0);
        } else {
            let rest = rounds.drop_first();
            assert forall|i: int| 0 <= i < rest.len() implies judged(
                (#[trigger] rest[i]).exchange,
            ) is Retry by {
                assert(rest[i] == rounds[i + 1]);
            }
            lemma_transient_run_from(sent + 1, rest);
            if all_before_deadline(rounds) {
                assert forall|i: int| 0 <= i < rest.len() implies !deadline_reached(
                    (#[trigger] rest[i]).elapsed_secs,
                ) by {
                    assert(rest[i] == rounds[i + 1]);
                }
            } else {
                let late = choose|i: int|
                    0 <= i < rounds.len() && deadline_reached((#[trigger] rounds[i]).elapsed_secs);
                assert(rest[late - 1] == rounds[late]);
                let stop = run_from(sent + 1, rest).requests - (sent + 1);
                assert(rounds[stop + 1] == rest[stop]);
                let before = rounds.take(stop + 1);
                assert forall|i: int| 0 <= i < before.len() implies !deadline_reached(
                    (#[trigger] before[i]).elapsed_secs,
                ) by {
                    if i > 0 {
                        assert(before[i] == rest.take(stop)[i - 1]);
                    }
                }
            }
        }
    }
}

/// A run in which every exchange fails in a way that is tried again can
/// end in one way only, by the deadline. It goes on, one request a round,
/// as long as the rounds begin before the deadline; the first round that
/// does not ends it with `DeadlineExceeded`, no request sent in that round
/// or after it.
pub proof fn lemma_transient_run_ends_by_deadline(rounds: Seq<Round>)
    requires
        all_transient(rounds),
    ensures
        all_before_deadline(rounds) ==> run(rounds) == (Progress {
            requests: rounds.len(),
            outcome: None,
        }),
        !all_before_deadline(rounds) ==> {
            &&& run(rounds).outcome == Some(Outcome::DeadlineExceeded)
            &&& run(rounds).requests < rounds.len()
            &&& deadline_reached(rounds[run(rounds).requests as int].elapsed_secs)
            &&& all_before_deadline(rounds.take(run(rounds).requests as int))
        },
{
    lemma_transient_run_from(0, rounds);
}

proof fn lemma_clock_after_backoff(rounds: Seq<Round>, round: int)
    requires
        clock_honours_backoff(rounds),
        0 <= round < rounds.len(),
    ensures
        rounds[round].elapsed_secs >= total_backoff(round as nat),
    decreases round,
{
    if round > 0 {
        lemma_clock_after_backoff(rounds, round - 1);
        assert(rounds[round - 1 + 1].elapsed_secs >= rounds[round - 1].elapsed_secs + backoff_secs(
            (round - 1) as nat,
        ));
    }
}

proof fn lemma_requests_bounded_from(rounds: Seq<Round>, sent: nat)
    requires
        clock_honours_backoff(rounds),
        sent <= rounds.len(),
        sent <= MAX_REQUESTS,
    ensures
        run_from(sent, rounds.skip(sent as int)).requests <= MAX_REQUESTS,
    decreases rounds.len() - sent,
{
    let rest = rounds.skip(sent as int);
    if rest.len() > 0 {
        assert(rest[0] == rounds[sent as int]);
        if !deadline_reached(rest[0].elapsed_secs) {
            lemma_clock_after_backoff(rounds, sent as int);
            assert(total_backoff(9) == 36) by {
                reveal_with_fuel(total_backoff, 10);
            }
            assert(sent < MAX_REQUESTS);
            if judged(rest[0].exchange) is Retry {
                assert(rest.drop_first() =~= rounds.skip(sent as int + 1));
                lemma_requests_bounded_from(rounds, sent + 1);
            }
        }
    }
}

/// Under a clock that honours the back-off a run sends at most nine
/// requests, whatever comes of them, and none of them waits longer than
/// eight seconds.
pub proof fn lemma_backoff_bounds_requests(rounds: Seq<Round>)
    requires
        clock_honours_backoff(rounds),
    ensures
        run(rounds).requests <= MAX_REQUESTS,
        forall|sent: nat| sent < run(rounds).requests ==> backoff_secs(sent) <= MAX_BACKOFF_SECS,
{
    assert(rounds.skip(0) =~= rounds);
    lemma_requests_bounded_from(rounds, 0);
}

} // verus!
