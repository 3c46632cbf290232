//! The status text of a run: the findings of all checked services folded
//! into one string.

use crate::finding::{Finding, ServiceFinding};
use vstd::prelude::*;

verus! {

/// The status that is reported when every checked service is healthy.
pub const HEALTHY_STATUS: &'static str = "ok";

/// The predicate that holds of every finding but `Healthy`.
pub open spec fn not_healthy() -> spec_fn(Finding) -> bool {
    |finding: Finding| !(finding is Healthy)
}

/// The function that takes a finding to its fragment.
pub open spec fn fragment_of() -> spec_fn(Finding) -> Seq<char> {
    |finding: Finding| finding.text()
}

/// The function that takes a finding to its mathematical picture.
pub open spec fn model_of() -> spec_fn(ServiceFinding) -> Finding {
    |finding: ServiceFinding| finding@
}

/// The mathematical pictures of a list of findings, in order.
pub open spec fn models(findings: Seq<ServiceFinding>) -> Seq<Finding> {
    findings.map_values(model_of())
}

/// The fragments of the findings that are not healthy, in the order of the
/// findings.
pub open spec fn fragments(findings: Seq<Finding>) -> Seq<Seq<char>> {
    findings.filter(not_healthy()).map_values(fragment_of())
}

/// The parts in order, with one comma between each two neighbours.
pub open spec fn comma_joined(parts: Seq<Seq<char>>) -> Seq<char>
    decreases parts.len(),
{
    if parts.len() == 0 {
        Seq::empty()
    } else if parts.len() == 1 {
        parts[0]
    } else {
        comma_joined(parts.drop_last()) + ","@ + parts.last()
    }
}

/// The status text of a run with the given findings: empty when all are
/// healthy, and else the comma-joined fragments of those that are not, in
/// the order in which the services were checked.
pub open spec fn aggregated(findings: Seq<Finding>) -> Seq<char> {
    comma_joined(fragments(findings))
}

/// The status text after one more finding has been taken in.
pub open spec fn appended(status: Seq<char>, finding: Finding) -> Seq<char> {
    if finding is Healthy {
        status
    } else if status.len() == 0 {
        finding.text()
    } else {
        status + ","@ + finding.text()
    }
}

/// The text that is sent for an aggregated status: the healthy marker when
/// the status is empty, the status itself when it is not.
pub open spec fn reported(status: Seq<char>) -> Seq<char> {
    if status.len() == 0 {
        HEALTHY_STATUS@
    } else {
        status
    }
}

/// The fragment of a finding that is not healthy is never empty.
pub proof fn lemma_fragment_nonempty(finding: Finding)
    requires
        !(finding is Healthy),
    ensures
        finding.text().len() > 0,
{
    reveal_strlit(" not loaded");
    reveal_strlit(" active_state=");
}

/// Joined parts are empty only when there are no parts, provided that no
/// part is empty.
proof fn lemma_joined_nonempty(parts: Seq<Seq<char>>)
    requires
        forall|i: int| 0 <= i < parts.len() ==> (#[trigger] parts[i]).len() > 0,
    ensures
        comma_joined(parts).len() == 0 <==> parts.len() == 0,
    decreases parts.len(),
{
    if parts.len() > 1 {
        assert(parts.last().len() > 0);
    } else if parts.len() == 1 {
        assert(parts[0].len() > 0);
    }
}

/// No fragment of a list of findings is empty.
proof fn lemma_fragments_nonempty(findings: Seq<Finding>)
    ensures
        forall|i: int|
            0 <= i < fragments(findings).len() ==> (#[trigger] fragments(findings)[i]).len() > 0,
{
    let kept = findings.filter(not_healthy());
    assert forall|i: int| 0 <= i < fragments(findings).len() implies (#[trigger] fragments(
        findings,
    )[i]).len() > 0 by {
        findings.lemma_filter_pred(not_healthy(), i);
        lemma_fragment_nonempty(kept[i]);
    }
}

/// Taking in one more finding extends the status text by that finding
/// alone: the status of a list with `finding` at its end is the status of
/// the list, with `finding` appended.
pub proof fn lemma_aggregated_push(findings: Seq<Finding>, finding: Finding)
    ensures
        aggregated(findings.push(finding)) == appended(aggregated(findings), finding),
{
    let kept = findings.filter(not_healthy());
    findings.lemma_filter_push(finding, not_healthy());
    if !(finding is Healthy) {
        kept.lemma_push_map_commute(fragment_of(), finding);
        let parts = fragments(findings);
        let more = parts.push(finding.text());
        assert(fragments(findings.push(finding)) == more);
        assert(more.drop_last() =~= parts);
        lemma_fragments_nonempty(findings);
        lemma_joined_nonempty(parts);
    }
}

/// The status text is empty if and only if every finding is healthy.
pub proof fn lemma_aggregated_empty_iff_all_healthy(findings: Seq<Finding>)
    ensures
        aggregated(findings).len() == 0 <==> forall|i: int|
            0 <= i < findings.len() ==> #[trigger] findings[i] is Healthy,
    decreases findings.len(),
{
    if findings.len() > 0 {
        let front = findings.drop_last();
        let last = findings.last();
        assert(findings =~= front.push(last));
        lemma_aggregated_empty_iff_all_healthy(front);
        lemma_aggregated_push(front, last);
        if !(last is Healthy) {
            lemma_fragment_nonempty(last);
        }
        if forall|i: int| 0 <= i < findings.len() ==> #[trigger] findings[i] is Healthy {
            assert forall|i: int| 0 <= i < front.len() implies #[trigger] front[i] is Healthy by {
                assert(front[i] == findings[i]);
            }
        }
        if aggregated(findings).len() == 0 {
            assert forall|i: int| 0 <= i < findings.len() implies #[trigger] findings[
                i
            ] is Healthy by {
                if i < front.len() {
                    assert(front[i] == findings[i]);
                }
            }
        }
    } else {
        reveal(Seq::filter);
    }
}

/// Healthy findings leave no trace: aggregating only the findings that are
/// not healthy gives the status text of the whole list, so aggregating
/// again what an aggregation kept changes nothing.
pub proof fn lemma_aggregated_keeps_unhealthy_only(findings: Seq<Finding>)
    ensures
        aggregated(findings.filter(not_healthy())) == aggregated(findings),
    decreases findings.len(),
{
    if findings.len() > 0 {
        let front = findings.drop_last();
        let last = findings.last();
        assert(findings =~= front.push(last));
        lemma_aggregated_keeps_unhealthy_only(front);
        front.lemma_filter_push(last, not_healthy());
        lemma_aggregated_push(front, last);
        if !(last is Healthy) {
            lemma_aggregated_push(front.filter(not_healthy()), last);
        }
    } else {
        reveal(Seq::filter);
    }
}

/// Takes one finding into the status text. A healthy finding leaves the
/// text as it is; any other adds its fragment, after a comma unless the
/// text was empty.
pub fn append_finding(status: &mut String, finding: &ServiceFinding)
    ensures
        final(status)@ == appended(old(status)@, finding@),
{
    if !finding.is_healthy() {
        if !status.as_str().is_empty() {
            status.append(",");
        }
        let text = finding.describe();
        status.append(text.as_str());
    }
}

/// The status text of a run, from the findings of its services in the order
/// in which they were configured.
pub fn aggregate(findings: &Vec<ServiceFinding>) -> (status: String)
    ensures
        status@ == aggregated(models(findings@)),
        status@.len() == 0 <==> forall|i: int|
            0 <= i < findings.len() ==> #[trigger] findings[i]@ is Healthy,
{
    let mut status = String::new();
    let mut done: usize = 0;
    proof {
        reveal(Seq::filter);
        assert(models(findings@.take(0)) =~= Seq::<Finding>::empty());
    }
    while done < findings.len()
        invariant
            done <= findings.len(),
            status@ == aggregated(models(findings@.take(done as int))),
        decreases findings.len() - done,
    {
        append_finding(&mut status, &findings[done]);
        proof {
            let seen = findings@.take(done as int);
            assert(findings@.take(done + 1) =~= seen.push(findings@[done as int]));
            assert(models(seen.push(findings@[done as int])) =~= models(seen).push(
                findings@[done as int]@,
            ));
            lemma_aggregated_push(models(seen), findings@[done as int]@);
        }
        done += 1;
    }
    proof {
        assert(findings@.take(done as int) =~= findings@);
        lemma_aggregated_empty_iff_all_healthy(models(findings@));
        assert forall|i: int| 0 <= i < findings.len() implies (#[trigger] findings[i]@ is Healthy
            <==> models(findings@)[i] is Healthy) by {}
    }
    status
}

/// The text to report for an aggregated status: the healthy marker for an
/// empty status, and else the status itself.
pub fn status_text(status: String) -> (text: String)
    ensures
        text@ == reported(status@),
{
    if status.as_str().is_empty() {
        String::from_str(HEALTHY_STATUS)
    } else {
        status
    }
}

} // verus!
