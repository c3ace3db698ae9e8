use vstd::prelude::*;
use crate::model::{BootstrapError, QueueFamily};

verus! {

/// What the caller does next while looking for a queue family.
#[derive(Clone, Copy, Debug, PartialEq, Eq, Structural)]
pub enum QueueStep {
    /// Ask the driver whether the family at this index can present to the surface.
    AskPresentation(usize),
    /// The family at this index is the chosen one.
    Chosen(usize),
    /// The search is over without a family.
    Failed(BootstrapError),
}

/// What the caller tells the queue search.
#[derive(Clone, Copy, Debug, PartialEq, Eq, Structural)]
pub enum QueueEvent {
    /// The search begins.
    Start,
    /// The driver answered the presentation query on a family: `Some` with
    /// its answer, or `None` when the query itself failed.
    Answered(usize, Option<bool>),
}

/// `i` is the first graphics-capable family at or after `from`.
pub open spec fn first_graphics_from(fams: Seq<QueueFamily>, from: int, i: int) -> bool {
    &&& from <= i < fams.len()
    &&& fams[i].graphics()
    &&& forall|j: int| from <= j < i ==> !(#[trigger] fams[j]).graphics()
}

/// No family at or after `from` is graphics-capable.
pub open spec fn no_graphics_from(fams: Seq<QueueFamily>, from: int) -> bool {
    forall|j: int| from <= j < fams.len() ==> !(#[trigger] fams[j]).graphics()
}

/// `r` is what a scan for graphics-capable families, starting at `from`, yields.
pub open spec fn scanned_from(fams: Seq<QueueFamily>, from: int, r: QueueStep) -> bool {
    match r {
        QueueStep::AskPresentation(i) => first_graphics_from(fams, from, i as int),
        QueueStep::Failed(e) => e == BootstrapError::NoSuitableQueue && no_graphics_from(fams, from),
        QueueStep::Chosen(_) => false,
    }
}

/// Finds the first graphics-capable family at or after `from`, and asks for
/// its presentation support; with none left the search fails.
fn scan_from(families: &Vec<QueueFamily>, from: usize) -> (r: QueueStep)
    ensures
        scanned_from(families@, from as int, r),
{
    let mut k: usize = from;
    while k < families.len()
        invariant
            from <= k,
            forall|j: int| from <= j < k && j < families@.len() ==> !(#[trigger] families@[j]).graphics(),
        decreases families@.len() - k,
    {
        if families[k].supports_graphics() {
            return QueueStep::AskPresentation(k);
        }
        k = k + 1;
    }
    QueueStep::Failed(BootstrapError::NoSuitableQueue)
}

/// One decision of the queue search. It scans the families in ascending
/// index order for one that is graphics-capable; the caller asks the driver
/// whether that one can present and hands the answer back. A "yes" chooses
/// the family, a "no" resumes the scan after it, a failed query ends the
/// search with `QueryFailed`.
pub fn queue_search_step(families: &Vec<QueueFamily>, event: QueueEvent) -> (r: QueueStep)
    requires
        event matches QueueEvent::Answered(k, _) ==> k < families@.len()
            && families@[k as int].graphics(),
    ensures
        event == QueueEvent::Start ==> scanned_from(families@, 0, r),
        event matches QueueEvent::Answered(k, a) ==> {
            &&& a == Some(true) ==> r == QueueStep::Chosen(k)
            &&& a == None::<bool> ==> r == QueueStep::Failed(BootstrapError::QueryFailed)
            &&& a == Some(false) ==> scanned_from(families@, k + 1, r)
        },
{
    let n: usize = families.len();
    match event {
        QueueEvent::Start => scan_from(families, 0),
        QueueEvent::Answered(k, Some(true)) => QueueStep::Chosen(k),
        QueueEvent::Answered(_, None) => QueueStep::Failed(BootstrapError::QueryFailed),
        QueueEvent::Answered(k, Some(false)) => {
            assert(k < n);
            scan_from(families, k + 1)
        },
    }
}

/// Every graphics-capable family before `i` was answered "no".
pub open spec fn declined_before(fams: Seq<QueueFamily>, answers: Seq<Option<bool>>, i: int) -> bool {
    forall|j: int| 0 <= j < i && (#[trigger] fams[j]).graphics() ==> answers[j] == Some(false)
}

/// `i` is the first graphics-capable family whose presentation answer is
/// not a plain "no": the point where the search stops.
pub open spec fn is_stop(fams: Seq<QueueFamily>, answers: Seq<Option<bool>>, i: int) -> bool {
    &&& 0 <= i < fams.len()
    &&& fams[i].graphics()
    &&& answers[i] != Some(false)
    &&& declined_before(fams, answers, i)
}

/// The family is graphics-capable and its presentation query answered "yes".
pub open spec fn qualifies(fams: Seq<QueueFamily>, answers: Seq<Option<bool>>, i: int) -> bool {
    0 <= i < fams.len() && fams[i].graphics() && answers[i] == Some(true)
}

/// Outcome of the queue search on `fams`, where `answers[i]` is what the
/// presentation query on family `i` gives (`None`: the query fails).
pub open spec fn queue_choice(fams: Seq<QueueFamily>, answers: Seq<Option<bool>>) -> Result<u32, BootstrapError> {
    if exists|i: int| is_stop(fams, answers, i) {
        let i = choose|i: int| is_stop(fams, answers, i);
        if answers[i] == Some(true) {
            Ok(i as u32)
        } else {
            Err(BootstrapError::QueryFailed)
        }
    } else {
        Err(BootstrapError::NoSuitableQueue)
    }
}

/// A stopping point of the search is unique.
proof fn lemma_stop_unique(fams: Seq<QueueFamily>, answers: Seq<Option<bool>>, i: int, j: int)
    requires
        is_stop(fams, answers, i),
        is_stop(fams, answers, j),
    ensures
        i == j,
{
    if i < j {
        assert(fams[i].graphics());
    } else if j < i {
        assert(fams[j].graphics());
    }
}

/// Where the search stops at `i`, the outcome is read from the answer there.
proof fn lemma_choice_at_stop(fams: Seq<QueueFamily>, answers: Seq<Option<bool>>, i: int)
    requires
        is_stop(fams, answers, i),
    ensures
        queue_choice(fams, answers) == (if answers[i] == Some(true) {
            Ok::<u32, BootstrapError>(i as u32)
        } else {
            Err(BootstrapError::QueryFailed)
        }),
{
    let c = choose|c: int| is_stop(fams, answers, c);
    lemma_stop_unique(fams, answers, i, c);
}

/// What holds of a step of the search, run against the answer table.
pub open spec fn search_state_ok(fams: Seq<QueueFamily>, answers: Seq<Option<bool>>, step: QueueStep) -> bool {
    match step {
        QueueStep::AskPresentation(k) => k < fams.len() && fams[k as int].graphics()
            && declined_before(fams, answers, k as int),
        QueueStep::Chosen(k) => is_stop(fams, answers, k as int) && answers[k as int] == Some(true),
        QueueStep::Failed(e) => (e == BootstrapError::QueryFailed && exists|k: int|
            is_stop(fams, answers, k) && answers[k] == None::<bool>)
            || (e == BootstrapError::NoSuitableQueue && declined_before(fams, answers, fams.len() as int)),
    }
}

/// Runs the queue search against a table of presentation answers:
/// `answers[i]` is what the driver says for family `i`, `None` where the
/// query fails. Only the answers of the families that the search asks
/// about are read.
pub fn select_queue(families: &Vec<QueueFamily>, answers: &Vec<Option<bool>>) -> (r: Result<u32, BootstrapError>)
    requires
        answers@.len() == families@.len(),
        families@.len() <= u32::MAX,
    ensures
        r == queue_choice(families@, answers@),
        forall|i: u32| r == Ok::<u32, BootstrapError>(i) <==> is_stop(families@, answers@, i as int)
            && qualifies(families@, answers@, i as int),
        r == Err::<u32, BootstrapError>(BootstrapError::NoSuitableQueue)
            <==> declined_before(families@, answers@, families@.len() as int),
{
    let mut step = queue_search_step(families, QueueEvent::Start);
    loop
        invariant
            answers@.len() == families@.len(),
            families@.len() <= u32::MAX,
            search_state_ok(families@, answers@, step),
        decreases
            match step {
                QueueStep::AskPresentation(k) => families@.len() - k,
                _ => 0,
            },
    {
        match step {
            QueueStep::AskPresentation(k) => {
                let a = answers[k];
                step = queue_search_step(families, QueueEvent::Answered(k, a));
                proof {
                    if a == Some(false) {
                        assert forall|j: int| 0 <= j < k + 1 && (#[trigger] families@[j]).graphics()
                            implies answers@[j] == Some(false) by {
                            if j < k {
                                assert(declined_before(families@, answers@, k as int));
                            }
                        }
                        assert(declined_before(families@, answers@, k + 1));
                        if let QueueStep::AskPresentation(k2) = step {
                            assert(first_graphics_from(families@, k + 1, k2 as int));
                            assert forall|j: int| 0 <= j < k2 && (#[trigger] families@[j]).graphics()
                                implies answers@[j] == Some(false) by {
                                if j <= k {
                                    assert(declined_before(families@, answers@, k + 1));
                                }
                            }
                        } else {
                            assert forall|j: int| 0 <= j < families@.len() && (#[trigger] families@[j]).graphics()
                                implies answers@[j] == Some(false) by {
                                if j <= k {
                                    assert(declined_before(families@, answers@, k + 1));
                                }
                            }
                        }
                    } else {
                        assert(is_stop(families@, answers@, k as int));
                        match a {
                            Some(b) => {
                                assert(b);
                            },
                            None => {},
                        }
                    }
                }
            },
            QueueStep::Chosen(k) => {
                proof {
                    lemma_choice_at_stop(families@, answers@, k as int);
                    assert forall|i: u32| #![auto] is_stop(families@, answers@, i as int) implies i == k as u32 by {
                        lemma_stop_unique(families@, answers@, i as int, k as int);
                    }
                    assert(!declined_before(families@, answers@, families@.len() as int));
                }
                return Ok(k as u32);
            },
            QueueStep::Failed(e) => {
                proof {
                    if e == BootstrapError::QueryFailed {
                        let w = choose|w: int| is_stop(families@, answers@, w) && answers@[w] == None::<bool>;
                        lemma_choice_at_stop(families@, answers@, w);
                        assert(!declined_before(families@, answers@, families@.len() as int));
                    } else {
                        assert forall|i: int| !is_stop(families@, answers@, i) by {
                            if is_stop(families@, answers@, i) {
                                assert(declined_before(families@, answers@, families@.len() as int));
                                assert(families@[i].graphics());
                            }
                        }
                    }
                }
                return Err(e);
            },
        }
    }
}

/// Where every presentation query gets an answer, the search chooses the
/// lowest-indexed family that is graphics-capable and answered "yes": no
/// other qualifying family, and in particular none above another one that
/// qualifies, is ever chosen.
pub proof fn lemma_lowest_qualifying_chosen(fams: Seq<QueueFamily>, answers: Seq<Option<bool>>, i: int)
    requires
        answers.len() == fams.len(),
        fams.len() <= u32::MAX,
        forall|k: int| 0 <= k < answers.len() ==> (#[trigger] answers[k]) is Some,
        qualifies(fams, answers, i),
    ensures
        queue_choice(fams, answers) matches Ok(c) && c <= i && qualifies(fams, answers, c as int)
            && forall|k: int| 0 <= k < c ==> !qualifies(fams, answers, k),
        (forall|k: int| 0 <= k < i ==> !qualifies(fams, answers, k)) ==> queue_choice(fams, answers)
            == Ok::<u32, BootstrapError>(i as u32),
{
    let c = lemma_lowest_qualifying(fams, answers, i);
    assert(declined_before(fams, answers, c)) by {
        assert forall|j: int| 0 <= j < c && (#[trigger] fams[j]).graphics() implies answers[j] == Some(false) by {
            assert(!qualifies(fams, answers, j));
            match answers[j] {
                Some(b) => assert(!b),
                None => assert(answers[j] is Some),
            }
        }
    }
    assert(is_stop(fams, answers, c));
    lemma_choice_at_stop(fams, answers, c);
    if forall|k: int| 0 <= k < i ==> !qualifies(fams, answers, k) {
        assert(c == i);
    }
}

/// Below any qualifying family lies a lowest one.
proof fn lemma_lowest_qualifying(fams: Seq<QueueFamily>, answers: Seq<Option<bool>>, i: int) -> (c: int)
    requires
        qualifies(fams, answers, i),
    ensures
        0 <= c <= i,
        qualifies(fams, answers, c),
        forall|k: int| 0 <= k < c ==> !qualifies(fams, answers, k),
    decreases i,
{
    if exists|k: int| 0 <= k < i && qualifies(fams, answers, k) {
        let k = choose|k: int| 0 <= k < i && qualifies(fams, answers, k);
        lemma_lowest_qualifying(fams, answers, k)
    } else {
        i
    }
}

/// Where every presentation query gets an answer and no family is both
/// graphics-capable and able to present, the search fails with
/// `NoSuitableQueue`.
pub proof fn lemma_none_qualifying_fails(fams: Seq<QueueFamily>, answers: Seq<Option<bool>>)
    requires
        answers.len() == fams.len(),
        forall|k: int| 0 <= k < answers.len() ==> (#[trigger] answers[k]) is Some,
        forall|k: int| 0 <= k < fams.len() ==> !qualifies(fams, answers, k),
    ensures
        queue_choice(fams, answers) == Err::<u32, BootstrapError>(BootstrapError::NoSuitableQueue),
{
    assert forall|i: int| !is_stop(fams, answers, i) by {
        if is_stop(fams, answers, i) {
            assert(!qualifies(fams, answers, i));
            match answers[i] {
                Some(b) => assert(!b),
                None => assert(answers[i] is Some),
            }
        }
    }
}

} // verus!
