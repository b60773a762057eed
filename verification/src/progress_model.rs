//! What recording the progress of flows does in a page.
//!
//! Evaluating the script of [`start_progress_capture`] empties the record of its
//! capture id and adds a listener for that id; it forgets the listener that was added
//! before it, if there was one, without taking it off. Evaluating the script of
//! [`stop_progress_capture`] takes off the listener that was added last for its id, if
//! it is still on, and gives what is recorded under the id. Each listener that is on
//! records the stages, other than empty ones, of the flow that its id names. The model
//! is that of ids that are names of flows.
//!
//! [`start_progress_capture`]: crate::scripts::start_progress_capture
//! [`stop_progress_capture`]: crate::scripts::stop_progress_capture

use crate::scripts::{escaped_all, recorded_stages_are_read_back, stages_in};
use crate::text::joined;
use vstd::prelude::*;

verus! {

/// What happens in the page.
pub ghost enum PageStep {
    /// The script that starts recording under an id is evaluated.
    Start { id: Seq<char> },
    /// A flow reports a stage.
    Progress { flow: Seq<char>, stage: Seq<char> },
    /// The script that stops recording under an id, and collects, is evaluated.
    Read { id: Seq<char> },
}

/// What the page has under an id: the record, how many listeners are on, and whether
/// the one that was added last is.
pub ghost struct Capture {
    pub record: Seq<Seq<char>>,
    pub listeners: nat,
    pub last_is_on: bool,
}

/// What a step makes of what the page has under an id.
pub open spec fn capture_after(id: Seq<char>, capture: Capture, step: PageStep) -> Capture {
    match step {
        PageStep::Start { id: started } => if started == id {
            Capture {
                record: Seq::empty(),
                listeners: capture.listeners + 1,
                last_is_on: true,
            }
        } else {
            capture
        },
        PageStep::Progress { flow, stage } => if flow == id && stage.len() > 0 {
            Capture {
                record: capture.record + Seq::new(capture.listeners, |i: int| stage),
                ..capture
            }
        } else {
            capture
        },
        PageStep::Read { id: read } => if read == id && capture.last_is_on {
            Capture {
                listeners: (capture.listeners - 1) as nat,
                last_is_on: false,
                ..capture
            }
        } else {
            capture
        },
    }
}

/// What the page has under an id after what happened in it.
pub open spec fn capture(history: Seq<PageStep>, id: Seq<char>) -> Capture
    decreases history.len(),
{
    if history.len() == 0 {
        Capture { record: Seq::empty(), listeners: 0, last_is_on: false }
    } else {
        capture_after(id, capture(history.drop_last(), id), history.last())
    }
}

/// The stages that are read under an id: the collecting script gives the record,
/// escaped and joined by commas.
pub open spec fn read_stages(history: Seq<PageStep>, id: Seq<char>) -> Seq<Seq<char>> {
    stages_in(joined(escaped_all(capture(history, id).record)))
}

/// Whether recording under an id was only ever started where no recording under it
/// was going on.
pub open spec fn never_restarted(history: Seq<PageStep>, id: Seq<char>) -> bool
    decreases history.len(),
{
    history.len() == 0 || {
        &&& never_restarted(history.drop_last(), id)
        &&& history.last() == (PageStep::Start { id }) ==> capture(
            history.drop_last(),
            id,
        ).listeners == 0
    }
}

/// How often recording under an id was started.
pub open spec fn starts(history: Seq<PageStep>, id: Seq<char>) -> nat
    decreases history.len(),
{
    if history.len() == 0 {
        0
    } else if history.last() == (PageStep::Start { id }) {
        starts(history.drop_last(), id) + 1
    } else {
        starts(history.drop_last(), id)
    }
}

/// The stages, other than empty ones, that a flow reported, in order.
pub open spec fn reported(steps: Seq<PageStep>, flow: Seq<char>) -> Seq<Seq<char>>
    decreases steps.len(),
{
    if steps.len() == 0 {
        Seq::empty()
    } else {
        let before = reported(steps.drop_last(), flow);
        match steps.last() {
            PageStep::Progress { flow: reporting, stage } => if reporting == flow && stage.len()
                > 0 {
                before.push(stage)
            } else {
                before
            },
            _ => before,
        }
    }
}

/// Whether a step is among steps.
pub open spec fn among(step: PageStep, steps: Seq<PageStep>) -> bool {
    exists|i: int| 0 <= i < steps.len() && #[trigger] steps[i] == step
}

proof fn lemma_not_among(step: PageStep, steps: Seq<PageStep>)
    requires
        !among(step, steps),
        steps.len() > 0,
    ensures
        steps.last() != step,
        !among(step, steps.drop_last()),
{
    assert(steps[steps.len() - 1] == steps.last());
    assert forall|i: int| 0 <= i < steps.len() - 1 implies #[trigger] steps.drop_last()[i]
        != step by {
        assert(steps[i] != step);
    }
}

proof fn lemma_capture_step(history: Seq<PageStep>, later: Seq<PageStep>, id: Seq<char>)
    requires
        later.len() > 0,
    ensures
        capture(history + later, id) == capture_after(
            id,
            capture(history + later.drop_last(), id),
            later.last(),
        ),
{
    assert((history + later).drop_last() =~= history + later.drop_last());
    assert((history + later).last() == later.last());
}

proof fn lemma_push(history: Seq<PageStep>, step: PageStep, id: Seq<char>)
    ensures
        capture(history.push(step), id) == capture_after(id, capture(history, id), step),
{
    assert(history.push(step).drop_last() =~= history);
}

/// No empty stage is ever recorded.
proof fn lemma_no_empty_stage(history: Seq<PageStep>, id: Seq<char>)
    ensures
        forall|i: int|
            0 <= i < capture(history, id).record.len() ==> (#[trigger] capture(
                history,
                id,
            ).record[i]).len() > 0,
    decreases history.len(),
{
    if history.len() > 0 {
        lemma_no_empty_stage(history.drop_last(), id);
        let before = capture(history.drop_last(), id).record;
        let now = capture(history, id).record;
        assert forall|i: int| 0 <= i < now.len() implies (#[trigger] now[i]).len() > 0 by {
            if i < before.len() {
                assert(before[i].len() > 0);
            }
        }
    }
}

/// What is read under an id is what was recorded under it.
pub proof fn the_record_is_read(history: Seq<PageStep>, id: Seq<char>)
    ensures
        read_stages(history, id) == capture(history, id).record,
{
    lemma_no_empty_stage(history, id);
    recorded_stages_are_read_back(capture(history, id).record);
}

/// Where recording under an id is only started while none is going on, one listener at
/// most is on for it, and that is the one that reading takes off.
pub proof fn one_listener_records(history: Seq<PageStep>, id: Seq<char>)
    requires
        never_restarted(history, id),
    ensures
        capture(history, id).listeners <= 1,
        capture(history, id).last_is_on <==> capture(history, id).listeners == 1,
    decreases history.len(),
{
    if history.len() > 0 {
        one_listener_records(history.drop_last(), id);
    }
}

/// An id under which recording was started once, or never, was not restarted, whatever
/// else happened in the page.
pub proof fn started_once_is_never_restarted(history: Seq<PageStep>, id: Seq<char>)
    requires
        starts(history, id) <= 1,
    ensures
        never_restarted(history, id),
        starts(history, id) == 0 ==> capture(history, id).listeners == 0 && !capture(
            history,
            id,
        ).last_is_on,
    decreases history.len(),
{
    if history.len() > 0 {
        started_once_is_never_restarted(history.drop_last(), id);
    }
}

/// Starting to record under an id empties what was recorded under it, and leaves alone
/// what was recorded and goes on being recorded under every other id, whatever happens
/// later.
pub proof fn a_start_empties_its_own_record(
    history: Seq<PageStep>,
    id: Seq<char>,
    other: Seq<char>,
    later: Seq<PageStep>,
)
    requires
        other != id,
    ensures
        read_stages(history.push(PageStep::Start { id }), id) == Seq::<Seq<char>>::empty(),
        capture(history.push(PageStep::Start { id }) + later, other) == capture(
            history + later,
            other,
        ),
        read_stages(history.push(PageStep::Start { id }) + later, other) == read_stages(
            history + later,
            other,
        ),
    decreases later.len(),
{
    let started = history.push(PageStep::Start { id });
    the_record_is_read(started, id);
    lemma_push(history, PageStep::Start { id }, id);
    if later.len() == 0 {
        lemma_push(history, PageStep::Start { id }, other);
        assert(started + later =~= started);
        assert(history + later =~= history);
    } else {
        a_start_empties_its_own_record(history, id, other, later.drop_last());
        lemma_capture_step(started, later, other);
        lemma_capture_step(history, later, other);
    }
}

proof fn lemma_records_its_flow(
    history: Seq<PageStep>,
    id: Seq<char>,
    later: Seq<PageStep>,
)
    requires
        capture(history, id).listeners == 0,
        !among(PageStep::Start { id }, later),
        !among(PageStep::Read { id }, later),
    ensures
        capture(history.push(PageStep::Start { id }) + later, id) == (Capture {
            record: reported(later, id),
            listeners: 1,
            last_is_on: true,
        }),
    decreases later.len(),
{
    let started = history.push(PageStep::Start { id });
    if later.len() == 0 {
        lemma_push(history, PageStep::Start { id }, id);
        assert(started + later =~= started);
    } else {
        lemma_not_among(PageStep::Start { id }, later);
        lemma_not_among(PageStep::Read { id }, later);
        lemma_records_its_flow(history, id, later.drop_last());
        lemma_capture_step(started, later, id);
        let before = reported(later.drop_last(), id);
        match later.last() {
            PageStep::Progress { flow, stage } => {
                assert(before + Seq::new(1, |i: int| stage) =~= before.push(stage));
            },
            PageStep::Start { id: other } => {
                assert(other != id);
            },
            PageStep::Read { id: other } => {
                assert(other != id);
            },
        }
    }
}

/// Recording that is started under an id while none is going on records exactly the
/// stages that the flow of that name reports from then on, in order, each once, until
/// it is read or started again: stages of before, and of other flows, are not among
/// them.
pub proof fn a_capture_records_its_flow(
    history: Seq<PageStep>,
    id: Seq<char>,
    later: Seq<PageStep>,
)
    requires
        capture(history, id).listeners == 0,
        !among(PageStep::Start { id }, later),
        !among(PageStep::Read { id }, later),
    ensures
        read_stages(history.push(PageStep::Start { id }) + later, id) == reported(later, id),
{
    lemma_records_its_flow(history, id, later);
    the_record_is_read(history.push(PageStep::Start { id }) + later, id);
}

proof fn lemma_stays_read(
    history: Seq<PageStep>,
    id: Seq<char>,
    later: Seq<PageStep>,
)
    requires
        never_restarted(history, id),
        !among(PageStep::Start { id }, later),
    ensures
        capture(history.push(PageStep::Read { id }) + later, id) == (Capture {
            record: capture(history, id).record,
            listeners: 0,
            last_is_on: false,
        }),
    decreases later.len(),
{
    let read = history.push(PageStep::Read { id });
    if later.len() == 0 {
        one_listener_records(history, id);
        lemma_push(history, PageStep::Read { id }, id);
        assert(read + later =~= read);
    } else {
        lemma_not_among(PageStep::Start { id }, later);
        lemma_stays_read(history, id, later.drop_last());
        lemma_capture_step(read, later, id);
        let record = capture(history, id).record;
        match later.last() {
            PageStep::Progress { flow, stage } => {
                assert(record + Seq::new(0, |i: int| stage) =~= record);
            },
            PageStep::Start { id: other } => {
                assert(other != id);
            },
            PageStep::Read { .. } => {},
        }
    }
}

/// Reading ends the recording under an id and consumes nothing: whatever happens later,
/// short of a new start under the id, a second reading gives what the first gave, and
/// no listener is on for the id.
pub proof fn reading_ends_the_recording(
    history: Seq<PageStep>,
    id: Seq<char>,
    later: Seq<PageStep>,
)
    requires
        never_restarted(history, id),
        !among(PageStep::Start { id }, later),
    ensures
        read_stages(history.push(PageStep::Read { id }) + later, id) == read_stages(history, id),
        capture(history.push(PageStep::Read { id }) + later, id).listeners == 0,
{
    lemma_stays_read(history, id, later);
    the_record_is_read(history, id);
    the_record_is_read(history.push(PageStep::Read { id }) + later, id);
}

/// Reading under an id leaves alone what is recorded under every other.
pub proof fn a_reading_leaves_others_alone(
    history: Seq<PageStep>,
    id: Seq<char>,
    other: Seq<char>,
)
    requires
        other != id,
    ensures
        capture(history.push(PageStep::Read { id }), other) == capture(history, other),
{
    lemma_push(history, PageStep::Read { id }, other);
}

/// Recording that is started again while it is going on leaves the earlier listener on:
/// a stage is then recorded once for each listener.
pub proof fn a_restart_records_each_stage_again(
    history: Seq<PageStep>,
    id: Seq<char>,
    stage: Seq<char>,
)
    requires
        stage.len() > 0,
    ensures
        read_stages(
            history.push(PageStep::Start { id }).push(PageStep::Progress { flow: id, stage }),
            id,
        ) == Seq::new(capture(history, id).listeners + 1, |i: int| stage),
{
    let started = history.push(PageStep::Start { id });
    let reported = started.push(PageStep::Progress { flow: id, stage });
    lemma_push(history, PageStep::Start { id }, id);
    lemma_push(started, PageStep::Progress { flow: id, stage }, id);
    the_record_is_read(reported, id);
    assert(capture(reported, id).record =~= Seq::new(
        capture(history, id).listeners + 1,
        |i: int| stage,
    ));
}

} // verus!
