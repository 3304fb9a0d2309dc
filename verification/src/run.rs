//! Whole runs of a query, and what holds of every one of them.
//!
//! A run is a query together with the responses it is given, in order. Every
//! law here is stated of all runs, however long, so it holds at each point
//! of a run as well as at its end: each beginning of a run is a run.

use vstd::prelude::*;

use crate::error::{timeout_text, QueryError};
use crate::event::{InternalEvent, OscColorPayload};
use crate::query::{
    begun, conclude, Phase, PollOutcome, Query, QueryResult, ReadOutcome, RequestView, Response,
    Step,
};

verus! {

/// Where `step` has come to once it has taken `responses` in order. A query
/// that is over takes no further response.
pub open spec fn run<E>(step: Step<E>, responses: Seq<Response<E>>) -> Step<E>
    decreases responses.len(),
{
    if responses.len() == 0 {
        step
    } else {
        match step {
            Step::Done(_) => step,
            Step::Next(query) => run(query.next(responses[0]), responses.drop_first()),
        }
    }
}

/// What carrying out `request` does to raw mode, going by its `response`: an
/// enable that succeeded turns it on, a disable that succeeded turns it off,
/// and nothing else changes it.
pub open spec fn raw_mode_after<E>(
    raw_mode: bool,
    request: RequestView,
    response: Response<E>,
) -> bool {
    match (request, response) {
        (RequestView::EnableRawMode, Response::EnableRawMode(Ok(_))) => true,
        (RequestView::DisableRawMode, Response::DisableRawMode(Ok(_))) => false,
        _ => raw_mode,
    }
}

/// Raw mode at the end of the run of `step` on `responses`, where it was
/// `raw_mode` at the start and only the query's requests touch it.
pub open spec fn raw_mode_at_end<E>(
    step: Step<E>,
    raw_mode: bool,
    responses: Seq<Response<E>>,
) -> bool
    decreases responses.len(),
{
    if responses.len() == 0 {
        raw_mode
    } else {
        match step {
            Step::Done(_) => raw_mode,
            Step::Next(query) => raw_mode_at_end(
                query.next(responses[0]),
                raw_mode_after(raw_mode, query.pending(), responses[0]),
                responses.drop_first(),
            ),
        }
    }
}

/// Whether `response` reports a disable that failed.
pub open spec fn is_failed_disable<E>(response: Response<E>) -> bool {
    response matches Response::DisableRawMode(Err(_))
}

/// Whether none of `responses` reports a disable that failed.
pub open spec fn no_disable_failed<E>(responses: Seq<Response<E>>) -> bool {
    forall|i: int| 0 <= i < responses.len() ==> !is_failed_disable(#[trigger] responses[i])
}

/// Whether `request` asks for raw mode to be changed.
pub open spec fn changes_raw_mode(request: RequestView) -> bool {
    request == RequestView::EnableRawMode || request == RequestView::DisableRawMode
}

/// Whether `response` reports that the bytes of `request` went out.
pub open spec fn transmits<E>(request: RequestView, response: Response<E>) -> bool {
    match (request, response) {
        (RequestView::WriteTerminal(_), Response::WriteTerminal(Ok(_))) => true,
        (RequestView::WriteStdout(_), Response::WriteStdout(Ok(_))) => true,
        _ => false,
    }
}

/// How many times the sequence went out in the run of `step` on `responses`.
pub open spec fn transmissions<E>(step: Step<E>, responses: Seq<Response<E>>) -> nat
    decreases responses.len(),
{
    if responses.len() == 0 {
        0
    } else {
        match step {
            Step::Done(_) => 0,
            Step::Next(query) => {
                let sent: nat = if transmits(query.pending(), responses[0]) {
                    1
                } else {
                    0
                };
                sent + transmissions(query.next(responses[0]), responses.drop_first())
            },
        }
    }
}

/// The responses that take a query up to its first poll. Where raw mode is
/// `found` enabled, the query is told so and sends its sequence to the
/// terminal's device; where it is not, the query enables it in between.
pub open spec fn opening<E>(found: bool) -> Seq<Response<E>> {
    if found {
        seq![Response::RawModeStatus(true), Response::WriteTerminal(Ok(()))]
    } else {
        seq![
            Response::RawModeStatus(false),
            Response::EnableRawMode(Ok(())),
            Response::WriteTerminal(Ok(())),
        ]
    }
}

/// `n` polls in a row, each of them interrupted.
pub open spec fn interruptions<E>(n: nat) -> Seq<Response<E>> {
    Seq::new(n, |i: int| Response::Poll(PollOutcome::Interrupted))
}

/// The responses of a query that is interrupted `n` times while it polls and
/// then reads the answer for `slot`.
pub open spec fn answered<E>(slot: u8, n: nat, payload: OscColorPayload) -> Seq<Response<E>> {
    interruptions(n) + seq![
        Response::Poll(PollOutcome::Ready),
        Response::Read(ReadOutcome::Event(InternalEvent::OscColor { slot, payload })),
    ]
}

/// The responses of a query whose poll finds an event and whose read is then
/// interrupted.
pub open spec fn interrupted_read<E>() -> Seq<Response<E>> {
    seq![Response::Poll(PollOutcome::Ready), Response::Read(ReadOutcome::Interrupted)]
}

/// A query that is polling for the answer to `slot`.
pub open spec fn polling<E>(slot: u8, restore: bool) -> Query<E> {
    Query { slot, phase: Phase::Polling { restore } }
}

/// A run on one response is one transition.
pub proof fn lemma_run_of_one<E>(query: Query<E>, response: Response<E>)
    ensures
        run(Step::Next(query), seq![response]) == query.next(response),
{
    assert(seq![response].drop_first().len() == 0);
    reveal_with_fuel(run, 2);
}

/// A run may be taken in two parts.
pub proof fn lemma_run_in_parts<E>(
    step: Step<E>,
    first: Seq<Response<E>>,
    second: Seq<Response<E>>,
)
    ensures
        run(step, first + second) == run(run(step, first), second),
    decreases first.len(),
{
    if first.len() == 0 {
        assert(first + second =~= second);
    } else {
        match step {
            Step::Done(_) => {},
            Step::Next(query) => {
                assert((first + second)[0] == first[0]);
                assert((first + second).drop_first() =~= first.drop_first() + second);
                lemma_run_in_parts(query.next(first[0]), first.drop_first(), second);
            },
        }
    }
}

/// A run that has come to a query goes on from there: one more response is
/// one more transition.
pub proof fn lemma_run_one_more<E>(
    step: Step<E>,
    responses: Seq<Response<E>>,
    query: Query<E>,
    last: Response<E>,
)
    requires
        run(step, responses) == Step::Next(query),
    ensures
        run(step, responses + seq![last]) == query.next(last),
{
    lemma_run_in_parts(step, responses, seq![last]);
    lemma_run_of_one(query, last);
}

/// A response that does not answer the request that is out changes nothing:
/// the query stays where it is, with the same request out.
pub proof fn lemma_stray_response_ignored<E>(query: Query<E>, response: Response<E>)
    requires
        !query.awaits(response),
    ensures
        query.next(response) == Step::Next(query),
{
}

/// An interruption is never the end of a query, whether it struck a poll or a
/// read and wherever the query stands: the query goes on.
pub proof fn lemma_interruption_never_ends<E>(query: Query<E>)
    ensures
        query.next(Response::Poll(PollOutcome::Interrupted)) == Step::Next(query),
        query.next(Response::Read(ReadOutcome::Interrupted)) is Next,
        query.phase matches Phase::Reading { restore } ==> query.next(
            Response::Read(ReadOutcome::Interrupted),
        ) == Step::Next(polling::<E>(query.slot, restore)),
{
}

/// An interrupted poll never shows: whatever a query is given next, the run
/// goes as if the interruption had not been.
pub proof fn lemma_interruption_absorbed<E>(query: Query<E>, responses: Seq<Response<E>>)
    ensures
        run(Step::Next(query), seq![Response::Poll(PollOutcome::Interrupted)] + responses) == run(
            Step::Next(query),
            responses,
        ),
{
    let all = seq![Response::<E>::Poll(PollOutcome::Interrupted)] + responses;
    assert(all[0] == Response::<E>::Poll(PollOutcome::Interrupted));
    assert(all.drop_first() =~= responses);
}

/// Any number of interrupted polls change nothing of a run.
pub proof fn lemma_interruptions_absorbed<E>(
    query: Query<E>,
    n: nat,
    responses: Seq<Response<E>>,
)
    ensures
        run(Step::Next(query), interruptions(n) + responses) == run(Step::Next(query), responses),
    decreases n,
{
    if n == 0 {
        assert(interruptions::<E>(n) + responses =~= responses);
    } else {
        let fewer = interruptions::<E>((n - 1) as nat) + responses;
        assert(interruptions::<E>(n) + responses =~= seq![
            Response::<E>::Poll(PollOutcome::Interrupted),
        ] + fewer);
        lemma_interruption_absorbed(query, fewer);
        lemma_interruptions_absorbed(query, (n - 1) as nat, responses);
    }
}

/// An interrupted read never shows either. A query that is polling, finds an
/// event and is interrupted while it reads, is polling again, and the run
/// goes on as from there.
pub proof fn lemma_interrupted_read_absorbed<E>(
    slot: u8,
    restore: bool,
    responses: Seq<Response<E>>,
)
    ensures
        run(Step::Next(polling::<E>(slot, restore)), interrupted_read() + responses) == run(
            Step::Next(polling::<E>(slot, restore)),
            responses,
        ),
{
    let query = polling::<E>(slot, restore);
    let reading = Query::<E> { slot, phase: Phase::Reading { restore } };
    let round = interrupted_read::<E>();
    assert(run(Step::Next(query), round) == Step::Next(query)) by {
        assert(query.next(round[0]) == Step::Next(reading));
        assert(round.drop_first() =~= seq![round[1]]);
        lemma_run_of_one(reading, round[1]);
    }
    lemma_run_in_parts(Step::Next(query), round, responses);
}

/// What ties a step to the terminal's raw mode, in a query that found raw
/// mode to be `found`: the query owes a disable exactly where it found raw
/// mode disabled and has enabled it since.
spec fn in_step<E>(step: Step<E>, raw_mode: bool, found: bool) -> bool {
    match step {
        Step::Done(_) => raw_mode == found,
        Step::Next(query) => match query.phase {
            Phase::CheckingRawMode => false,
            Phase::EnablingRawMode => !found && !raw_mode,
            Phase::WritingTerminal { restore } => raw_mode && restore == !found,
            Phase::WritingStdout { restore } => raw_mode && restore == !found,
            Phase::Polling { restore } => raw_mode && restore == !found,
            Phase::Reading { restore } => raw_mode && restore == !found,
            Phase::DisablingRawMode { .. } => raw_mode && !found,
        },
    }
}

/// Responses among which no disable failed: the first of them is no failed
/// disable, and none failed among the rest.
proof fn lemma_no_disable_failed_rest<E>(responses: Seq<Response<E>>)
    requires
        responses.len() > 0,
        no_disable_failed(responses),
    ensures
        !is_failed_disable(responses[0]),
        no_disable_failed(responses.drop_first()),
{
    let rest = responses.drop_first();
    assert forall|i: int| 0 <= i < rest.len() implies !is_failed_disable(#[trigger] rest[i]) by {
        assert(rest[i] == responses[i + 1]);
    }
}

/// Every response keeps a step tied to raw mode, unless it is a disable that
/// failed.
proof fn lemma_in_step_kept<E>(
    step: Step<E>,
    raw_mode: bool,
    found: bool,
    responses: Seq<Response<E>>,
)
    requires
        in_step(step, raw_mode, found),
        no_disable_failed(responses),
    ensures
        in_step(run(step, responses), raw_mode_at_end(step, raw_mode, responses), found),
    decreases responses.len(),
{
    if responses.len() > 0 {
        if let Step::Next(query) = step {
            lemma_no_disable_failed_rest(responses);
            lemma_in_step_kept(
                query.next(responses[0]),
                raw_mode_after(raw_mode, query.pending(), responses[0]),
                found,
                responses.drop_first(),
            );
        }
    }
}

/// A query leaves raw mode as it found it. Take a run that is over, whose
/// first response told the query what raw mode was, and in which no disable
/// failed: raw mode is at the end what it was at the start.
pub proof fn lemma_raw_mode_as_found<E>(slot: u8, raw_mode: bool, responses: Seq<Response<E>>)
    requires
        responses.len() > 0,
        responses[0] == Response::<E>::RawModeStatus(raw_mode),
        no_disable_failed(responses),
        run(begun::<E>(slot), responses) is Done,
    ensures
        raw_mode_at_end(begun::<E>(slot), raw_mode, responses) == raw_mode,
{
    let query = Query::<E> { slot, phase: Phase::CheckingRawMode };
    lemma_no_disable_failed_rest(responses);
    lemma_in_step_kept(query.next(responses[0]), raw_mode, raw_mode, responses.drop_first());
}

/// Whether a step belongs to a query that found raw mode enabled and so has
/// nothing to restore.
spec fn hands_off<E>(step: Step<E>) -> bool {
    match step {
        Step::Done(_) => true,
        Step::Next(query) => match query.phase {
            Phase::WritingTerminal { restore } => !restore,
            Phase::WritingStdout { restore } => !restore,
            Phase::Polling { restore } => !restore,
            Phase::Reading { restore } => !restore,
            _ => false,
        },
    }
}

/// A query with nothing to restore stays so, and raw mode stays enabled.
proof fn lemma_hands_off_kept<E>(step: Step<E>, responses: Seq<Response<E>>)
    requires
        hands_off(step),
    ensures
        hands_off(run(step, responses)),
        raw_mode_at_end(step, true, responses),
    decreases responses.len(),
{
    if responses.len() > 0 {
        if let Step::Next(query) = step {
            lemma_hands_off_kept(query.next(responses[0]), responses.drop_first());
        }
    }
}

/// A query that finds raw mode enabled never asks for it to be changed. In a
/// run whose first response reports raw mode enabled, the request that is out
/// is neither an enable nor a disable, at any point, and raw mode is enabled
/// throughout, whether or not the run is over and however it went.
pub proof fn lemma_raw_mode_untouched<E>(slot: u8, responses: Seq<Response<E>>)
    requires
        responses.len() > 0,
        responses[0] == Response::<E>::RawModeStatus(true),
    ensures
        run(begun::<E>(slot), responses) matches Step::Next(query) ==> !changes_raw_mode(
            query.pending(),
        ),
        raw_mode_at_end(begun::<E>(slot), true, responses),
{
    let query = Query::<E> { slot, phase: Phase::CheckingRawMode };
    lemma_hands_off_kept(query.next(responses[0]), responses.drop_first());
}

/// What a result says of the sequence, in a query for `slot` that has sent it
/// `sent` times: an answer or a timeout comes only after the sequence went
/// out, once, and a timeout names the slot that was asked for.
spec fn accounted<E>(result: QueryResult<E>, sent: nat, slot: u8) -> bool {
    &&& sent <= 1
    &&& result is Ok ==> sent == 1
    &&& result matches Err(QueryError::Timeout { slot: named }) ==> named == slot && sent == 1
}

/// What ties a step to the number of times the sequence has gone out.
spec fn sent_so_far<E>(step: Step<E>, sent: nat, slot: u8) -> bool {
    match step {
        Step::Done(result) => accounted(result, sent, slot),
        Step::Next(query) => query.slot == slot && match query.phase {
            Phase::CheckingRawMode => sent == 0,
            Phase::EnablingRawMode => sent == 0,
            Phase::WritingTerminal { .. } => sent == 0,
            Phase::WritingStdout { .. } => sent == 0,
            Phase::Polling { .. } => sent == 1,
            Phase::Reading { .. } => sent == 1,
            Phase::DisablingRawMode { result } => accounted(result, sent, slot),
        },
    }
}

/// Every response keeps a step tied to the count of what has gone out.
proof fn lemma_sent_so_far_kept<E>(
    step: Step<E>,
    sent: nat,
    slot: u8,
    responses: Seq<Response<E>>,
)
    requires
        sent_so_far(step, sent, slot),
    ensures
        sent_so_far(run(step, responses), sent + transmissions(step, responses), slot),
    decreases responses.len(),
{
    if responses.len() > 0 {
        if let Step::Next(query) = step {
            let now: nat = if transmits(query.pending(), responses[0]) {
                1
            } else {
                0
            };
            lemma_sent_so_far_kept(
                query.next(responses[0]),
                sent + now,
                slot,
                responses.drop_first(),
            );
        }
    }
}

/// One query sends one sequence. In any run of a query for `slot`, the
/// sequence goes out at most once, by the terminal's device or by standard
/// output and never by both; it has gone out exactly once wherever the query
/// waits for the answer, has the answer, or has timed out; and the query
/// stays with its slot, so that every write it asks for carries the sequence
/// for `slot` and a timeout names `slot`.
pub proof fn lemma_one_sequence_sent<E>(slot: u8, responses: Seq<Response<E>>)
    ensures
        transmissions(begun::<E>(slot), responses) <= 1,
        match run(begun::<E>(slot), responses) {
            Step::Next(query) => {
                &&& query.slot == slot
                &&& query.phase is Polling || query.phase is Reading ==> transmissions(
                    begun::<E>(slot),
                    responses,
                ) == 1
            },
            Step::Done(Ok(_)) => transmissions(begun::<E>(slot), responses) == 1,
            Step::Done(Err(QueryError::Timeout { slot: named })) => {
                &&& named == slot
                &&& transmissions(begun::<E>(slot), responses) == 1
            },
            Step::Done(Err(_)) => true,
        },
{
    lemma_sent_so_far_kept(begun::<E>(slot), 0, slot, responses);
}

/// The opening of a query ends at its first poll: the query has sent its
/// sequence, and owes a disable exactly where it found raw mode disabled.
pub proof fn lemma_opening_leads_to_polling<E>(slot: u8, found: bool)
    ensures
        run(begun::<E>(slot), opening(found)) == Step::Next(polling::<E>(slot, !found)),
{
    let responses = opening::<E>(found);
    assert(responses.drop_first()[0] == responses[1]);
    if found {
        assert(responses.drop_first().drop_first().len() == 0);
    } else {
        assert(responses.drop_first().drop_first()[0] == responses[2]);
        assert(responses.drop_first().drop_first().drop_first().len() == 0);
    }
    reveal_with_fuel(run, 4);
}

/// Interrupted polls followed by an answer give the answer. A query that is
/// polling, `n` times interrupted, then told that an answer is ready and
/// given the answer for its slot, ends its exchange with the colour in that
/// answer, or with `None` where the answer holds no colour.
pub proof fn lemma_interrupted_then_answered<E>(
    slot: u8,
    restore: bool,
    n: nat,
    payload: OscColorPayload,
)
    ensures
        run(Step::Next(polling::<E>(slot, restore)), answered(slot, n, payload)) == conclude::<E>(
            slot,
            restore,
            Ok(payload.color()),
        ),
{
    let query = polling::<E>(slot, restore);
    let reading = Query::<E> { slot, phase: Phase::Reading { restore } };
    let answer = seq![
        Response::<E>::Poll(PollOutcome::Ready),
        Response::<E>::Read(ReadOutcome::Event(InternalEvent::OscColor { slot, payload })),
    ];
    lemma_interruptions_absorbed(query, n, answer);
    assert(query.next(answer[0]) == Step::Next(reading));
    assert(answer.drop_first() =~= seq![answer[1]]);
    lemma_run_of_one(reading, answer[1]);
}

/// An interrupted read followed by an answer gives the answer. A query that
/// is polling, finds an event, is interrupted while it reads, polls again
/// and is then answered, ends its exchange with the colour in that answer,
/// or with `None` where the answer holds no colour. The interruption is not
/// the query's result.
pub proof fn lemma_interrupted_read_then_answered<E>(
    slot: u8,
    restore: bool,
    n: nat,
    payload: OscColorPayload,
)
    ensures
        run(
            Step::Next(polling::<E>(slot, restore)),
            interrupted_read() + answered(slot, n, payload),
        ) == conclude::<E>(slot, restore, Ok(payload.color())),
{
    lemma_interrupted_read_absorbed::<E>(slot, restore, answered(slot, n, payload));
    lemma_interrupted_then_answered::<E>(slot, restore, n, payload);
}

/// A query on a terminal in raw mode, answered. The query learns that raw
/// mode is enabled, sends its sequence to the terminal's device, is
/// interrupted `n` times while it polls, and then reads the answer for its
/// slot. It is over with the colour in that answer, or with `None` where the
/// answer holds no colour.
pub proof fn lemma_answered_in_raw_mode<E>(slot: u8, n: nat, payload: OscColorPayload)
    ensures
        run(begun::<E>(slot), opening(true) + answered(slot, n, payload)) == Step::<E>::Done(
            Ok(payload.color()),
        ),
{
    lemma_opening_leads_to_polling::<E>(slot, true);
    lemma_run_in_parts(begun::<E>(slot), opening(true), answered(slot, n, payload));
    lemma_interrupted_then_answered::<E>(slot, false, n, payload);
}

/// A query whose read is interrupted, answered all the same. The query
/// learns that raw mode is enabled, sends its sequence, finds an event and is
/// interrupted while it reads, polls again, and then reads the answer for its
/// slot. It is over with the colour in that answer, or with `None` where the
/// answer holds no colour.
pub proof fn lemma_answered_after_interrupted_read<E>(
    slot: u8,
    n: nat,
    payload: OscColorPayload,
)
    ensures
        run(
            begun::<E>(slot),
            opening(true) + (interrupted_read() + answered(slot, n, payload)),
        ) == Step::<E>::Done(Ok(payload.color())),
{
    lemma_opening_leads_to_polling::<E>(slot, true);
    lemma_run_in_parts(
        begun::<E>(slot),
        opening(true),
        interrupted_read() + answered(slot, n, payload),
    );
    lemma_interrupted_read_then_answered::<E>(slot, false, n, payload);
}

/// A query that enabled raw mode and has read its answer keeps the answer and
/// asks for the disable.
proof fn lemma_disable_owed<E>(slot: u8, n: nat, payload: OscColorPayload)
    ensures
        run(begun::<E>(slot), opening(false) + answered(slot, n, payload)) == Step::Next(
            Query::<E> { slot, phase: Phase::DisablingRawMode { result: Ok(payload.color()) } },
        ),
{
    lemma_opening_leads_to_polling::<E>(slot, false);
    lemma_run_in_parts(begun::<E>(slot), opening(false), answered(slot, n, payload));
    lemma_interrupted_then_answered::<E>(slot, true, n, payload);
}

/// A query that has to enable raw mode, answered. The query learns that raw
/// mode is disabled and enables it, sends its sequence to the terminal's
/// device, is interrupted `n` times while it polls, reads the answer for its
/// slot, and disables raw mode. It is over with the colour in that answer, or
/// with `None` where the answer holds no colour.
pub proof fn lemma_answered_after_enabling<E>(slot: u8, n: nat, payload: OscColorPayload)
    ensures
        run(
            begun::<E>(slot),
            (opening(false) + answered(slot, n, payload)) + seq![Response::DisableRawMode(Ok(()))],
        ) == Step::<E>::Done(Ok(payload.color())),
{
    lemma_disable_owed::<E>(slot, n, payload);
    lemma_run_one_more(
        begun::<E>(slot),
        opening(false) + answered(slot, n, payload),
        Query::<E> { slot, phase: Phase::DisablingRawMode { result: Ok(payload.color()) } },
        Response::DisableRawMode(Ok(())),
    );
}

/// A disable that fails takes the place of the answer. The query enables raw
/// mode, sends its sequence, reads the answer for its slot, and fails to
/// disable raw mode again. It is over with that failure, and the colour it
/// had read is lost.
pub proof fn lemma_failed_disable_prevails<E>(
    slot: u8,
    n: nat,
    payload: OscColorPayload,
    failure: E,
)
    ensures
        run(
            begun::<E>(slot),
            (opening(false) + answered(slot, n, payload)) + seq![
                Response::DisableRawMode(Err(failure)),
            ],
        ) == Step::<E>::Done(Err(QueryError::Io(failure))),
{
    lemma_disable_owed::<E>(slot, n, payload);
    lemma_run_one_more(
        begun::<E>(slot),
        opening(false) + answered(slot, n, payload),
        Query::<E> { slot, phase: Phase::DisablingRawMode { result: Ok(payload.color()) } },
        Response::DisableRawMode(Err(failure)),
    );
}

/// A query that is not answered in time. The query learns that raw mode is
/// enabled, sends its sequence to the terminal's device, is interrupted `n`
/// times while it polls, and is then told that the timeout has passed. It is
/// over with `Timeout` for its slot, and the message of that error names the
/// slot.
pub proof fn lemma_timed_out<E>(slot: u8, n: nat)
    ensures
        run(
            begun::<E>(slot),
            opening(true) + (interruptions(n) + seq![Response::Poll(PollOutcome::TimedOut)]),
        ) == Step::<E>::Done(Err(QueryError::Timeout { slot })),
        (QueryError::<E>::Timeout { slot }).text() == Some(timeout_text(slot)),
{
    let silence = seq![Response::<E>::Poll(PollOutcome::TimedOut)];
    lemma_opening_leads_to_polling::<E>(slot, true);
    lemma_run_in_parts(begun::<E>(slot), opening(true), interruptions::<E>(n) + silence);
    lemma_interruptions_absorbed(polling::<E>(slot, false), n, silence);
    lemma_run_of_one(polling::<E>(slot, false), silence[0]);
}

} // verus!
