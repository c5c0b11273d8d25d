//! Whole reports: what a sequence of events brings about, and what holds of every one.

use crate::clock::Moment;
use crate::idle::counts_as_present;
use crate::payload::{
    error_marker, failure_words, lemma_failure_message_is_marked, lemma_message_embeds_stamp,
    lemma_success_message_is_marked, occurs_in, success_marker, success_words,
};
use crate::report::{
    beginning, next, notification_for, outcome_of, request_for, ActionView, Event, ReadError,
    State, STATUS_DELIVERED,
};
use vstd::prelude::*;

verus! {

/// The actions that `events`, arriving one after the other from `state` on, ask for.
pub open spec fn run(url: Seq<char>, token: Seq<char>, state: State, events: Seq<Event>) -> Seq<
    ActionView,
>
    decreases events.len(),
{
    if events.len() == 0 {
        Seq::empty()
    } else {
        let (after, action) = next(url, token, state, events.first());
        seq![action] + run(url, token, after, events.drop_first())
    }
}

/// How many requests `actions` send.
pub open spec fn posts(actions: Seq<ActionView>) -> nat
    decreases actions.len(),
{
    if actions.len() == 0 {
        0
    } else if actions.first() is Post {
        1 + posts(actions.drop_first())
    } else {
        posts(actions.drop_first())
    }
}

/// How many notifications `actions` emit.
pub open spec fn emits(actions: Seq<ActionView>) -> nat
    decreases actions.len(),
{
    if actions.len() == 0 {
        0
    } else if actions.first() is Emit {
        1 + emits(actions.drop_first())
    } else {
        emits(actions.drop_first())
    }
}

proof fn lemma_count_after_one(action: ActionView, rest: Seq<ActionView>)
    ensures
        posts(seq![action] + rest) == (if action is Post {
            1nat
        } else {
            0nat
        }) + posts(rest),
        emits(seq![action] + rest) == (if action is Emit {
            1nat
        } else {
            0nat
        }) + emits(rest),
{
    let all = seq![action] + rest;
    assert(all.first() == action);
    assert(all.drop_first() =~= rest);
}

proof fn lemma_run_after_one(
    url: Seq<char>,
    token: Seq<char>,
    state: State,
    event: Event,
    rest: Seq<Event>,
)
    ensures
        run(url, token, state, seq![event] + rest) == seq![next(url, token, state, event).1] + run(
            url,
            token,
            next(url, token, state, event).0,
            rest,
        ),
{
    let all = seq![event] + rest;
    assert(all.first() == event);
    assert(all.drop_first() =~= rest);
}

/// Where both readings were had, a report begins with the machine's first step on them: what
/// holds of every run of the machine holds of every report that was begun.
pub proof fn lemma_beginning_is_the_first_step(
    url: Seq<char>,
    token: Seq<char>,
    seconds: u64,
    now: Moment,
)
    ensures
        beginning(url, token, Some(seconds), Some(now)) == Ok::<(State, ActionView), ReadError>(
            next(url, token, State::Start, Event::Idle { seconds, now }),
        ),
        !counts_as_present(seconds) ==> beginning(url, token, Some(seconds), None) == beginning(
            url,
            token,
            Some(seconds),
            Some(now),
        ),
{
}

/// No report sends more than one request or emits more than one notification, whatever
/// events reach it and in whatever order; and none emits without having sent.
pub proof fn lemma_at_most_one_of_each(
    url: Seq<char>,
    token: Seq<char>,
    state: State,
    events: Seq<Event>,
)
    ensures
        posts(run(url, token, state, events)) <= 1,
        emits(run(url, token, state, events)) <= 1,
        state is Start ==> emits(run(url, token, state, events)) <= posts(
            run(url, token, state, events),
        ),
        state is InFlight ==> posts(run(url, token, state, events)) == 0,
        state is Done ==> posts(run(url, token, state, events)) == 0 && emits(
            run(url, token, state, events),
        ) == 0,
    decreases events.len(),
{
    if events.len() > 0 {
        let (after, action) = next(url, token, state, events.first());
        let rest = events.drop_first();
        lemma_at_most_one_of_each(url, token, after, rest);
        lemma_count_after_one(action, run(url, token, after, rest));
    }
}

/// A user idle for two minutes or longer is not reported: no request is sent and no
/// notification is emitted, whatever comes after.
pub proof fn lemma_idle_user_is_not_reported(
    url: Seq<char>,
    token: Seq<char>,
    seconds: u64,
    now: Moment,
    rest: Seq<Event>,
)
    requires
        !counts_as_present(seconds),
    ensures
        posts(run(url, token, State::Start, seq![Event::Idle { seconds, now }] + rest)) == 0,
        emits(run(url, token, State::Start, seq![Event::Idle { seconds, now }] + rest)) == 0,
{
    let first = Event::Idle { seconds, now };
    lemma_run_after_one(url, token, State::Start, first, rest);
    lemma_at_most_one_of_each(url, token, State::Done, rest);
    lemma_count_after_one(ActionView::Nothing, run(url, token, State::Done, rest));
}

/// A user idle for less than two minutes is reported exactly once: the report sends one
/// request, stamped with the moment it was made, and once the attempt has ended it emits
/// one notification, stamped with the same moment. Nothing that comes after adds to either.
pub proof fn lemma_present_user_is_reported_once(
    url: Seq<char>,
    token: Seq<char>,
    seconds: u64,
    now: Moment,
    end: Event,
    rest: Seq<Event>,
)
    requires
        counts_as_present(seconds),
        outcome_of(end) is Some,
    ensures
        ({
            let actions = run(
                url,
                token,
                State::Start,
                seq![Event::Idle { seconds, now }, end] + rest,
            );
            &&& posts(actions) == 1
            &&& emits(actions) == 1
            &&& actions[0] == ActionView::Post(request_for(url, token, now))
            &&& actions[1] == ActionView::Emit(notification_for(now, outcome_of(end).unwrap()))
        }),
{
    let first = Event::Idle { seconds, now };
    let in_flight = State::InFlight { stamped: now };
    let post = ActionView::Post(request_for(url, token, now));
    let emit = ActionView::Emit(notification_for(now, outcome_of(end).unwrap()));
    assert(seq![first, end] + rest =~= seq![first] + (seq![end] + rest));
    lemma_run_after_one(url, token, State::Start, first, seq![end] + rest);
    lemma_run_after_one(url, token, in_flight, end, rest);
    let tail = run(url, token, State::Done, rest);
    lemma_at_most_one_of_each(url, token, State::Done, rest);
    lemma_count_after_one(emit, tail);
    lemma_count_after_one(post, seq![emit] + tail);
}

/// The notification of a report carries, in RFC 3339 form, the very moment that its request
/// carried in readable form.
pub proof fn lemma_notification_carries_the_request_time(
    url: Seq<char>,
    token: Seq<char>,
    seconds: u64,
    now: Moment,
    end: Event,
)
    requires
        counts_as_present(seconds),
        outcome_of(end) is Some,
    ensures
        ({
            let (in_flight, first) = next(url, token, State::Start, Event::Idle { seconds, now });
            let (_, second) = next(url, token, in_flight, end);
            &&& first matches ActionView::Post(request) && request.payload.timestamp
                == now@.local_text()
            &&& second matches ActionView::Emit(payload) && occurs_in(
                now@.rfc3339(),
                payload.message,
            )
        }),
{
    lemma_message_embeds_stamp(outcome_of(end).unwrap(), now@.rfc3339());
}

/// An answer with status 200 is shown as a success: the notification carries the
/// `time-success` class and the words "Data sent to server".
pub proof fn lemma_status_200_is_shown_as_success(
    url: Seq<char>,
    token: Seq<char>,
    stamped: Moment,
)
    ensures
        next(url, token, State::InFlight { stamped }, Event::Response { status: 200 }).1 matches ActionView::Emit(
            payload,
        ) && occurs_in(success_marker(), payload.message) && occurs_in(
            success_words(),
            payload.message,
        ),
{
    lemma_success_message_is_marked(stamped@.rfc3339());
}

/// Every other end of an attempt is shown as a failure, a transport error like an answer
/// with a status other than 200: the notification carries the `time-error` class and the
/// words "Error sending data to server".
pub proof fn lemma_any_other_end_is_shown_as_failure(
    url: Seq<char>,
    token: Seq<char>,
    stamped: Moment,
    end: Event,
)
    requires
        end is TransportError || (end matches Event::Response { status } && status
            != STATUS_DELIVERED),
    ensures
        next(url, token, State::InFlight { stamped }, end).1 matches ActionView::Emit(payload)
            && occurs_in(error_marker(), payload.message) && occurs_in(
            failure_words(),
            payload.message,
        ),
{
    lemma_failure_message_is_marked(stamped@.rfc3339());
}

} // verus!
