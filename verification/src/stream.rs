//! What holds of the streams of events that one thread writes: how the starts
//! and ends of callbacks nest, and that a callback is registered before it
//! runs.

use crate::event::{EventView, TraceEvent};
use crate::sink::views;
use vstd::prelude::*;

verus! {

/// `event` is the start of an invocation of the callback `token`.
pub open spec fn is_start(event: EventView, token: usize) -> bool {
    event matches EventView::CallbackStart { callback, .. } && callback == token
}

/// `event` is the end of an invocation of the callback `token`.
pub open spec fn is_end(event: EventView, token: usize) -> bool {
    event matches EventView::CallbackEnd { callback } && callback == token
}

/// `event` ties the callback `token` to the entity that owns it.
pub open spec fn is_added(event: EventView, token: usize) -> bool {
    match event {
        EventView::ServiceCallbackAdded { callback, .. } => callback == token,
        EventView::TimerCallbackAdded { callback, .. } => callback == token,
        EventView::SubscriptionCallbackAdded { callback, .. } => callback == token,
        _ => false,
    }
}

/// `event` binds the callback `token` to its symbolic name.
pub open spec fn is_register(event: EventView, token: usize) -> bool {
    event matches EventView::CallbackRegister { callback, .. } && callback == token
}

/// The number of starts of the callback `token` among `events`.
pub open spec fn starts(events: Seq<EventView>, token: usize) -> nat
    decreases events.len(),
{
    if events.len() == 0 {
        0
    } else {
        starts(events.drop_last(), token) + if is_start(events.last(), token) {
            1nat
        } else {
            0nat
        }
    }
}

/// The number of ends of the callback `token` among `events`.
pub open spec fn ends(events: Seq<EventView>, token: usize) -> nat
    decreases events.len(),
{
    if events.len() == 0 {
        0
    } else {
        ends(events.drop_last(), token) + if is_end(events.last(), token) {
            1nat
        } else {
            0nat
        }
    }
}

/// How often the callback `token` occurs among the running callbacks `open`.
pub open spec fn depth(open: Seq<usize>, token: usize) -> nat
    decreases open.len(),
{
    if open.len() == 0 {
        0
    } else {
        depth(open.drop_last(), token) + if open.last() == token {
            1nat
        } else {
            0nat
        }
    }
}

/// The running callbacks after `event`, where `open` are the callbacks that
/// run before it, the innermost last. A start opens an invocation; an end
/// closes the innermost one and must bear its token, else there is no
/// result. Other events leave `open` as it is.
pub open spec fn step(open: Seq<usize>, event: EventView) -> Option<Seq<usize>> {
    match event {
        EventView::CallbackStart { callback, .. } => Some(open.push(callback)),
        EventView::CallbackEnd { callback } => if open.len() > 0 && open.last() == callback {
            Some(open.drop_last())
        } else {
            None
        },
        _ => Some(open),
    }
}

/// The running callbacks after `events`, taken in order from `open`; no
/// result where an end closes anything but the innermost running callback.
pub open spec fn run(open: Seq<usize>, events: Seq<EventView>) -> Option<Seq<usize>>
    decreases events.len(),
{
    if events.len() == 0 {
        Some(open)
    } else {
        match run(open, events.drop_last()) {
            Some(before) => step(before, events.last()),
            None => None,
        }
    }
}

/// Starts and ends nest like a stack: every end closes the innermost running
/// callback, and at the end of `events` nothing runs any more.
pub open spec fn well_nested(events: Seq<EventView>) -> bool {
    run(Seq::empty(), events) == Some(Seq::<usize>::empty())
}

/// The events of one invocation of the callback `token` during which `inner`
/// is written.
pub open spec fn bracket(token: usize, is_intra_process: bool, inner: Seq<EventView>) -> Seq<
    EventView,
> {
    seq![EventView::CallbackStart { callback: token, is_intra_process }] + inner
        + seq![EventView::CallbackEnd { callback: token }]
}

/// The events of one invocation of the callback `token` that writes nothing
/// itself.
pub open spec fn invocation(token: usize) -> Seq<EventView> {
    seq![
        EventView::CallbackStart { callback: token, is_intra_process: false },
        EventView::CallbackEnd { callback: token },
    ]
}

/// The events of `n` invocations of the callback `token`, one after the
/// other.
pub open spec fn invocations(token: usize, n: nat) -> Seq<EventView>
    decreases n,
{
    if n == 0 {
        Seq::empty()
    } else {
        invocations(token, (n - 1) as nat) + invocation(token)
    }
}

/// Wherever `events` start the callback `token`, they have tied it to its
/// owner and then bound it to its name before.
pub open spec fn registered_before_use(events: Seq<EventView>, token: usize) -> bool {
    forall|i: int|
        0 <= i < events.len() && is_start(#[trigger] events[i], token) ==> exists|
            j: int,
            k: int,
        |
            0 <= j < k < i && is_added(#[trigger] events[j], token) && is_register(
                #[trigger] events[k],
                token,
            )
}

/// Running `first` and then `second` is running the two in a row.
pub proof fn lemma_run_concat(open: Seq<usize>, first: Seq<EventView>, second: Seq<EventView>)
    ensures
        run(open, first + second) == match run(open, first) {
            Some(middle) => run(middle, second),
            None => None,
        },
    decreases second.len(),
{
    if second.len() == 0 {
        assert(first + second =~= first);
    } else {
        assert((first + second).drop_last() =~= first + second.drop_last());
        assert((first + second).last() == second.last());
        lemma_run_concat(open, first, second.drop_last());
    }
}

/// Events that nest over nothing nest over any running callbacks, and leave
/// those below untouched.
pub proof fn lemma_run_frame(below: Seq<usize>, events: Seq<EventView>)
    requires
        run(Seq::empty(), events) is Some,
    ensures
        run(below, events) == Some(below + run(Seq::empty(), events)->0),
    decreases events.len(),
{
    if events.len() == 0 {
        assert(below + Seq::<usize>::empty() =~= below);
    } else {
        lemma_run_frame(below, events.drop_last());
        let above = run(Seq::empty(), events.drop_last())->0;
        match events.last() {
            EventView::CallbackStart { callback, .. } => {
                assert((below + above).push(callback) =~= below + above.push(callback));
            },
            EventView::CallbackEnd { callback } => {
                assert((below + above).drop_last() =~= below + above.drop_last());
            },
            _ => {},
        }
    }
}

/// An invocation that brackets well-nested events leaves the running
/// callbacks as they were: the start opens the invocation, whatever runs
/// inside is closed inside, and the end closes the invocation itself.
pub proof fn lemma_bracket_nests(
    before: Seq<EventView>,
    token: usize,
    is_intra_process: bool,
    inner: Seq<EventView>,
)
    requires
        run(Seq::empty(), before) is Some,
        well_nested(inner),
    ensures
        run(Seq::empty(), before + bracket(token, is_intra_process, inner)) == run(
            Seq::empty(),
            before,
        ),
{
    let open = run(Seq::empty(), before)->0;
    let start = seq![EventView::CallbackStart { callback: token, is_intra_process }];
    let end = seq![EventView::CallbackEnd { callback: token }];
    let running = open.push(token);
    assert(run(open, start) == Some(running)) by {
        reveal_with_fuel(run, 2);
        assert(start.drop_last() =~= Seq::<EventView>::empty());
    }
    assert(run(running, inner) == Some(running)) by {
        lemma_run_frame(running, inner);
        assert(running + Seq::<usize>::empty() =~= running);
    }
    assert(run(running, end) == Some(open)) by {
        reveal_with_fuel(run, 2);
        assert(end.drop_last() =~= Seq::<EventView>::empty());
        assert(running.drop_last() =~= open);
    }
    lemma_run_concat(open, start, inner);
    lemma_run_concat(open, start + inner, end);
    lemma_run_concat(Seq::empty(), before, bracket(token, is_intra_process, inner));
}

/// In events that nest, each callback has been started once more than it has
/// been ended for every time it is still running.
pub proof fn lemma_starts_match_ends(events: Seq<EventView>, token: usize)
    requires
        run(Seq::empty(), events) is Some,
    ensures
        starts(events, token) == ends(events, token) + depth(
            run(Seq::empty(), events)->0,
            token,
        ),
    decreases events.len(),
{
    if events.len() > 0 {
        lemma_starts_match_ends(events.drop_last(), token);
        let open = run(Seq::empty(), events.drop_last())->0;
        match events.last() {
            EventView::CallbackStart { callback, .. } => {
                assert(open.push(callback).drop_last() =~= open);
            },
            _ => {},
        }
    }
}

/// Well-nested events hold as many starts as ends of each callback.
pub proof fn lemma_well_nested_is_balanced(events: Seq<EventView>, token: usize)
    requires
        well_nested(events),
    ensures
        starts(events, token) == ends(events, token),
{
    lemma_starts_match_ends(events, token);
}

/// The starts among events written in a row are those of the first part and
/// those of the second, and so for the ends.
pub proof fn lemma_counts_concat(first: Seq<EventView>, second: Seq<EventView>, token: usize)
    ensures
        starts(first + second, token) == starts(first, token) + starts(second, token),
        ends(first + second, token) == ends(first, token) + ends(second, token),
    decreases second.len(),
{
    if second.len() == 0 {
        assert(first + second =~= first);
    } else {
        assert((first + second).drop_last() =~= first + second.drop_last());
        assert((first + second).last() == second.last());
        lemma_counts_concat(first, second.drop_last(), token);
    }
}

/// Any number of invocations of one callback, one after the other, writes
/// that many starts and as many ends, and every end closes the start before
/// it.
pub proof fn lemma_invocations_balanced(token: usize, n: nat)
    ensures
        well_nested(invocations(token, n)),
        starts(invocations(token, n), token) == n,
        ends(invocations(token, n), token) == n,
    decreases n,
{
    if n > 0 {
        let earlier = invocations(token, (n - 1) as nat);
        lemma_invocations_balanced(token, (n - 1) as nat);
        assert(invocation(token) =~= bracket(token, false, Seq::empty()));
        lemma_bracket_nests(earlier, token, false, Seq::empty());
        lemma_counts_concat(earlier, invocation(token), token);
        assert(starts(invocation(token), token) == 1 && ends(invocation(token), token) == 1) by {
            reveal_with_fuel(starts, 3);
            reveal_with_fuel(ends, 3);
            assert(invocation(token).drop_last().drop_last() =~= Seq::<EventView>::empty());
        }
    }
}

/// Where a callback's registration is written after events that do not start
/// it, every start of the callback, whatever else is written later, comes
/// after the event that ties it to its owner and the event that binds it to
/// its name, in that order.
pub proof fn lemma_registration_precedes_use(
    before: Seq<EventView>,
    added: EventView,
    register: EventView,
    later: Seq<EventView>,
    token: usize,
)
    requires
        forall|i: int| 0 <= i < before.len() ==> !is_start(#[trigger] before[i], token),
        is_added(added, token),
        is_register(register, token),
    ensures
        registered_before_use(before + seq![added, register] + later, token),
{
    let events = before + seq![added, register] + later;
    let j: int = before.len() as int;
    assert forall|i: int| 0 <= i < events.len() && is_start(#[trigger] events[i], token) implies (
    exists|j: int, k: int|
        0 <= j < k < i && is_added(#[trigger] events[j], token) && is_register(
            #[trigger] events[k],
            token,
        )) by {
        if i < before.len() {
            assert(events[i] == before[i]);
        }
        assert(is_added(events[j], token));
        assert(is_register(events[j + 1], token));
    }
}

/// Events that do not nest cannot be mended by what is written after them.
pub proof fn lemma_run_prefix(events: Seq<EventView>, n: int)
    requires
        0 <= n <= events.len(),
    ensures
        run(Seq::empty(), events.take(n)) is None ==> run(Seq::empty(), events) is None,
{
    assert(events.take(n) + events.skip(n) =~= events);
    lemma_run_concat(Seq::empty(), events.take(n), events.skip(n));
}

/// The callbacks that run after `events`, the innermost last, or nothing
/// where an end among `events` closes anything but the innermost running
/// callback.
pub fn running_after(events: &Vec<TraceEvent>) -> (running: Option<Vec<usize>>)
    ensures
        running is Some <==> run(Seq::empty(), views(events@)) is Some,
        running matches Some(open) ==> run(Seq::empty(), views(events@)) == Some(open@),
{
    let mut open: Vec<usize> = Vec::new();
    let mut i: usize = 0;
    while i < events.len()
        invariant
            i <= events.len(),
            run(Seq::empty(), views(events@).take(i as int)) == Some(open@),
        decreases events.len() - i,
    {
        let ghost seen = views(events@).take(i as int);
        let ghost next = views(events@).take(i + 1);
        proof {
            assert(next.drop_last() =~= seen);
            assert(next.last() == events@[i as int]@);
            lemma_run_prefix(views(events@), i + 1);
        }
        match &events[i] {
            TraceEvent::CallbackStart { callback, .. } => {
                open.push(*callback);
            },
            TraceEvent::CallbackEnd { callback } => {
                if open.len() > 0 && open[open.len() - 1] == *callback {
                    open.pop();
                } else {
                    return None;
                }
            },
            _ => {},
        }
        i += 1;
    }
    proof {
        assert(views(events@).take(i as int) =~= views(events@));
    }
    Some(open)
}

/// Whether starts and ends among `events` nest like a stack and nothing is
/// left running.
pub fn is_well_nested(events: &Vec<TraceEvent>) -> (nested: bool)
    ensures
        nested == well_nested(views(events@)),
{
    match running_after(events) {
        Some(open) => {
            assert(open.len() == 0 <==> open@ =~= Seq::<usize>::empty());
            open.len() == 0
        },
        None => false,
    }
}

} // verus!
