//! What holds of every run of a monitor, and of the path encoding.
use vstd::prelude::*;
use vstd::utf8::is_ascii_chars;

use crate::encode::{escape, escape_char, is_alnum, segment};
use crate::error::{Error, Operation};
use crate::monitor::{transition, Command, Event, Phase};

verus! {

/// The phase reached from `p` once the events `es` have arrived in order.
pub open spec fn run(p: Phase, es: Seq<Event>) -> Phase
    decreases es.len(),
{
    if es.len() == 0 {
        p
    } else {
        let q = run(p, es.drop_last());
        match transition(q, es.last()) {
            Some((n, _)) => n,
            None => q,
        }
    }
}

/// The kinds of the actions asked for along the way, `Ignore` left out.
pub open spec fn commands(p: Phase, es: Seq<Event>) -> Seq<Command>
    decreases es.len(),
{
    if es.len() == 0 {
        Seq::empty()
    } else {
        commands(p, es.drop_last()) + match transition(run(p, es.drop_last()), es.last()) {
            Some((_, c)) => seq![c],
            None => Seq::empty(),
        }
    }
}

/// The `i`-th action of a monitor that meets no failure: build the proxy,
/// subscribe, then query, publish and wait, over and over.
pub open spec fn scheduled(i: nat) -> Command {
    if i == 0 {
        Command::BuildProxy
    } else if i == 1 {
        Command::Subscribe
    } else if (i - 2) % 3 == 0 {
        Command::Query
    } else if (i - 2) % 3 == 1 {
        Command::Publish
    } else {
        Command::AwaitChange
    }
}

/// How many actions a monitor has asked for once it stands in `p`.
spec fn count_fits(p: Phase, n: nat) -> bool {
    match p {
        Phase::Connecting => n == 0,
        Phase::BuildingProxy => n == 1,
        Phase::Subscribing => n == 2,
        Phase::Querying => n >= 3 && (n - 3) % 3 == 0,
        Phase::Publishing(_) => n >= 4 && (n - 4) % 3 == 0,
        Phase::Waiting => n >= 5 && (n - 5) % 3 == 0,
        Phase::Failed(_) => n >= 1,
    }
}

spec fn follows_schedule(cs: Seq<Command>, p: Phase) -> bool {
    &&& count_fits(p, cs.len())
    &&& p is Failed ==> cs.last() == Command::Fail
    &&& forall|i: int|
        0 <= i < cs.len() && !(p is Failed && i == cs.len() - 1) ==> cs[i] == scheduled(
            i as nat,
        )
}

proof fn lemma_follows_schedule(es: Seq<Event>)
    ensures
        follows_schedule(commands(Phase::Connecting, es), run(Phase::Connecting, es)),
    decreases es.len(),
{
    if es.len() > 0 {
        let pre = es.drop_last();
        lemma_follows_schedule(pre);
        let cs0 = commands(Phase::Connecting, pre);
        let cs = commands(Phase::Connecting, es);
        let q = run(Phase::Connecting, pre);
        match transition(q, es.last()) {
            Some((_, c)) => {
                assert(cs == cs0.push(c));
                assert(c == scheduled(cs0.len()) || c == Command::Fail);
                assert forall|i: int| 0 <= i < cs0.len() implies cs[i] == cs0[i] by {}
            },
            None => {
                assert(cs =~= cs0);
            },
        }
    }
}

/// A monitor asks first to build the proxy, then to subscribe, and only
/// then to query; from there it queries, publishes and waits, in that order
/// and over and over, so that each wait is followed by exactly one query
/// before the next wait. A failure can only be the last thing it asks for.
pub proof fn lemma_command_order(es: Seq<Event>)
    ensures
        forall|i: int|
            0 <= i < commands(Phase::Connecting, es).len() ==> {
                ||| commands(Phase::Connecting, es)[i] == scheduled(i as nat)
                ||| commands(Phase::Connecting, es)[i] == Command::Fail && i == commands(
                    Phase::Connecting,
                    es,
                ).len() - 1
            },
{
    lemma_follows_schedule(es);
}

spec fn subscribed(p: Phase) -> bool {
    p is Querying || p is Publishing || p is Waiting
}

proof fn lemma_subscribed_before(es: Seq<Event>, k: int)
    requires
        0 <= k <= es.len(),
        subscribed(run(Phase::Connecting, es.take(k))),
    ensures
        exists|j: int|
            0 <= j < k && es[j] == Event::Subscribed && run(Phase::Connecting, es.take(j))
                == Phase::Subscribing,
    decreases k,
{
    let pre = es.take(k - 1);
    assert(es.take(k).drop_last() =~= pre);
    assert(es.take(k).last() == es[k - 1]);
    let q = run(Phase::Connecting, pre);
    if subscribed(q) {
        lemma_subscribed_before(es, k - 1);
    } else {
        assert(q == Phase::Subscribing);
        assert(es[k - 1] == Event::Subscribed);
    }
}

/// A query is asked for only once the subscription to changes was reported
/// open: the event that leads to it, or one before it, is `Subscribed`,
/// which arrived while the monitor was subscribing.
pub proof fn lemma_subscribed_before_query(es: Seq<Event>, i: int)
    requires
        0 <= i < es.len(),
        transition(run(Phase::Connecting, es.take(i)), es[i]) matches Some((_, c)) && c
            == Command::Query,
    ensures
        exists|j: int|
            0 <= j <= i && es[j] == Event::Subscribed && run(Phase::Connecting, es.take(j))
                == Phase::Subscribing,
{
    let q = run(Phase::Connecting, es.take(i));
    if q == Phase::Waiting {
        lemma_subscribed_before(es, i);
    } else {
        assert(q == Phase::Subscribing && es[i] == Event::Subscribed);
    }
}

/// Events arriving in two batches take the monitor where they take it in one.
pub proof fn lemma_run_concat(p: Phase, a: Seq<Event>, b: Seq<Event>)
    ensures
        run(p, a + b) == run(run(p, a), b),
        commands(p, a + b) == commands(p, a) + commands(run(p, a), b),
    decreases b.len(),
{
    if b.len() == 0 {
        assert(a + b =~= a);
        assert(commands(p, a) + commands(run(p, a), b) =~= commands(p, a));
    } else {
        lemma_run_concat(p, a, b.drop_last());
        assert((a + b).drop_last() =~= a + b.drop_last());
        assert((a + b).last() == b.last());
        let tail = match transition(run(run(p, a), b.drop_last()), b.last()) {
            Some((_, c)) => seq![c],
            None => Seq::<Command>::empty(),
        };
        assert(commands(p, a) + commands(run(p, a), b.drop_last()) + tail =~= commands(p, a) + (
        commands(run(p, a), b.drop_last()) + tail));
    }
}

/// A failed monitor stays failed and asks for nothing more, whatever arrives:
/// it never retries.
pub proof fn lemma_failure_is_final(err: Error, es: Seq<Event>)
    ensures
        run(Phase::Failed(err), es) == Phase::Failed(err),
        commands(Phase::Failed(err), es) == Seq::<Command>::empty(),
    decreases es.len(),
{
    if es.len() > 0 {
        lemma_failure_is_final(err, es.drop_last());
        assert(commands(Phase::Failed(err), es) =~= Seq::<Command>::empty());
    }
}

/// When the subscription ends while the monitor waits, it fails at once with
/// the subscription's error, and asks for nothing after that, whatever
/// arrives later.
pub proof fn lemma_stream_end_stops(es: Seq<Event>)
    ensures
        run(Phase::Waiting, seq![Event::StreamEnded] + es) == Phase::Failed(
            Error::Ipc(Operation::Subscription),
        ),
        commands(Phase::Waiting, seq![Event::StreamEnded] + es) == seq![Command::Fail],
{
    let first = seq![Event::StreamEnded];
    let err = Error::Ipc(Operation::Subscription);
    assert(first.drop_last() =~= Seq::<Event>::empty());
    assert(run(Phase::Waiting, first.drop_last()) == Phase::Waiting);
    assert(commands(Phase::Waiting, first.drop_last()) =~= Seq::<Command>::empty());
    assert(first.last() == Event::StreamEnded);
    assert(run(Phase::Waiting, first) == Phase::Failed(err));
    assert(commands(Phase::Waiting, first) =~= seq![Command::Fail]);
    lemma_run_concat(Phase::Waiting, first, es);
    lemma_failure_is_final(err, es);
    assert(seq![Command::Fail] + Seq::<Command>::empty() =~= seq![Command::Fail]);
}

/// The path segment is a function of the service name alone: equal names
/// give equal segments.
pub proof fn lemma_segment_deterministic(a: Seq<char>, b: Seq<char>)
    requires
        a == b,
    ensures
        segment(a) == segment(b),
{
}

/// Every character of an escaped text is an ASCII letter, a digit or `_`,
/// the only characters that a bus object path segment may hold.
pub proof fn lemma_escape_is_path_safe(s: Seq<char>)
    requires
        is_ascii_chars(s),
    ensures
        forall|i: int|
            0 <= i < escape(s).len() ==> is_alnum(#[trigger] escape(s)[i]) || escape(s)[i] == '_',
    decreases s.len(),
{
    if s.len() > 0 {
        let pre = s.drop_last();
        assert forall|i: int| 0 <= i < pre.len() implies '\0' <= #[trigger] pre[i] <= '\u{7f}' by {
            assert(pre[i] == s[i]);
        }
        lemma_escape_is_path_safe(pre);
        let c = s.last();
        assert(c == s[s.len() - 1]);
        assert forall|i: int| 0 <= i < escape_char(c).len() implies is_alnum(
            #[trigger] escape_char(c)[i],
        ) || escape_char(c)[i] == '_' by {}
        assert(escape(s) == escape(pre) + escape_char(c));
    }
}

} // verus!
