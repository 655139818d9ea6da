use vstd::prelude::*;
use crate::container::{run, Command, Container, Event, Outcome, Phase, SteamVersion, Tracking};

verus! {

/// Every reaction keeps a container well formed, and so does starting a pass.
pub proof fn lemma_wf_preserved(c: Container, e: Event)
    requires
        c.wf(),
    ensures
        c.transition(e).0.wf(),
        c.begin().0.wf(),
{
}

/// Steady state is idempotent: when the catalog reports the tracked version on
/// two consecutive passes, both end up to date, the container is left exactly
/// as it was, and nothing is saved.
pub proof fn lemma_steady_state(c: Container, v: SteamVersion)
    requires
        c.phase is Idle,
        c.tracking is Watched,
        v == c.current_version,
    ensures
        run(c, seq![Event::VersionFetched(v)]).0 == c,
        run(c, seq![Event::VersionFetched(v)]).1 == Command::Finish(Outcome::UpToDate),
        run(run(c, seq![Event::VersionFetched(v)]).0, seq![Event::VersionFetched(v)]).0 == c,
        run(run(c, seq![Event::VersionFetched(v)]).0, seq![Event::VersionFetched(v)]).1
            == Command::Finish(Outcome::UpToDate),
{
    reveal_with_fuel(run, 2);
    assert(seq![Event::VersionFetched(v)].drop_last() =~= Seq::<Event>::empty());
}

/// For a tracked container, a save is asked for only once the last step of its
/// action has succeeded, and the tracked version moves only there, or back to
/// where the pass started when that save fails.
pub proof fn lemma_save_only_after_action(c: Container, e: Event)
    requires
        c.wf(),
        c.tracking is Watched,
    ensures
        c.transition(e).1 == Command::Save ==> c.phase is Acting && e is ActionDone,
        c.transition(e).0.current_version != c.current_version ==> (c.phase is Acting
            && e is ActionDone) || c.phase is SavingUpdate,
        c.begin().0.current_version == c.current_version,
        c.begin().1 != Command::Save,
{
}

/// While a reconciliation pass of a tracked container is in flight, it
/// remembers the version that the catalog reported first, and keeps the
/// tracked version it started from until the action is done.
proof fn lemma_pass_in_flight(c: Container, es: Seq<Event>)
    requires
        c.wf(),
        c.phase is Idle,
        c.tracking is Watched,
        forall|k: int| 0 <= k <= es.len() ==> !(#[trigger] run(c, es.take(k)).1 is Finish),
    ensures
        run(c, es).0.wf(),
        run(c, es).0.tracking is Watched,
        run(c, es).0.name == c.name,
        run(c, es).0.action == c.action,
        es.len() == 0 ==> run(c, es).0.phase is Fetching && run(c, es).0.current_version
            == c.current_version,
        es.len() > 0 ==> match run(c, es).0.phase {
            Phase::Inspecting { observed } => es[0] == Event::VersionFetched(observed)
                && run(c, es).0.current_version == c.current_version,
            Phase::Acting { observed, .. } => es[0] == Event::VersionFetched(observed)
                && run(c, es).0.current_version == c.current_version,
            Phase::SavingUpdate { prior } => prior == c.current_version && es[0]
                == Event::VersionFetched(run(c, es).0.current_version),
            _ => false,
        },
    decreases es.len(),
{
    assert(es.take(es.len() as int) =~= es);
    if es.len() > 0 {
        let prev = es.drop_last();
        assert forall|k: int| 0 <= k <= prev.len() implies !(#[trigger] run(c, prev.take(k)).1 is Finish) by {
            assert(prev.take(k) =~= es.take(k));
        }
        lemma_pass_in_flight(c, prev);
        assert(run(c, es) == run(c, prev).0.transition(es.last()));
        assert(!(run(c, es).1 is Finish));
        if prev.len() > 0 {
            assert(prev[0] == es[0]);
        } else {
            assert(es.last() == es[0]);
        }
    }
}

/// After a pass that ends `Updated`, the tracked version is exactly the one the
/// catalog reported at the start of that pass.
pub proof fn lemma_updated_takes_observed(c: Container, es: Seq<Event>)
    requires
        c.wf(),
        c.phase is Idle,
        c.tracking is Watched,
        forall|k: int| 0 <= k < es.len() ==> !(#[trigger] run(c, es.take(k)).1 is Finish),
        run(c, es).1 == Command::Finish(Outcome::Updated),
    ensures
        es.len() > 0,
        es[0] == Event::VersionFetched(run(c, es).0.current_version),
{
    if es.len() == 0 {
        assert(run(c, es).1 != Command::Finish(Outcome::Updated));
    } else {
        let prev = es.drop_last();
        assert forall|k: int| 0 <= k <= prev.len() implies !(#[trigger] run(c, prev.take(k)).1 is Finish) by {
            assert(prev.take(k) =~= es.take(k));
        }
        lemma_pass_in_flight(c, prev);
        if prev.len() > 0 {
            assert(prev[0] == es[0]);
        }
    }
}

/// A container found not running during drift keeps its tracked version,
/// whatever the catalog reported.
pub proof fn lemma_not_running_keeps_version(c: Container, v: SteamVersion)
    requires
        c.phase is Idle,
        c.tracking is Watched,
    ensures
        run(c, seq![Event::VersionFetched(v), Event::Running(false)]).0 == c,
        v != c.current_version ==> run(c, seq![Event::VersionFetched(v), Event::Running(false)]).1
            == Command::Finish(Outcome::Skipped),
{
    reveal_with_fuel(run, 3);
    let es = seq![Event::VersionFetched(v), Event::Running(false)];
    assert(es.drop_last() =~= seq![Event::VersionFetched(v)]);
    assert(es.drop_last().drop_last() =~= Seq::<Event>::empty());
}

/// Bootstrapping from a persisted snapshot takes its version as the baseline
/// and reconciles against it; the catalog's answer is compared with it, never
/// taken as a seed.
pub proof fn lemma_snapshot_is_baseline(c: Container, saved: SteamVersion, latest: SteamVersion)
    requires
        c.phase is Idle,
        c.tracking is Fresh,
    ensures
        run(c, seq![Event::SnapshotFound(saved)]).0 == c.moved(Tracking::Watched, Phase::Fetching, saved),
        run(c, seq![Event::SnapshotFound(saved)]).1 == Command::FetchVersion(c.appid),
        run(c, seq![Event::SnapshotFound(saved), Event::VersionFetched(latest)]).0.current_version == saved,
        run(c, seq![Event::SnapshotFound(saved), Event::VersionFetched(latest)]).1 == (if latest == saved {
            Command::Finish(Outcome::UpToDate)
        } else {
            Command::CheckRunning(c.name)
        }),
{
    reveal_with_fuel(run, 3);
    let es = seq![Event::SnapshotFound(saved), Event::VersionFetched(latest)];
    assert(es.drop_last() =~= seq![Event::SnapshotFound(saved)]);
    assert(es.drop_last().drop_last() =~= Seq::<Event>::empty());
}

} // verus!
