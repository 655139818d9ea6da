use container_updater::container::{
    Command, Container, Event, Failure, Outcome, Phase, RuntimeOp, Tracking, UpdateAction,
};
use container_updater::fleet::tick;
use std::collections::BTreeMap;

fn svc1(action: UpdateAction) -> Container {
    Container::new("svc1".to_string(), 10, action, BTreeMap::new())
}

/// A container bootstrapped from a snapshot holding `saved`, idle again.
fn watched_at(saved: u64) -> Container {
    let mut c = svc1(UpdateAction::DockerRestart);
    assert_eq!(c.init(), Command::LoadSnapshot);
    assert_eq!(c.step(Event::SnapshotFound(saved)), Command::FetchVersion(10));
    assert_eq!(c.step(Event::VersionFetched(saved)), Command::Finish(Outcome::UpToDate));
    c
}

#[test]
fn scenario_a_seed_without_snapshot() {
    let mut c = svc1(UpdateAction::DockerRestart);
    assert_eq!(c.init(), Command::LoadSnapshot);
    assert_eq!(c.step(Event::SnapshotMissing), Command::FetchVersion(10));
    assert_eq!(c.step(Event::VersionFetched(5)), Command::Save);
    assert_eq!(c.current_version, 5);
    assert_eq!(c.step(Event::Saved), Command::FetchVersion(10));
    assert_eq!(c.step(Event::VersionFetched(5)), Command::Finish(Outcome::UpToDate));
    assert_eq!(c.current_version, 5);
    assert_eq!(c.tracking, Tracking::Watched);
    assert_eq!(c.phase, Phase::Idle);
}

#[test]
fn scenario_b_drift_restart_succeeds() {
    let mut c = svc1(UpdateAction::DockerRestart);
    c.init();
    assert_eq!(c.step(Event::SnapshotFound(5)), Command::FetchVersion(10));
    assert_eq!(c.step(Event::VersionFetched(6)), Command::CheckRunning("svc1".to_string()));
    assert_eq!(
        c.step(Event::Running(true)),
        Command::Act(RuntimeOp::Restart { container: "svc1".to_string() })
    );
    assert_eq!(c.step(Event::ActionDone), Command::Save);
    assert_eq!(c.current_version, 6);
    assert_eq!(c.step(Event::Saved), Command::Finish(Outcome::Updated));
    assert_eq!(c.current_version, 6);
}

#[test]
fn scenario_c_drift_not_running_is_skipped() {
    let mut c = svc1(UpdateAction::DockerRestart);
    c.init();
    c.step(Event::SnapshotFound(5));
    assert_eq!(c.step(Event::VersionFetched(6)), Command::CheckRunning("svc1".to_string()));
    assert_eq!(c.step(Event::Running(false)), Command::Finish(Outcome::Skipped));
    assert_eq!(c.current_version, 5);
}

#[test]
fn scenario_d_oracle_failure() {
    let mut c = watched_at(5);
    assert_eq!(c.update(), Command::FetchVersion(10));
    assert_eq!(
        c.step(Event::VersionUnavailable),
        Command::Finish(Outcome::Failed(Failure::Oracle))
    );
    assert_eq!(c.current_version, 5);
    assert_eq!(c.phase, Phase::Idle);
}

#[test]
fn steady_state_twice_changes_nothing() {
    let mut c = watched_at(7);
    for _ in 0..2 {
        assert_eq!(c.update(), Command::FetchVersion(10));
        assert_eq!(c.step(Event::VersionFetched(7)), Command::Finish(Outcome::UpToDate));
        assert_eq!(c.current_version, 7);
    }
}

#[test]
fn runtime_unreachable_fails_without_change() {
    let mut c = watched_at(5);
    c.update();
    c.step(Event::VersionFetched(9));
    assert_eq!(
        c.step(Event::RuntimeUnavailable),
        Command::Finish(Outcome::Failed(Failure::Runtime))
    );
    assert_eq!(c.current_version, 5);
}

#[test]
fn action_failure_keeps_version_and_retries() {
    let mut c = watched_at(5);
    c.update();
    c.step(Event::VersionFetched(6));
    c.step(Event::Running(true));
    assert_eq!(c.step(Event::ActionFailed), Command::Finish(Outcome::Failed(Failure::Action)));
    assert_eq!(c.current_version, 5);
    assert_eq!(c.update(), Command::FetchVersion(10));
    assert_eq!(c.step(Event::VersionFetched(6)), Command::CheckRunning("svc1".to_string()));
}

#[test]
fn failed_save_after_action_restores_version() {
    let mut c = watched_at(5);
    c.update();
    c.step(Event::VersionFetched(6));
    c.step(Event::Running(true));
    assert_eq!(c.step(Event::ActionDone), Command::Save);
    assert_eq!(c.step(Event::SaveFailed), Command::Finish(Outcome::Failed(Failure::Persist)));
    assert_eq!(c.current_version, 5);
}

#[test]
fn pull_runs_both_steps_before_saving() {
    let mut c = svc1(UpdateAction::DockerPull { image: "img".to_string(), tag: "v2".to_string() });
    c.init();
    c.step(Event::SnapshotFound(1));
    c.step(Event::VersionFetched(2));
    assert_eq!(
        c.step(Event::Running(true)),
        Command::Act(RuntimeOp::Pull { image: "img".to_string(), tag: "v2".to_string() })
    );
    assert_eq!(
        c.step(Event::ActionDone),
        Command::Act(RuntimeOp::Restart { container: "svc1".to_string() })
    );
    assert_eq!(c.current_version, 1);
    assert_eq!(c.step(Event::ActionDone), Command::Save);
    assert_eq!(c.current_version, 2);
}

#[test]
fn pull_partial_completion_keeps_version() {
    let mut c = svc1(UpdateAction::DockerPull { image: "img".to_string(), tag: "v2".to_string() });
    c.init();
    c.step(Event::SnapshotFound(1));
    c.step(Event::VersionFetched(2));
    c.step(Event::Running(true));
    c.step(Event::ActionDone);
    assert_eq!(c.step(Event::ActionFailed), Command::Finish(Outcome::Failed(Failure::Action)));
    assert_eq!(c.current_version, 1);
}

#[test]
fn build_and_custom_plans() {
    let b = svc1(UpdateAction::DockerBuild { context_path: "/ctx".to_string() });
    assert_eq!(b.plan_op(0), Some(RuntimeOp::Build { context_path: "/ctx".to_string() }));
    assert_eq!(b.plan_op(1), Some(RuntimeOp::Restart { container: "svc1".to_string() }));
    assert_eq!(b.plan_op(2), None);
    let c = svc1(UpdateAction::Custom { chdir: "/srv".to_string(), command: "make".to_string() });
    assert_eq!(
        c.plan_op(0),
        Some(RuntimeOp::Run { chdir: "/srv".to_string(), command: "make".to_string() })
    );
    assert_eq!(c.plan_op(1), None);
}

#[test]
fn corrupt_snapshot_excludes_container() {
    let mut c = svc1(UpdateAction::DockerRestart);
    c.init();
    assert_eq!(
        c.step(Event::SnapshotCorrupt),
        Command::Finish(Outcome::Failed(Failure::Corrupt))
    );
    assert_eq!(c.tracking, Tracking::Excluded);
    assert_eq!(c.update(), Command::Finish(Outcome::Failed(Failure::Corrupt)));
    assert_eq!(c.phase, Phase::Idle);
}

#[test]
fn seed_failure_retries_seeding_next_tick() {
    let mut c = svc1(UpdateAction::DockerRestart);
    c.init();
    c.step(Event::SnapshotMissing);
    assert_eq!(
        c.step(Event::VersionUnavailable),
        Command::Finish(Outcome::Failed(Failure::Oracle))
    );
    assert_eq!(c.tracking, Tracking::Unseeded);
    assert_eq!(c.update(), Command::FetchVersion(10));
    assert_eq!(c.phase, Phase::Seeding);
}

#[test]
fn seed_save_failure_leaves_container_unseeded() {
    let mut c = svc1(UpdateAction::DockerRestart);
    c.init();
    c.step(Event::SnapshotMissing);
    c.step(Event::VersionFetched(3));
    assert_eq!(c.step(Event::SaveFailed), Command::Finish(Outcome::Failed(Failure::Persist)));
    assert_eq!(c.tracking, Tracking::Unseeded);
}

#[test]
fn out_of_order_event_abandons_pass() {
    let mut c = watched_at(5);
    c.update();
    assert_eq!(c.step(Event::Saved), Command::Finish(Outcome::Failed(Failure::OutOfOrder)));
    assert_eq!(c.phase, Phase::Idle);
    assert_eq!(c.current_version, 5);
    c.update();
    c.step(Event::VersionFetched(6));
    c.step(Event::Running(true));
    c.step(Event::ActionDone);
    assert_eq!(c.current_version, 6);
    assert_eq!(
        c.step(Event::VersionFetched(6)),
        Command::Finish(Outcome::Failed(Failure::OutOfOrder))
    );
    assert_eq!(c.current_version, 5);
}

#[test]
fn init_twice_is_refused() {
    let mut c = watched_at(5);
    assert_eq!(c.init(), Command::Finish(Outcome::Failed(Failure::OutOfOrder)));
    let mut busy = svc1(UpdateAction::DockerRestart);
    busy.init();
    assert_eq!(busy.update(), Command::Finish(Outcome::Failed(Failure::OutOfOrder)));
    assert_eq!(busy.phase, Phase::Loading);
}

#[test]
fn tick_starts_every_container_independently() {
    let mut fleet = vec![watched_at(5), svc1(UpdateAction::DockerRestart)];
    let mut bad = svc1(UpdateAction::DockerRestart);
    bad.init();
    bad.step(Event::SnapshotCorrupt);
    fleet.push(bad);
    let cmds = tick(&mut fleet);
    assert_eq!(
        cmds,
        vec![
            Command::FetchVersion(10),
            Command::LoadSnapshot,
            Command::Finish(Outcome::Failed(Failure::Corrupt)),
        ]
    );
    assert_eq!(fleet[0].phase, Phase::Fetching);
    assert_eq!(fleet[1].phase, Phase::Loading);
    assert_eq!(fleet[2].phase, Phase::Idle);
}

#[test]
fn save_path_joins_directory_and_name() {
    let c = svc1(UpdateAction::DockerRestart);
    assert_eq!(c.get_save_path(&"./state".to_string()), "./state/svc1.json");
    assert_eq!(c.get_save_path(&"/var/lib/".to_string()), "/var/lib/svc1.json");
    assert_eq!(c.get_save_path(&String::new()), "svc1.json");
}
