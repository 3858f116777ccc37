use troyonthetrails::beacon::{normalize, BeaconData, EpochDateTime, Status};
use troyonthetrails::beacon_loop::{begin_cycle, process_beacon, start, CycleStart, Intent, Role};
use troyonthetrails::db_service::TroyStatus;
use troyonthetrails::http::ErrorKind;

const NOW: i64 = 1_700_000_000;
const URL: &str = "https://example.test/beacon/abc";

fn troy(is_on_trail: bool, beacon_url: Option<&str>) -> TroyStatus {
    TroyStatus {
        is_on_trail,
        beacon_url: beacon_url.map(|url| url.to_string()),
        trail_status_updated: Some(1_699_999_000),
    }
}

fn snapshot(code: i64, activity_id: Option<i64>, minutes_ago: i64) -> BeaconData {
    BeaconData {
        status: Status::from(code),
        activity_id,
        update_time: EpochDateTime::new(NOW - minutes_ago * 60),
    }
}

fn show(intents: &[Intent]) -> Vec<String> {
    intents.iter().map(|intent| format!("{:?}", intent)).collect()
}

#[test]
fn status_codes_decode_by_the_table() {
    assert_eq!(Status::from(1), Status::Active);
    assert_eq!(Status::from(2), Status::AutoPaused);
    assert_eq!(Status::from(3), Status::ManualPaused);
    assert_eq!(Status::from(4), Status::Unknown);
    assert_eq!(Status::from(5), Status::Uploaded);
    assert_eq!(Status::from(6), Status::Discarded);
    assert_eq!(Status::from(7), Status::NotStarted);
    assert_eq!(Status::from(0), Status::Unknown);
    assert_eq!(Status::from(8), Status::Unknown);
    assert_eq!(Status::from(-1), Status::Unknown);
    assert_eq!(Status::from(i64::MAX), Status::Unknown);
}

#[test]
fn status_codes_encode_and_round_trip() {
    for code in 1..=7 {
        assert_eq!(Status::from(code).code(), Some(code));
    }
    assert_eq!(Status::UploadedLie.code(), None);
    assert_eq!(Status::Unknown.code(), Some(4));
}

#[test]
fn normalization_matches_the_table() {
    let all = [
        Status::Active,
        Status::AutoPaused,
        Status::ManualPaused,
        Status::Uploaded,
        Status::Discarded,
        Status::NotStarted,
        Status::UploadedLie,
        Status::Unknown,
    ];
    for status in all {
        let with_id = normalize(true, status);
        if status == Status::Uploaded || status == Status::Discarded {
            assert_eq!(with_id, status);
        } else {
            assert_eq!(with_id, Status::Uploaded);
        }
        let without_id = normalize(false, status);
        if status == Status::Uploaded {
            assert_eq!(without_id, Status::UploadedLie);
        } else {
            assert_eq!(without_id, status);
        }
    }
}

#[test]
fn ride_time_counts_whole_minutes() {
    assert_eq!(snapshot(1, None, 10).ride_time(NOW), 10);
    assert_eq!(snapshot(1, None, 10).ride_time(NOW + 59), 10);
    assert_eq!(snapshot(1, None, 10).ride_time(NOW + 60), 11);
    assert_eq!(snapshot(1, None, 0).ride_time(NOW - 59), 0);
    assert_eq!(snapshot(1, None, 0).ride_time(NOW - 61), -1);
    let far = BeaconData {
        status: Status::Active,
        activity_id: None,
        update_time: EpochDateTime::new(i64::MIN),
    };
    assert_eq!(far.ride_time(i64::MAX), 307445734561825860);
}

#[test]
fn no_beacon_on_trail_heals_the_flag_and_nothing_else() {
    let status = troy(true, None);
    match begin_cycle(&status) {
        CycleStart::Done(intents) => assert_eq!(show(&intents), vec!["SetOnTrail(false)"]),
        CycleStart::Fetch(_) => panic!("nothing to fetch"),
    }
    let intents = process_beacon(&status, Ok(snapshot(1, None, 1)), NOW);
    assert_eq!(show(&intents), vec!["SetOnTrail(false)"]);
}

#[test]
fn no_beacon_off_trail_does_nothing() {
    let status = troy(false, None);
    match begin_cycle(&status) {
        CycleStart::Done(intents) => assert!(intents.is_empty()),
        CycleStart::Fetch(_) => panic!("nothing to fetch"),
    }
    assert!(process_beacon(&status, Err(ErrorKind::NotFound), NOW).is_empty());
}

#[test]
fn a_known_beacon_is_fetched() {
    match begin_cycle(&troy(false, Some(URL))) {
        CycleStart::Fetch(url) => assert_eq!(url, URL),
        CycleStart::Done(_) => panic!("the feed has to be asked"),
    }
}

#[test]
fn active_without_id_starts_the_ride() {
    let intents = process_beacon(&troy(false, Some(URL)), Ok(snapshot(1, None, 1)), NOW);
    assert_eq!(
        show(&intents),
        vec!["SetOnTrail(true)".to_string(), format!("NotifyStart({:?})", URL)]
    );
}

#[test]
fn active_while_on_trail_only_rewrites_the_flag() {
    for code in [1, 2, 3] {
        let intents = process_beacon(&troy(true, Some(URL)), Ok(snapshot(code, None, 1)), NOW);
        assert_eq!(show(&intents), vec!["SetOnTrail(true)"]);
    }
}

#[test]
fn uploaded_with_id_ends_the_ride() {
    let intents = process_beacon(&troy(true, Some(URL)), Ok(snapshot(5, Some(123), 1)), NOW);
    assert_eq!(
        show(&intents),
        vec!["ClearBeaconUrl", "SetOnTrail(false)", "NotifyEnd(Some(123))"]
    );
}

#[test]
fn an_activity_id_forces_uploaded() {
    let intents = process_beacon(&troy(true, Some(URL)), Ok(snapshot(1, Some(77), 1)), NOW);
    assert_eq!(
        show(&intents),
        vec!["ClearBeaconUrl", "SetOnTrail(false)", "NotifyEnd(Some(77))"]
    );
    let intents = process_beacon(&troy(false, Some(URL)), Ok(snapshot(7, Some(77), 1)), NOW);
    assert_eq!(show(&intents), vec!["ClearBeaconUrl"]);
}

#[test]
fn discarded_clears_and_notifies() {
    let intents = process_beacon(&troy(true, Some(URL)), Ok(snapshot(6, Some(9), 1)), NOW);
    assert_eq!(
        show(&intents),
        vec!["ClearBeaconUrl", "SetOnTrail(false)", "NotifyDiscard"]
    );
    let intents = process_beacon(&troy(false, Some(URL)), Ok(snapshot(6, None, 1)), NOW);
    assert_eq!(show(&intents), vec!["ClearBeaconUrl"]);
}

#[test]
fn uploaded_without_id_waits() {
    let data = snapshot(5, None, 10);
    assert_eq!(data.normalized().status, Status::UploadedLie);
    assert!(process_beacon(&troy(true, Some(URL)), Ok(data), NOW).is_empty());
    assert!(process_beacon(&troy(true, Some(URL)), Ok(snapshot(5, None, 240)), NOW).is_empty());
}

#[test]
fn uploaded_without_id_times_out_and_keeps_the_beacon() {
    let intents = process_beacon(&troy(true, Some(URL)), Ok(snapshot(5, None, 300)), NOW);
    assert_eq!(show(&intents), vec!["SetOnTrail(false)", "NotifyEnd(None)"]);
    let intents = process_beacon(&troy(false, Some(URL)), Ok(snapshot(5, None, 241)), NOW);
    assert_eq!(show(&intents), vec!["SetOnTrail(false)", "NotifyEnd(None)"]);
}

#[test]
fn not_started_is_given_up_after_45_minutes() {
    assert!(process_beacon(&troy(false, Some(URL)), Ok(snapshot(7, None, 45)), NOW).is_empty());
    let intents = process_beacon(&troy(false, Some(URL)), Ok(snapshot(7, None, 46)), NOW);
    assert_eq!(show(&intents), vec!["ClearBeaconUrl"]);
}

#[test]
fn unknown_status_does_nothing() {
    assert!(process_beacon(&troy(true, Some(URL)), Ok(snapshot(4, None, 500)), NOW).is_empty());
    assert!(process_beacon(&troy(true, Some(URL)), Ok(snapshot(99, None, 500)), NOW).is_empty());
}

#[test]
fn a_missing_feed_is_forgotten_and_other_failures_change_nothing() {
    let status = troy(true, Some(URL));
    assert_eq!(
        show(&process_beacon(&status, Err(ErrorKind::NotFound), NOW)),
        vec!["ClearBeaconUrl"]
    );
    for kind in [
        ErrorKind::TransientNetwork,
        ErrorKind::Deserialization,
        ErrorKind::Status(500),
        ErrorKind::RetriesExceeded,
        ErrorKind::Auth,
        ErrorKind::InvalidUrl,
    ] {
        assert!(process_beacon(&status, Err(kind), NOW).is_empty());
    }
}

#[test]
fn the_poller_runs_unless_both_regions_are_known_and_differ() {
    assert_eq!(start(Some("ord"), Some("ord")), Role::Leader);
    assert_eq!(start(Some("ord"), Some("iad")), Role::Follower);
    assert_eq!(start(None, Some("iad")), Role::Leader);
    assert_eq!(start(Some("ord"), None), Role::Leader);
    assert_eq!(start(None, None), Role::Leader);
}

fn run_cycle(status: &mut TroyStatus, fetched: Result<BeaconData, ErrorKind>, now: i64) -> Vec<String> {
    let intents = process_beacon(status, fetched, now);
    for intent in &intents {
        status.apply(intent, now as u64);
    }
    show(&intents)
}

#[test]
fn a_start_is_announced_once_over_many_cycles() {
    let mut status = troy(false, Some(URL));
    let first = run_cycle(&mut status, Ok(snapshot(1, None, 0)), NOW);
    assert_eq!(first.len(), 2);
    assert!(status.is_on_trail);
    assert_eq!(status.trail_status_updated, Some(NOW as u64));
    for cycle in 1..5 {
        let again = run_cycle(&mut status, Ok(snapshot(2, None, 0)), NOW + 45 * cycle);
        assert_eq!(again, vec!["SetOnTrail(true)"]);
    }
}

#[test]
fn an_uploaded_ride_is_announced_once_and_the_feed_is_forgotten() {
    let mut status = troy(true, Some(URL));
    let first = run_cycle(&mut status, Ok(snapshot(5, Some(8), 0)), NOW);
    assert_eq!(first, vec!["ClearBeaconUrl", "SetOnTrail(false)", "NotifyEnd(Some(8))"]);
    assert_eq!(status.beacon_url, None);
    assert!(!status.is_on_trail);
    assert!(run_cycle(&mut status, Ok(snapshot(5, Some(8), 0)), NOW + 45).is_empty());
}

#[test]
fn a_feed_that_never_started_is_forgotten_and_the_flag_healed_quietly() {
    let mut status = troy(true, Some(URL));
    assert_eq!(run_cycle(&mut status, Ok(snapshot(7, None, 50)), NOW), vec!["ClearBeaconUrl"]);
    assert!(status.is_on_trail);
    assert_eq!(run_cycle(&mut status, Err(ErrorKind::TransientNetwork), NOW + 45), vec!["SetOnTrail(false)"]);
    assert!(run_cycle(&mut status, Err(ErrorKind::TransientNetwork), NOW + 90).is_empty());
}

#[test]
fn an_overdue_upload_keeps_its_feed_and_is_announced_every_cycle() {
    let mut status = troy(true, Some(URL));
    for cycle in 0..3 {
        let intents = run_cycle(&mut status, Ok(snapshot(5, None, 300)), NOW + 45 * cycle);
        assert_eq!(intents, vec!["SetOnTrail(false)", "NotifyEnd(None)"]);
        assert_eq!(status.beacon_url.as_deref(), Some(URL));
        assert!(!status.is_on_trail);
    }
}
