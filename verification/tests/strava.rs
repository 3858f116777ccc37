use troyonthetrails::auth::{Athlete, TokenData};
use troyonthetrails::beacon::{get_beacon_data, BeaconData, EpochDateTime, Status};
use troyonthetrails::cache::Instant;
use troyonthetrails::http::{into_outcome, is_success, ErrorKind, HttpReply};
use troyonthetrails::retry::RetryPolicy;
use troyonthetrails::strava::{
    activity_url, athlete_stats_url, bearer, get_activity, get_strava_data, retain_rides,
    Activity, StravaService, ACTIVITIES_URL,
};

const SEC: u64 = 1_000_000_000;

fn activity(id: i64, kind: &str) -> Activity<f64> {
    Activity {
        id,
        resource_state: 2,
        athlete: Athlete { id: 1 },
        name: format!("ride {}", id),
        moving_time: 60,
        elapsed_time: 90,
        type_field: kind.to_string(),
        achievement_count: 0,
        map: None,
        measurements: 12.5,
    }
}

fn ids(activities: &[Activity<f64>]) -> Vec<i64> {
    activities.iter().map(|a| a.id).collect()
}

#[test]
fn addresses_are_built_from_their_parts() {
    assert_eq!(
        athlete_stats_url("4242"),
        "https://www.strava.com/api/v3/athletes/4242/stats"
    );
    assert_eq!(activity_url(13865285076), "https://www.strava.com/api/v3/activities/13865285076");
    assert_eq!(activity_url(-3), "https://www.strava.com/api/v3/activities/-3");
    assert_eq!(
        activity_url(i64::MIN),
        "https://www.strava.com/api/v3/activities/-9223372036854775808"
    );
    assert_eq!(ACTIVITIES_URL, "https://www.strava.com/api/v3/athlete/activities");
    assert_eq!(bearer("abc"), "Bearer abc");
}

#[test]
fn only_rides_are_kept_in_order() {
    let kept = retain_rides(vec![
        activity(1, "Ride"),
        activity(2, "Run"),
        activity(3, "Ride"),
        activity(4, "ride"),
        activity(5, "VirtualRide"),
        activity(6, "Ride"),
    ]);
    assert_eq!(ids(&kept), vec![1, 3, 6]);
    assert_eq!(kept[0].measurements, 12.5);
    assert!(retain_rides(Vec::<Activity<f64>>::new()).is_empty());
}

#[test]
fn two_readings_of_the_rides_within_five_minutes_fetch_once() {
    let mut service: StravaService<u32, f64> = StravaService::new();
    let mut fetches = 0;
    let mut read = |service: &mut StravaService<u32, f64>, now: Instant| -> Vec<i64> {
        if let Some(rides) = service.get_all_activities(now) {
            return ids(rides);
        }
        fetches += 1;
        let fetched = vec![activity(fetches, "Ride"), activity(100, "Hike")];
        ids(service.all_activities_fetched(Ok(fetched), now).unwrap())
    };
    assert_eq!(read(&mut service, Instant::from_nanos(0)), vec![1]);
    assert_eq!(read(&mut service, Instant::from_nanos(299 * SEC)), vec![1]);
    assert_eq!(read(&mut service, Instant::from_nanos(300 * SEC)), vec![2]);
    assert_eq!(fetches, 2);
}

#[test]
fn totals_are_kept_for_five_minutes_and_failures_are_not_kept() {
    let mut service: StravaService<u32, f64> = StravaService::new();
    let t0 = Instant::from_nanos(10 * SEC);
    assert!(service.get_athlete_stats(t0).is_none());
    assert_eq!(
        service.athlete_stats_fetched(Err(ErrorKind::RetriesExceeded), t0),
        Err(ErrorKind::RetriesExceeded)
    );
    assert!(service.get_athlete_stats(t0).is_none());
    assert_eq!(service.athlete_stats_fetched(Ok(5), t0), Ok(&5));
    assert_eq!(service.get_athlete_stats(Instant::from_nanos(309 * SEC)), Some(&5));
    assert_eq!(service.get_athlete_stats(Instant::from_nanos(310 * SEC)), None);
    assert_eq!(
        service.athlete_stats_fetched(Err(ErrorKind::Status(500)), Instant::from_nanos(20 * SEC)),
        Err(ErrorKind::Status(500))
    );
    assert_eq!(service.get_athlete_stats(Instant::from_nanos(20 * SEC)), Some(&5));
    assert!(service.get_all_activities(t0).is_none());
}

#[test]
fn a_request_needs_a_token() {
    let token = TokenData {
        expires_at: 1,
        access_token: "tok".to_string(),
        refresh_token: "ref".to_string(),
    };
    let request = get_strava_data(Some(&token), RetryPolicy::default()).unwrap();
    assert_eq!(request.authorization, "Bearer tok");
    assert!(!request.retry.exhausted());
    assert_eq!(
        get_strava_data(None, RetryPolicy::default()).unwrap_err(),
        ErrorKind::Auth
    );
}

#[test]
fn replies_become_payloads_or_reasons() {
    assert!(is_success(200) && is_success(204) && is_success(299));
    assert!(!is_success(199) && !is_success(300) && !is_success(404) && !is_success(429));
    assert_eq!(into_outcome::<u8>(HttpReply::Unreachable), Err(ErrorKind::TransientNetwork));
    assert_eq!(into_outcome(HttpReply::Answer { status: 200, body: Some(3u8) }), Ok(3));
    assert_eq!(
        into_outcome::<u8>(HttpReply::Answer { status: 200, body: None }),
        Err(ErrorKind::Deserialization)
    );
    assert_eq!(
        into_outcome(HttpReply::Answer { status: 404, body: Some(3u8) }),
        Err(ErrorKind::NotFound)
    );
    assert_eq!(
        into_outcome(HttpReply::Answer { status: 500, body: Some(3u8) }),
        Err(ErrorKind::Status(500))
    );
    assert_eq!(
        into_outcome::<u8>(HttpReply::Answer { status: 429, body: None }),
        Err(ErrorKind::Status(429))
    );
}

#[test]
fn an_activity_and_a_snapshot_come_out_of_their_replies() {
    let fetched = get_activity(HttpReply::Answer { status: 200, body: Some(activity(9, "Ride")) });
    assert_eq!(fetched.unwrap().id, 9);
    assert_eq!(
        get_activity::<f64>(HttpReply::Answer { status: 404, body: None }).unwrap_err(),
        ErrorKind::NotFound
    );
    let snapshot = BeaconData {
        status: Status::Active,
        activity_id: None,
        update_time: EpochDateTime::new(5),
    };
    assert_eq!(
        get_beacon_data(HttpReply::Answer { status: 200, body: Some(snapshot) }),
        Ok(snapshot)
    );
    assert_eq!(
        get_beacon_data(HttpReply::Answer { status: 404, body: None }),
        Err(ErrorKind::NotFound)
    );
    assert_eq!(get_beacon_data(HttpReply::Unreachable), Err(ErrorKind::TransientNetwork));
    assert_eq!(snapshot.update_time.timestamp(), 5);
}
