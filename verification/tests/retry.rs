use troyonthetrails::http::ErrorKind;
use troyonthetrails::retry::{Retry, RetryPolicy, RetryStep};

fn drive(policy: RetryPolicy, statuses: &[u16]) -> (Vec<u64>, Option<u16>, usize) {
    let mut retry = Retry::new(policy);
    let mut sleeps = Vec::new();
    let mut sent = 0;
    for status in statuses {
        if retry.exhausted() {
            break;
        }
        sent += 1;
        match retry.on_status(*status) {
            RetryStep::Deliver => return (sleeps, Some(*status), sent),
            RetryStep::SleepThenSend(secs) => sleeps.push(secs),
            RetryStep::SleepThenGiveUp(secs) => {
                sleeps.push(secs);
                return (sleeps, None, sent);
            }
            RetryStep::GiveUp => return (sleeps, None, sent),
        }
    }
    (sleeps, None, sent)
}

#[test]
fn five_rate_limited_answers_sleep_1_2_4_8_16_and_fail() {
    let (sleeps, delivered, sent) = drive(RetryPolicy::default(), &[429, 429, 429, 429, 429, 200]);
    assert_eq!(sleeps, vec![1, 2, 4, 8, 16]);
    assert_eq!(delivered, None);
    assert_eq!(sent, 5);
}

#[test]
fn one_rate_limited_answer_then_success_sleeps_once() {
    let (sleeps, delivered, sent) = drive(RetryPolicy::default(), &[429, 200]);
    assert_eq!(sleeps, vec![1]);
    assert_eq!(delivered, Some(200));
    assert_eq!(sent, 2);
}

#[test]
fn any_other_answer_is_delivered_at_once() {
    for status in [200u16, 201, 301, 401, 404, 500, 503] {
        let (sleeps, delivered, sent) = drive(RetryPolicy::default(), &[status, 429]);
        assert!(sleeps.is_empty());
        assert_eq!(delivered, Some(status));
        assert_eq!(sent, 1);
    }
}

#[test]
fn an_exhausted_request_gives_up_without_sleeping() {
    let mut retry = Retry::new(RetryPolicy::new(1, 3, 2).unwrap());
    assert!(!retry.exhausted());
    assert_eq!(retry.on_status(429), RetryStep::SleepThenGiveUp(3));
    assert!(retry.exhausted());
    assert_eq!(retry.on_status(429), RetryStep::GiveUp);
    assert_eq!(retry.on_status(200), RetryStep::GiveUp);
}

#[test]
fn backoff_is_initial_times_multiplier_to_the_attempt() {
    let policy = RetryPolicy::new(4, 3, 5).unwrap();
    assert_eq!(policy.attempts(), 4);
    assert_eq!(policy.backoff(0), Some(3));
    assert_eq!(policy.backoff(1), Some(15));
    assert_eq!(policy.backoff(2), Some(75));
    assert_eq!(policy.backoff(3), Some(375));
    assert_eq!(policy.backoff(4), None);
    let default = RetryPolicy::default();
    assert_eq!(default.attempts(), 5);
    assert_eq!(default.backoff(4), Some(16));
    assert_eq!(default.backoff(5), None);
}

#[test]
fn a_policy_must_allow_an_attempt_and_fit_its_pauses() {
    assert!(RetryPolicy::new(0, 1, 2).is_none());
    assert!(RetryPolicy::new(64, 1, 2).is_some());
    assert!(RetryPolicy::new(65, 1, 2).is_none());
    assert!(RetryPolicy::new(2, u64::MAX, 2).is_none());
    assert!(RetryPolicy::new(1, u64::MAX, 2).is_some());
    assert!(RetryPolicy::new(u32::MAX, 7, 1).is_some());
    assert!(RetryPolicy::new(u32::MAX, 7, 0).is_some());
    assert!(RetryPolicy::new(u32::MAX, 0, 9).is_some());
    assert_eq!(RetryPolicy::new(3, 7, 0).unwrap().backoff(0), Some(7));
    assert_eq!(RetryPolicy::new(3, 7, 0).unwrap().backoff(2), Some(0));
    assert_eq!(RetryPolicy::new(64, 1, 2).unwrap().backoff(63), Some(1u64 << 63));
}

#[test]
fn a_step_says_how_long_to_sleep_and_whether_it_is_the_end() {
    let none: Option<u64> = None;
    assert_eq!(RetryStep::Deliver.sleep_secs(), none);
    assert_eq!(RetryStep::SleepThenSend(4).sleep_secs(), Some(4));
    assert_eq!(RetryStep::SleepThenGiveUp(16).sleep_secs(), Some(16));
    assert_eq!(RetryStep::GiveUp.sleep_secs(), none);
    assert_eq!(RetryStep::Deliver.failure(), None);
    assert_eq!(RetryStep::SleepThenSend(4).failure(), None);
    assert_eq!(RetryStep::SleepThenGiveUp(16).failure(), Some(ErrorKind::RetriesExceeded));
    assert_eq!(RetryStep::GiveUp.failure(), Some(ErrorKind::RetriesExceeded));
}
