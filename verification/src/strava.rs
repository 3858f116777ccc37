//! The fitness API as the client sees it: the addresses of its resources, an
//! activity's record, and the cached answers that spare the API a request.

use vstd::prelude::*;
use vstd::string::StringExecFns;
use crate::auth::{Athlete, TokenData};
use crate::cache::{
    lemma_cache_ttl, CacheEntry, Instant, ResponseCache, CACHE_TTL_SECS, NANOS_PER_SEC,
};
use crate::http::{into_outcome, reply_outcome, ErrorKind, HttpReply};
use crate::retry::{Retry, RetryPolicy};
use crate::text::{push_signed_decimal, signed_decimal};

verus! {

/// The map of an activity.
#[derive(Debug)]
pub struct ActivityMap {
    pub id: String,
    pub polyline: Option<String>,
    pub summary_polyline: String,
    pub resource_state: i64,
}

/// One recorded activity.
///
/// `measurements` carries what the decision logic never reads: distances,
/// speeds and heights, in whatever form the caller keeps them.
#[derive(Debug)]
pub struct Activity<M> {
    pub id: i64,
    pub resource_state: i64,
    pub athlete: Athlete,
    pub name: String,
    pub moving_time: i64,
    pub elapsed_time: i64,
    pub type_field: String,
    pub achievement_count: i64,
    pub map: Option<ActivityMap>,
    pub measurements: M,
}

impl<M> Activity<M> {
    /// Whether the activity is a bicycle ride.
    pub open spec fn ride(self) -> bool {
        self.type_field@ == "Ride"@
    }

    /// Whether the activity is a bicycle ride.
    pub fn is_ride(&self) -> (ride: bool)
        ensures
            ride == self.ride(),
    {
        *self.type_field.as_str() == *"Ride"
    }
}

/// The test that rides pass.
pub open spec fn rides_only<M>() -> spec_fn(Activity<M>) -> bool {
    |activity: Activity<M>| activity.ride()
}

/// Keeps the rides among some activities, in their order.
pub fn retain_rides<M>(activities: Vec<Activity<M>>) -> (rides: Vec<Activity<M>>)
    ensures
        rides@ == activities@.filter(rides_only()),
{
    let ghost all = activities@;
    let mut rides: Vec<Activity<M>> = Vec::new();
    proof {
        reveal(Seq::filter);
        assert(all.take(0) =~= Seq::empty());
    }
    for activity in it: activities.into_iter()
        invariant
            it.seq() == all,
            rides@ == all.take(it.index() as int).filter(rides_only()),
    {
        proof {
            let before = all.take(it.index() as int);
            assert(all.take(it.index() + 1) =~= before.push(activity));
            before.lemma_filter_push(activity, rides_only());
        }
        if activity.is_ride() {
            rides.push(activity);
        }
    }
    proof {
        assert(all.take(all.len() as int) =~= all);
    }
    rides
}

/// The address of the athlete's activities, which come in pages.
pub const ACTIVITIES_URL: &'static str = "https://www.strava.com/api/v3/athlete/activities";

/// The address of an athlete's totals.
pub open spec fn athlete_stats_address(user_id: Seq<char>) -> Seq<char> {
    "https://www.strava.com/api/v3/athletes/"@ + user_id + "/stats"@
}

/// The address of one activity.
pub open spec fn activity_address(activity_id: i64) -> Seq<char> {
    "https://www.strava.com/api/v3/activities/"@ + signed_decimal(activity_id as int)
}

/// The value of the header that authorizes a request.
pub open spec fn bearer_value(access_token: Seq<char>) -> Seq<char> {
    "Bearer "@ + access_token
}

/// The address at which the totals of the athlete `user_id` are read.
pub fn athlete_stats_url(user_id: &str) -> (url: String)
    ensures
        url@ == athlete_stats_address(user_id@),
{
    let mut url = String::from_str("https://www.strava.com/api/v3/athletes/");
    url.append(user_id);
    url.append("/stats");
    url
}

/// The address at which one activity is read.
pub fn activity_url(activity_id: i64) -> (url: String)
    ensures
        url@ == activity_address(activity_id),
{
    let mut url = String::from_str("https://www.strava.com/api/v3/activities/");
    push_signed_decimal(&mut url, activity_id);
    url
}

/// The `Authorization` header for an access token.
pub fn bearer(access_token: &str) -> (value: String)
    ensures
        value@ == bearer_value(access_token@),
{
    let mut value = String::from_str("Bearer ");
    value.append(access_token);
    value
}

/// The answers that the client keeps: the athlete's totals and the list of
/// rides, each for five minutes. A single activity is never kept.
///
/// Nothing here waits for anything: where two callers miss at the same
/// moment, both are told to fetch.
#[derive(Debug)]
pub struct StravaService<S, M> {
    stats: ResponseCache<S>,
    rides: ResponseCache<Vec<Activity<M>>>,
}

impl<S, M> StravaService<S, M> {
    /// The cache of the athlete's totals.
    pub closed spec fn stats(self) -> ResponseCache<S> {
        self.stats
    }

    /// The cache of the rides.
    pub closed spec fn rides(self) -> ResponseCache<Vec<Activity<M>>> {
        self.rides
    }

    /// A client that has fetched nothing yet.
    pub fn new() -> (service: StravaService<S, M>)
        ensures
            service.stats().entry().is_none(),
            service.rides().entry().is_none(),
    {
        StravaService { stats: ResponseCache::new(), rides: ResponseCache::new() }
    }

    /// The athlete's totals, where they were fetched less than five minutes
    /// before `now`; `None` tells the caller to fetch them and to call
    /// [`StravaService::athlete_stats_fetched`].
    pub fn get_athlete_stats(&self, now: Instant) -> (cached: Option<&S>)
        ensures
            cached.is_some() == self.stats().lookup(now).is_some(),
            cached matches Some(stats) ==> self.stats().lookup(now) == Some(*stats),
    {
        self.stats.get(now)
    }

    /// Takes the outcome of fetching the athlete's totals at `now`. Totals
    /// are kept, stamped with `now`, and handed back; a failure is passed on
    /// and leaves what was kept as it was.
    pub fn athlete_stats_fetched(&mut self, fetched: Result<S, ErrorKind>, now: Instant) -> (stats:
        Result<&S, ErrorKind>)
        ensures
            match fetched {
                Ok(value) => stats == Ok::<&S, ErrorKind>(&value) && final(self).stats().entry()
                    == Some(CacheEntry { value, fetched_at: now }),
                Err(kind) => stats == Err::<&S, ErrorKind>(kind)
                    && final(self).stats() == old(self).stats(),
            },
            final(self).rides() == old(self).rides(),
    {
        match fetched {
            Ok(value) => Ok(self.stats.put(value, now)),
            Err(kind) => Err(kind),
        }
    }

    /// The athlete's rides, where they were fetched less than five minutes
    /// before `now`; `None` tells the caller to read the activities page by
    /// page and to call [`StravaService::all_activities_fetched`].
    pub fn get_all_activities(&self, now: Instant) -> (cached: Option<&Vec<Activity<M>>>)
        ensures
            cached.is_some() == self.rides().lookup(now).is_some(),
            cached matches Some(rides) ==> self.rides().lookup(now) == Some(*rides),
    {
        self.rides.get(now)
    }

    /// Takes the outcome of reading all activities at `now`. The rides among
    /// them are kept, stamped with `now`, and handed back; a failure is passed
    /// on and leaves what was kept as it was.
    pub fn all_activities_fetched(
        &mut self,
        fetched: Result<Vec<Activity<M>>, ErrorKind>,
        now: Instant,
    ) -> (rides: Result<&Vec<Activity<M>>, ErrorKind>)
        ensures
            match fetched {
                Ok(activities) => rides matches Ok(kept) && kept@ == activities@.filter(
                    rides_only(),
                ) && final(self).rides().entry() == Some(
                    CacheEntry { value: *kept, fetched_at: now },
                ),
                Err(kind) => rides == Err::<&Vec<Activity<M>>, ErrorKind>(kind)
                    && final(self).rides() == old(self).rides(),
            },
            final(self).stats() == old(self).stats(),
    {
        match fetched {
            Ok(activities) => Ok(self.rides.put(retain_rides(activities), now)),
            Err(kind) => Err(kind),
        }
    }
}

/// What was fetched once answers for five minutes and no longer.
///
/// After the rides were fetched at `fetched_at`, every call made less than
/// five minutes later is served with those rides and asks for no fetch, and
/// every call made from five minutes on is told to fetch. The same holds of
/// the athlete's totals.
pub proof fn lemma_fetched_once_in_five_minutes<S, M>(
    service: StravaService<S, M>,
    stats: S,
    rides: Vec<Activity<M>>,
    fetched_at: Instant,
    now: Instant,
)
    requires
        service.stats().entry() == Some(CacheEntry { value: stats, fetched_at }),
        service.rides().entry() == Some(CacheEntry { value: rides, fetched_at }),
    ensures
        now@ < fetched_at@ + CACHE_TTL_SECS * NANOS_PER_SEC ==> service.rides().lookup(now) == Some(
            rides,
        ) && service.stats().lookup(now) == Some(stats),
        now@ >= fetched_at@ + CACHE_TTL_SECS * NANOS_PER_SEC ==> service.rides().lookup(
            now,
        ).is_none() && service.stats().lookup(now).is_none(),
{
    lemma_cache_ttl(service.stats(), stats, fetched_at, now);
    lemma_cache_ttl(service.rides(), rides, fetched_at, now);
}

/// A request that is ready to be sent: its authorization, and the count of
/// its attempts.
#[derive(Debug)]
pub struct AuthorizedRequest {
    /// The value of the `Authorization` header.
    pub authorization: String,
    pub retry: Retry,
}

/// Prepares a request to the API.
///
/// Without a token there is nothing to send, and the failure stays with this
/// one call. With a token the request carries it as a bearer and starts with
/// all the attempts that `policy` allows.
pub fn get_strava_data(token: Option<&TokenData>, policy: RetryPolicy) -> (request: Result<
    AuthorizedRequest,
    ErrorKind,
>)
    ensures
        match token {
            Some(token) => request matches Ok(ready) && ready.authorization@ == bearer_value(
                token.access_token@,
            ) && ready.retry.policy() == policy && ready.retry.attempt() == 0,
            None => request matches Err(kind) && kind == ErrorKind::Auth,
        },
{
    match token {
        Some(token) => Ok(
            AuthorizedRequest {
                authorization: bearer(token.access_token.as_str()),
                retry: Retry::new(policy),
            },
        ),
        None => Err(ErrorKind::Auth),
    }
}

/// What the answer to a request for one activity amounts to. An activity is
/// fetched whenever it is asked for and kept nowhere.
pub fn get_activity<M>(reply: HttpReply<Activity<M>>) -> (activity: Result<Activity<M>, ErrorKind>)
    ensures
        activity == reply_outcome(reply),
{
    into_outcome(reply)
}

} // verus!
