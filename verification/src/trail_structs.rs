//! Trail systems as their data source reports them: an open-or-closed status
//! read leniently, and the ride statistics shown beside a trail.

use std::collections::HashMap;
use vstd::prelude::*;
use vstd::string::StringExecFns;
use crate::text::{decimal, push_decimal, push_signed_decimal, signed_decimal};

verus! {

/// Whether a trail system can be ridden.
#[derive(Clone, Copy, Debug, PartialEq, Eq, Structural)]
pub enum TrailStatus {
    Open,
    Caution,
    Closed,
    Freeze,
    Unknown,
}

/// What `str::to_lowercase` of the standard library returns for a text.
pub uninterp spec fn lowercase(text: Seq<char>) -> Seq<char>;

/// `str::to_lowercase` of the standard library: the text with every character
/// replaced by its lowercase form.
#[verifier::external_body]
fn to_lowercase(text: &str) -> (lowered: String)
    ensures
        lowered@ == lowercase(text@),
{
    text.to_lowercase()
}

/// The status that a name in lowercase stands for; every name but the four
/// known ones stands for `Unknown`.
pub open spec fn status_named(lowered: Seq<char>) -> TrailStatus {
    if lowered == "open"@ {
        TrailStatus::Open
    } else if lowered == "caution"@ {
        TrailStatus::Caution
    } else if lowered == "closed"@ {
        TrailStatus::Closed
    } else if lowered == "freeze"@ {
        TrailStatus::Freeze
    } else {
        TrailStatus::Unknown
    }
}

impl TrailStatus {
    /// Whether the status is one of the four that the data source knows.
    pub fn is_known(self) -> (known: bool)
        ensures
            known == (self != TrailStatus::Unknown),
    {
        match self {
            TrailStatus::Unknown => false,
            _ => true,
        }
    }

    /// Reads a status from a name that is already in lowercase.
    pub fn from_lowercase(lowered: &str) -> (status: TrailStatus)
        ensures
            status == status_named(lowered@),
    {
        if *lowered == *"open" {
            TrailStatus::Open
        } else if *lowered == *"caution" {
            TrailStatus::Caution
        } else if *lowered == *"closed" {
            TrailStatus::Closed
        } else if *lowered == *"freeze" {
            TrailStatus::Freeze
        } else {
            TrailStatus::Unknown
        }
    }

    /// Reads a status from what the data source sent, whatever its case.
    /// `None` stands for a value that is no text at all, which is `Unknown`
    /// like any name that is not known.
    pub fn deserialize(value: Option<&str>) -> (status: TrailStatus)
        ensures
            status == match value {
                Some(name) => status_named(lowercase(name@)),
                None => TrailStatus::Unknown,
            },
    {
        match value {
            Some(name) => {
                let lowered = to_lowercase(name);
                TrailStatus::from_lowercase(lowered.as_str())
            },
            None => TrailStatus::Unknown,
        }
    }
}

/// A forecast of a trail's status.
#[derive(Debug)]
pub struct PredictedStatus {
    pub status: TrailStatus,
    pub confidence: String,
    pub updated_at: String,
    pub status_description: String,
}

/// What the athlete has ridden on one trail system.
#[derive(Clone, Copy, Debug)]
pub struct TrailStats {
    pub id: u64,
    pub rides: i32,
    pub achievement_count: i64,
    pub total_moving_time: i64,
}

impl PartialEq for TrailStats {
    /// Two records are equal where they are of the same trail and count the
    /// same rides; the other fields do not matter.
    fn eq(&self, other: &Self) -> (same: bool) {
        self.id == other.id && self.rides == other.rides
    }
}

impl vstd::std_specs::cmp::PartialEqSpecImpl for TrailStats {
    open spec fn obeys_eq_spec() -> bool {
        true
    }

    open spec fn eq_spec(&self, other: &Self) -> bool {
        self.id == other.id && self.rides == other.rides
    }
}

impl Default for TrailStats {
    fn default() -> (stats: TrailStats)
        ensures
            stats.id == 0,
            stats.rides == 0,
            stats.achievement_count == 0,
            stats.total_moving_time == 0,
    {
        TrailStats { id: 0, rides: 0, achievement_count: 0, total_moving_time: 0 }
    }
}

impl TrailStats {
    /// The record of a trail with one more ride on it, where its three counts
    /// still fit their types.
    pub open spec fn with_ride(self, achievement_count: i64, moving_time: i64) -> Option<
        TrailStats,
    > {
        if self.rides + 1 <= i32::MAX && i64::MIN <= self.achievement_count + achievement_count
            <= i64::MAX && i64::MIN <= self.total_moving_time + moving_time <= i64::MAX {
            Some(
                TrailStats {
                    id: self.id,
                    rides: (self.rides + 1) as i32,
                    achievement_count: (self.achievement_count + achievement_count) as i64,
                    total_moving_time: (self.total_moving_time + moving_time) as i64,
                },
            )
        } else {
            None
        }
    }

    /// The record of a trail that nobody rode yet.
    pub fn new(id: u64) -> (stats: TrailStats)
        ensures
            stats.id == id,
            stats.rides == 0,
            stats.achievement_count == 0,
            stats.total_moving_time == 0,
    {
        TrailStats { id, rides: 0, achievement_count: 0, total_moving_time: 0 }
    }

    /// Counts one more ride on the trail, with its achievements and its
    /// moving time. Where a count would leave its type nothing is counted and
    /// the answer is `false`.
    pub fn add_ride(&mut self, achievement_count: i64, moving_time: i64) -> (counted: bool)
        ensures
            counted == old(self).with_ride(achievement_count, moving_time).is_some(),
            *final(self) == match old(self).with_ride(achievement_count, moving_time) {
                Some(stats) => stats,
                None => *old(self),
            },
    {
        let rides = match self.rides.checked_add(1) {
            Some(rides) => rides,
            None => {
                return false;
            },
        };
        let achievements = match self.achievement_count.checked_add(achievement_count) {
            Some(achievements) => achievements,
            None => {
                return false;
            },
        };
        let moving = match self.total_moving_time.checked_add(moving_time) {
            Some(moving) => moving,
            None => {
                return false;
            },
        };
        self.rides = rides;
        self.achievement_count = achievements;
        self.total_moving_time = moving;
        true
    }
}

/// A ride and the trail system it was ridden on.
#[derive(Clone, Copy, Debug)]
pub struct Visit {
    pub trail_id: u64,
    pub achievement_count: i64,
    pub moving_time: i64,
}

/// The record of a trail that nobody rode yet.
pub open spec fn unridden(id: u64) -> TrailStats {
    TrailStats { id, rides: 0, achievement_count: 0, total_moving_time: 0 }
}

/// The records of the trails after some visits, counted in their order: each
/// visit adds a ride to the record of its trail, which begins unridden.
/// `None` where a count leaves its type on the way.
pub open spec fn tally(visits: Seq<Visit>) -> Option<Map<u64, TrailStats>>
    decreases visits.len(),
{
    if visits.len() == 0 {
        Some(Map::empty())
    } else {
        match tally(visits.drop_last()) {
            None => None,
            Some(records) => {
                let visit = visits.last();
                let record = if records.contains_key(visit.trail_id) {
                    records[visit.trail_id]
                } else {
                    unridden(visit.trail_id)
                };
                match record.with_ride(visit.achievement_count, visit.moving_time) {
                    Some(counted) => Some(records.insert(visit.trail_id, counted)),
                    None => None,
                }
            },
        }
    }
}

/// Counts the rides on each trail system, with their achievements and moving
/// times; `None` where a count does not fit its type.
pub fn calculate_stats(visits: &Vec<Visit>) -> (stats: Option<HashMap<u64, TrailStats>>)
    ensures
        match stats {
            Some(records) => tally(visits@) == Some(records@),
            None => tally(visits@).is_none(),
        },
{
    broadcast use vstd::std_specs::hash::group_hash_axioms;

    let mut records: HashMap<u64, TrailStats> = HashMap::new();
    let mut i: usize = 0;
    proof {
        assert(visits@.take(0) =~= Seq::<Visit>::empty());
    }
    while i < visits.len()
        invariant
            i <= visits.len(),
            tally(visits@.take(i as int)) == Some(records@),
        decreases visits.len() - i,
    {
        let visit = visits[i];
        proof {
            assert(visits@.take(i + 1).drop_last() =~= visits@.take(i as int));
            assert(visits@.take(i + 1).last() == visit);
        }
        let mut record = match records.get(&visit.trail_id) {
            Some(record) => *record,
            None => TrailStats::new(visit.trail_id),
        };
        if !record.add_ride(visit.achievement_count, visit.moving_time) {
            proof {
                lemma_tally_fails_on(visits@, i + 1);
            }
            return None;
        }
        records.insert(visit.trail_id, record);
        i = i + 1;
    }
    proof {
        assert(visits@.take(visits.len() as int) =~= visits@);
    }
    Some(records)
}

/// Once a count has left its type, more visits do not bring it back.
proof fn lemma_tally_fails_on(visits: Seq<Visit>, front: int)
    requires
        0 <= front <= visits.len(),
        tally(visits.take(front)).is_none(),
    ensures
        tally(visits).is_none(),
    decreases visits.len() - front,
{
    if front == visits.len() {
        assert(visits.take(front) =~= visits);
    } else {
        assert(visits.take(front + 1).drop_last() =~= visits.take(front));
        lemma_tally_fails_on(visits, front + 1);
    }
}

/// `TrailStats` as shown to a visitor.
#[derive(Debug)]
pub struct TrailStatsDisplay {
    pub id: u64,
    pub rides: String,
    pub achievement_count: i64,
    pub total_moving_time: String,
}

/// A number of rides in words: "1 time", and "times" for every other number.
pub open spec fn rides_text(rides: int) -> Seq<char> {
    if rides == 1 {
        "1 time"@
    } else {
        signed_decimal(rides) + " times"@
    }
}

/// Half hours in `seconds`, rounded to the nearest, a quarter of an hour
/// rounding up. `seconds` is not negative.
pub open spec fn half_hours(seconds: int) -> int {
    (seconds + 900) / 1800
}

/// A moving time in hours, rounded to the nearest half hour: "never" for no
/// time at all, else whole hours as in "2h" and halves as in "1.5h", with a
/// minus sign in front where the time is negative.
pub open spec fn moving_time_text(seconds: int) -> Seq<char> {
    if seconds == 0 {
        "never"@
    } else {
        let magnitude = if seconds < 0 {
            -seconds
        } else {
            seconds
        };
        let sign = if seconds < 0 {
            "-"@
        } else {
            Seq::<char>::empty()
        };
        let halves = half_hours(magnitude);
        if halves % 2 == 0 {
            sign + decimal((halves / 2) as nat) + "h"@
        } else {
            sign + decimal((halves / 2) as nat) + ".5h"@
        }
    }
}

fn rides_to_text(rides: i32) -> (text: String)
    ensures
        text@ == rides_text(rides as int),
{
    let mut text = String::new();
    if rides == 1 {
        text.append("1 time");
    } else {
        push_signed_decimal(&mut text, rides as i64);
        text.append(" times");
    }
    assert(text@ =~= rides_text(rides as int));
    text
}

fn moving_time_to_text(seconds: i64) -> (text: String)
    ensures
        text@ == moving_time_text(seconds as int),
{
    let mut text = String::new();
    if seconds == 0 {
        text.append("never");
    } else {
        let magnitude: u64 = if seconds == i64::MIN {
            9223372036854775808u64
        } else if seconds < 0 {
            (-seconds) as u64
        } else {
            seconds as u64
        };
        if seconds < 0 {
            text.append("-");
        }
        let halves: u64 = (magnitude + 900) / 1800;
        push_decimal(&mut text, halves / 2);
        if halves % 2 == 0 {
            text.append("h");
        } else {
            text.append(".5h");
        }
    }
    assert(text@ =~= moving_time_text(seconds as int));
    text
}

impl TrailStatsDisplay {
    /// Renders a trail's statistics for display.
    pub fn from(stats: TrailStats) -> (display: TrailStatsDisplay)
        ensures
            display.id == stats.id,
            display.rides@ == rides_text(stats.rides as int),
            display.achievement_count == stats.achievement_count,
            display.total_moving_time@ == moving_time_text(stats.total_moving_time as int),
    {
        TrailStatsDisplay {
            id: stats.id,
            rides: rides_to_text(stats.rides),
            achievement_count: stats.achievement_count,
            total_moving_time: moving_time_to_text(stats.total_moving_time),
        }
    }
}

} // verus!
