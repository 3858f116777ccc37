//! Beacon snapshots: the wire codes of an activity's status, the timestamp a
//! snapshot carries, and the rule that reconciles a reported status with the
//! presence of a finished activity.

use vstd::prelude::*;
use crate::http::{into_outcome, reply_outcome, ErrorKind, HttpReply};

verus! {

/// What a live-tracking feed says an activity is doing.
///
/// `UploadedLie` is never sent by the feed: it marks a snapshot that claims to
/// be uploaded while it names no finished activity.
#[derive(Clone, Copy, Debug, PartialEq, Eq, Structural)]
pub enum Status {
    Unknown,
    Active,
    AutoPaused,
    ManualPaused,
    Uploaded,
    Discarded,
    NotStarted,
    UploadedLie,
}

impl Status {
    /// The status that an integer of the feed stands for. Every integer
    /// outside `1..=7` stands for `Unknown`, and so does 4.
    pub open spec fn of_code(code: int) -> Status {
        if code == 1 {
            Status::Active
        } else if code == 2 {
            Status::AutoPaused
        } else if code == 3 {
            Status::ManualPaused
        } else if code == 5 {
            Status::Uploaded
        } else if code == 6 {
            Status::Discarded
        } else if code == 7 {
            Status::NotStarted
        } else {
            Status::Unknown
        }
    }

    /// The integer that the feed uses for a status; `UploadedLie` has none.
    pub open spec fn wire_code(self) -> Option<int> {
        match self {
            Status::Active => Some(1int),
            Status::AutoPaused => Some(2int),
            Status::ManualPaused => Some(3int),
            Status::Unknown => Some(4int),
            Status::Uploaded => Some(5int),
            Status::Discarded => Some(6int),
            Status::NotStarted => Some(7int),
            Status::UploadedLie => None,
        }
    }

    /// The feed's integer for this status, or `None` for `UploadedLie`, which
    /// is never written back.
    pub fn code(self) -> (code: Option<i64>)
        ensures
            match code {
                Some(code) => self.wire_code() == Some(code as int),
                None => self.wire_code().is_none(),
            },
    {
        match self {
            Status::Active => Some(1),
            Status::AutoPaused => Some(2),
            Status::ManualPaused => Some(3),
            Status::Unknown => Some(4),
            Status::Uploaded => Some(5),
            Status::Discarded => Some(6),
            Status::NotStarted => Some(7),
            Status::UploadedLie => None,
        }
    }
}

impl From<i64> for Status {
    /// Decodes the feed's integer.
    fn from(value: i64) -> (status: Status) {
        match value {
            1 => Status::Active,
            2 => Status::AutoPaused,
            3 => Status::ManualPaused,
            5 => Status::Uploaded,
            6 => Status::Discarded,
            7 => Status::NotStarted,
            _ => Status::Unknown,
        }
    }
}

impl vstd::std_specs::convert::FromSpecImpl<i64> for Status {
    open spec fn obeys_from_spec() -> bool {
        true
    }

    open spec fn from_spec(value: i64) -> Status {
        Status::of_code(value as int)
    }
}

/// Decoding undoes encoding: a status that has a wire code is what its code
/// decodes to, and the codes `1..=7` are their own round trip.
pub proof fn lemma_status_code_round_trip(status: Status, code: int)
    ensures
        status.wire_code() matches Some(c) ==> Status::of_code(c) == status,
        1 <= code <= 7 ==> Status::of_code(code).wire_code() == Some(code),
        Status::of_code(code) != Status::UploadedLie,
{
}

/// A moment given in whole seconds since the Unix epoch, as the feed sends it.
#[derive(Clone, Copy, Debug, PartialEq, Eq, Structural)]
pub struct EpochDateTime {
    epoch: i64,
}

impl View for EpochDateTime {
    type V = int;

    closed spec fn view(&self) -> int {
        self.epoch as int
    }
}

impl EpochDateTime {
    /// The moment `epoch` seconds after the Unix epoch, or before it where
    /// `epoch` is negative.
    pub fn new(epoch: i64) -> (moment: EpochDateTime)
        ensures
            moment@ == epoch,
    {
        EpochDateTime { epoch }
    }

    /// Seconds since the Unix epoch.
    pub fn timestamp(&self) -> (epoch: i64)
        ensures
            epoch == self@,
    {
        self.epoch
    }
}

/// One reading of the live-tracking feed, reduced to what the poller acts on.
#[derive(Clone, Copy, Debug, PartialEq, Eq, Structural)]
pub struct BeaconData {
    pub status: Status,
    pub activity_id: Option<i64>,
    pub update_time: EpochDateTime,
}

/// The status to act on, given whether the snapshot names a finished activity.
///
/// An activity id outweighs the status field, which can lag behind: with an id
/// anything but `Uploaded` and `Discarded` counts as `Uploaded`. Without an
/// id a reported `Uploaded` is not believed and becomes `UploadedLie`.
pub open spec fn normalized_status(has_activity_id: bool, status: Status) -> Status {
    if has_activity_id {
        if status == Status::Uploaded || status == Status::Discarded {
            status
        } else {
            Status::Uploaded
        }
    } else if status == Status::Uploaded {
        Status::UploadedLie
    } else {
        status
    }
}

/// Whole minutes from `then` to `now`, rounded towards zero.
pub open spec fn minutes_between(now: int, then: int) -> int {
    if now >= then {
        (now - then) / 60
    } else {
        -((then - now) / 60)
    }
}

/// Applies the normalization rule to a status.
pub fn normalize(has_activity_id: bool, status: Status) -> (normalized: Status)
    ensures
        normalized == normalized_status(has_activity_id, status),
{
    match (has_activity_id, status) {
        (true, Status::Uploaded) => Status::Uploaded,
        (true, Status::Discarded) => Status::Discarded,
        (true, _) => Status::Uploaded,
        (false, Status::Uploaded) => Status::UploadedLie,
        (false, other) => other,
    }
}

impl BeaconData {
    /// The snapshot with its status normalized; nothing else changes.
    pub fn normalized(self) -> (snapshot: BeaconData)
        ensures
            snapshot.status == normalized_status(self.activity_id.is_some(), self.status),
            snapshot.activity_id == self.activity_id,
            snapshot.update_time == self.update_time,
    {
        BeaconData {
            status: normalize(self.activity_id.is_some(), self.status),
            activity_id: self.activity_id,
            update_time: self.update_time,
        }
    }

    /// Minutes since the snapshot was last updated, as seen at `now` (seconds
    /// since the Unix epoch).
    pub fn ride_time(&self, now: i64) -> (minutes: i64)
        ensures
            minutes == minutes_between(now as int, self.update_time@),
    {
        let elapsed: i128 = now as i128 - self.update_time.timestamp() as i128;
        let minutes: i128 = elapsed / 60;
        minutes as i64
    }
}

/// What normalization guarantees, whatever the feed reported: with an activity
/// id the result is `Uploaded` or `Discarded`; without one it is never
/// `Uploaded`; a status that the rule leaves alone is left alone again; and the
/// rule depends on nothing but its two arguments.
pub proof fn lemma_normalization_total(has_activity_id: bool, status: Status)
    ensures
        has_activity_id ==> normalized_status(has_activity_id, status) == Status::Uploaded
            || normalized_status(has_activity_id, status) == Status::Discarded,
        !has_activity_id ==> normalized_status(has_activity_id, status) != Status::Uploaded,
        !has_activity_id && status != Status::Uploaded ==> normalized_status(
            has_activity_id,
            status,
        ) == status,
        normalized_status(has_activity_id, normalized_status(has_activity_id, status))
            == normalized_status(has_activity_id, status),
{
}

/// The header that the feed wants on every request, and its value.
pub const BEACON_HEADER: (&'static str, &'static str) = ("X-Requested-With", "XMLHttpRequest");

/// What the feed's answer amounts to: a snapshot, or the reason why there is
/// none. A feed that is gone answers with `NotFound`.
pub fn get_beacon_data(reply: HttpReply<BeaconData>) -> (snapshot: Result<BeaconData, ErrorKind>)
    ensures
        snapshot == reply_outcome(reply),
{
    into_outcome(reply)
}

} // verus!
