//! One cycle of the beacon poller: from the durable status and what the feed
//! answered to the writes and notifications that are due.
//!
//! Nothing here touches the store, the feed or the notifier. A cycle starts
//! with [`begin_cycle`], which says whether the feed has to be asked, and ends
//! with [`process_beacon`], which lists what to do, in order.

use vstd::prelude::*;
use crate::beacon::{minutes_between, normalize, normalized_status, BeaconData, Status};
use crate::db_service::{TroyStatus, TroyStatusView};
use crate::http::ErrorKind;

verus! {

/// Seconds between two cycles.
pub const POLL_INTERVAL_SECS: u64 = 45;

/// Minutes after which a feed that never started is given up.
pub const NOT_STARTED_LIMIT_MINUTES: i64 = 45;

/// Minutes after which an upload that never produced an activity is taken to
/// be the end of the ride.
pub const UPLOAD_WAIT_LIMIT_MINUTES: i64 = 240;

/// Whether this instance runs the poller.
#[derive(Clone, Copy, Debug, PartialEq, Eq, Structural)]
pub enum Role {
    Leader,
    Follower,
}

/// The role that two region names give: an instance follows only where both
/// names are known and differ.
pub open spec fn role_of(current: Option<Seq<char>>, primary: Option<Seq<char>>) -> Role {
    match (current, primary) {
        (Some(here), Some(there)) => if here == there {
            Role::Leader
        } else {
            Role::Follower
        },
        _ => Role::Leader,
    }
}

/// Decides, once at startup, whether this instance polls.
///
/// The instance leads unless it knows both its own region and the primary one
/// and they differ. This is a convention between instances and no lock: two
/// instances that both lack a name both lead.
pub fn start(fly_region: Option<&str>, primary_region: Option<&str>) -> (role: Role)
    ensures
        role == role_of(fly_region.deep_view(), primary_region.deep_view()),
{
    match (fly_region, primary_region) {
        (Some(here), Some(there)) => {
            if *here == *there {
                Role::Leader
            } else {
                Role::Follower
            }
        },
        _ => Role::Leader,
    }
}

/// One thing for the poller's caller to do.
#[derive(Debug)]
pub enum Intent {
    /// Write the on-trail flag.
    SetOnTrail(bool),
    /// Forget the live-tracking feed.
    ClearBeaconUrl,
    /// Announce that a ride began; carries the feed's address.
    NotifyStart(String),
    /// Announce that a ride ended; carries the finished activity, if known.
    NotifyEnd(Option<i64>),
    /// Announce that the ride was thrown away.
    NotifyDiscard,
}

/// `Intent` with its text as a sequence of characters.
pub enum IntentView {
    SetOnTrail(bool),
    ClearBeaconUrl,
    NotifyStart(Seq<char>),
    NotifyEnd(Option<i64>),
    NotifyDiscard,
}

impl DeepView for Intent {
    type V = IntentView;

    open spec fn deep_view(&self) -> IntentView {
        match self {
            Intent::SetOnTrail(on) => IntentView::SetOnTrail(*on),
            Intent::ClearBeaconUrl => IntentView::ClearBeaconUrl,
            Intent::NotifyStart(url) => IntentView::NotifyStart(url@),
            Intent::NotifyEnd(activity) => IntentView::NotifyEnd(*activity),
            Intent::NotifyDiscard => IntentView::NotifyDiscard,
        }
    }
}

/// What a cycle does when no feed is known: it corrects a flag that still says
/// "on the trail", and does nothing else.
pub open spec fn heal_intents(is_on_trail: bool) -> Seq<IntentView> {
    if is_on_trail {
        seq![IntentView::SetOnTrail(false)]
    } else {
        seq![]
    }
}

/// What a status calls for, once normalized.
pub open spec fn status_intents(
    status: Status,
    was_on_trail: bool,
    beacon_url: Seq<char>,
    activity_id: Option<i64>,
    ride_time: int,
) -> Seq<IntentView> {
    match status {
        Status::Active | Status::AutoPaused | Status::ManualPaused => if was_on_trail {
            seq![IntentView::SetOnTrail(true)]
        } else {
            seq![IntentView::SetOnTrail(true), IntentView::NotifyStart(beacon_url)]
        },
        Status::Uploaded => if was_on_trail {
            seq![
                IntentView::ClearBeaconUrl,
                IntentView::SetOnTrail(false),
                IntentView::NotifyEnd(activity_id),
            ]
        } else {
            seq![IntentView::ClearBeaconUrl]
        },
        Status::Discarded => if was_on_trail {
            seq![
                IntentView::ClearBeaconUrl,
                IntentView::SetOnTrail(false),
                IntentView::NotifyDiscard,
            ]
        } else {
            seq![IntentView::ClearBeaconUrl]
        },
        Status::NotStarted => if ride_time > NOT_STARTED_LIMIT_MINUTES {
            seq![IntentView::ClearBeaconUrl]
        } else {
            seq![]
        },
        Status::UploadedLie => if ride_time > UPLOAD_WAIT_LIMIT_MINUTES {
            seq![IntentView::SetOnTrail(false), IntentView::NotifyEnd(None)]
        } else {
            seq![]
        },
        Status::Unknown => seq![],
    }
}

/// What a snapshot calls for: its status is normalized, its age is taken at
/// `now`, and the table of [`status_intents`] decides.
pub open spec fn snapshot_intents(
    was_on_trail: bool,
    beacon_url: Seq<char>,
    snapshot: BeaconData,
    now: int,
) -> Seq<IntentView> {
    status_intents(
        normalized_status(snapshot.activity_id.is_some(), snapshot.status),
        was_on_trail,
        beacon_url,
        snapshot.activity_id,
        minutes_between(now, snapshot.update_time@),
    )
}

/// What a whole cycle does.
///
/// Without a feed the cycle only heals the flag. With one, a feed that is gone
/// is forgotten, any other failure changes nothing, and a snapshot is acted on.
pub open spec fn cycle_intents(
    troy_status: TroyStatusView,
    fetched: Result<BeaconData, ErrorKind>,
    now: int,
) -> Seq<IntentView> {
    match troy_status.beacon_url {
        None => heal_intents(troy_status.is_on_trail),
        Some(beacon_url) => match fetched {
            Ok(snapshot) => snapshot_intents(troy_status.is_on_trail, beacon_url, snapshot, now),
            Err(ErrorKind::NotFound) => seq![IntentView::ClearBeaconUrl],
            Err(_) => seq![],
        },
    }
}

/// How a cycle begins.
#[derive(Debug)]
pub enum CycleStart {
    /// Ask the feed at this address, then call [`process_beacon`].
    Fetch(String),
    /// No feed is known: do these things and end the cycle.
    Done(Vec<Intent>),
}

/// `CycleStart` with its text as sequences of characters.
pub enum CycleStartView {
    Fetch(Seq<char>),
    Done(Seq<IntentView>),
}

impl DeepView for CycleStart {
    type V = CycleStartView;

    open spec fn deep_view(&self) -> CycleStartView {
        match self {
            CycleStart::Fetch(url) => CycleStartView::Fetch(url@),
            CycleStart::Done(intents) => CycleStartView::Done(intents.deep_view()),
        }
    }
}

fn heal(is_on_trail: bool) -> (intents: Vec<Intent>)
    ensures
        intents.deep_view() == heal_intents(is_on_trail),
{
    let mut intents: Vec<Intent> = Vec::new();
    if is_on_trail {
        intents.push(Intent::SetOnTrail(false));
    }
    assert(intents.deep_view() =~= heal_intents(is_on_trail));
    intents
}

/// Opens a cycle on the durable status.
///
/// With a feed the caller is told to fetch it. Without one the cycle is over
/// at once: a flag that still says "on the trail" is set to false, and nothing
/// else happens.
pub fn begin_cycle(troy_status: &TroyStatus) -> (step: CycleStart)
    ensures
        step.deep_view() == match troy_status@.beacon_url {
            Some(beacon_url) => CycleStartView::Fetch(beacon_url),
            None => CycleStartView::Done(heal_intents(troy_status.is_on_trail)),
        },
{
    match &troy_status.beacon_url {
        Some(beacon_url) => CycleStart::Fetch(beacon_url.clone()),
        None => CycleStart::Done(heal(troy_status.is_on_trail)),
    }
}

/// Acts on a normalized status.
fn dispatch(
    status: Status,
    was_on_trail: bool,
    beacon_url: &String,
    activity_id: Option<i64>,
    ride_time: i64,
) -> (intents: Vec<Intent>)
    ensures
        intents.deep_view() == status_intents(
            status,
            was_on_trail,
            beacon_url@,
            activity_id,
            ride_time as int,
        ),
{
    let mut intents: Vec<Intent> = Vec::new();
    match status {
        Status::Active | Status::AutoPaused | Status::ManualPaused => {
            intents.push(Intent::SetOnTrail(true));
            if !was_on_trail {
                intents.push(Intent::NotifyStart(beacon_url.clone()));
            }
        },
        Status::Uploaded => {
            intents.push(Intent::ClearBeaconUrl);
            if was_on_trail {
                intents.push(Intent::SetOnTrail(false));
                intents.push(Intent::NotifyEnd(activity_id));
            }
        },
        Status::Discarded => {
            intents.push(Intent::ClearBeaconUrl);
            if was_on_trail {
                intents.push(Intent::SetOnTrail(false));
                intents.push(Intent::NotifyDiscard);
            }
        },
        Status::NotStarted => {
            if ride_time > NOT_STARTED_LIMIT_MINUTES {
                intents.push(Intent::ClearBeaconUrl);
            }
        },
        Status::UploadedLie => {
            if ride_time > UPLOAD_WAIT_LIMIT_MINUTES {
                intents.push(Intent::SetOnTrail(false));
                intents.push(Intent::NotifyEnd(None));
            }
        },
        Status::Unknown => {},
    }
    assert(intents.deep_view() =~= status_intents(
        status,
        was_on_trail,
        beacon_url@,
        activity_id,
        ride_time as int,
    ));
    intents
}

/// Closes a cycle: lists, in order, what the durable status and the feed's
/// answer call for at `now` (seconds since the Unix epoch).
///
/// The list is empty where nothing is to be done. The function keeps no state
/// between cycles: the same three arguments give the same list.
pub fn process_beacon(
    troy_status: &TroyStatus,
    fetched: Result<BeaconData, ErrorKind>,
    now: i64,
) -> (intents: Vec<Intent>)
    ensures
        intents.deep_view() == cycle_intents(troy_status@, fetched, now as int),
{
    match &troy_status.beacon_url {
        None => heal(troy_status.is_on_trail),
        Some(beacon_url) => match fetched {
            Ok(snapshot) => {
                let snapshot = snapshot.normalized();
                let ride_time = snapshot.ride_time(now);
                dispatch(
                    snapshot.status,
                    troy_status.is_on_trail,
                    beacon_url,
                    snapshot.activity_id,
                    ride_time,
                )
            },
            Err(ErrorKind::NotFound) => {
                let mut intents: Vec<Intent> = Vec::new();
                intents.push(Intent::ClearBeaconUrl);
                assert(intents.deep_view() =~= seq![IntentView::ClearBeaconUrl]);
                intents
            },
            Err(_) => {
                let intents: Vec<Intent> = Vec::new();
                assert(intents.deep_view() =~= Seq::<IntentView>::empty());
                intents
            },
        },
    }
}

/// Without a feed a cycle does one thing at most: where the flag says "on the
/// trail" it is set to false, once, and nothing else is written or announced,
/// whatever the feed would have answered; where the flag says "off" nothing
/// happens at all.
pub proof fn lemma_no_beacon_only_heals(
    troy_status: TroyStatusView,
    fetched: Result<BeaconData, ErrorKind>,
    now: int,
)
    requires
        troy_status.beacon_url.is_none(),
    ensures
        troy_status.is_on_trail ==> cycle_intents(troy_status, fetched, now) == seq![
            IntentView::SetOnTrail(false),
        ],
        !troy_status.is_on_trail ==> cycle_intents(troy_status, fetched, now)
            == Seq::<IntentView>::empty(),
{
}

/// A start is announced only when the flag goes from off to on, and an end or
/// a discard only when it goes from on to off or an upload never showed up:
/// every announcement comes with the write of the flag that it is about, and
/// the write comes first.
pub proof fn lemma_announcements_follow_writes(
    status: Status,
    was_on_trail: bool,
    beacon_url: Seq<char>,
    activity_id: Option<i64>,
    ride_time: int,
)
    ensures
        forall|i: int|
            0 <= i < status_intents(status, was_on_trail, beacon_url, activity_id, ride_time).len()
                ==> match #[trigger] status_intents(
                status,
                was_on_trail,
                beacon_url,
                activity_id,
                ride_time,
            )[i] {
                IntentView::NotifyStart(_) => i > 0 && status_intents(
                    status,
                    was_on_trail,
                    beacon_url,
                    activity_id,
                    ride_time,
                )[i - 1] == IntentView::SetOnTrail(true) && !was_on_trail,
                IntentView::NotifyEnd(_) | IntentView::NotifyDiscard => i > 0 && status_intents(
                    status,
                    was_on_trail,
                    beacon_url,
                    activity_id,
                    ride_time,
                )[i - 1] == IntentView::SetOnTrail(false),
                _ => true,
            },
{
}

/// The durable status once an intent is carried out at `written_at` (seconds
/// since the Unix epoch): a write of the flag also records when it was made,
/// and a notification writes nothing.
pub open spec fn status_after(
    troy_status: TroyStatusView,
    intent: IntentView,
    written_at: u64,
) -> TroyStatusView {
    match intent {
        IntentView::SetOnTrail(is_on_trail) => TroyStatusView {
            is_on_trail,
            trail_status_updated: Some(written_at),
            ..troy_status
        },
        IntentView::ClearBeaconUrl => TroyStatusView { beacon_url: None, ..troy_status },
        _ => troy_status,
    }
}

/// The durable status once a cycle's intents are carried out in their order.
pub open spec fn status_after_all(
    troy_status: TroyStatusView,
    intents: Seq<IntentView>,
    written_at: u64,
) -> TroyStatusView
    decreases intents.len(),
{
    if intents.len() == 0 {
        troy_status
    } else {
        status_after_all(
            status_after(troy_status, intents[0], written_at),
            intents.drop_first(),
            written_at,
        )
    }
}

/// Whether a cycle announces the start of a ride.
pub open spec fn announces_start(intents: Seq<IntentView>) -> bool {
    exists|i: int| 0 <= i < intents.len() && #[trigger] intents[i] is NotifyStart
}

impl TroyStatus {
    /// Carries out an intent on a copy of the durable status held in memory,
    /// as the status store does on its row.
    pub fn apply(&mut self, intent: &Intent, written_at: u64)
        ensures
            final(self)@ == status_after(old(self)@, intent.deep_view(), written_at),
    {
        match intent {
            Intent::SetOnTrail(is_on_trail) => {
                self.is_on_trail = *is_on_trail;
                self.trail_status_updated = Some(written_at);
            },
            Intent::ClearBeaconUrl => {
                self.beacon_url = None;
            },
            _ => {},
        }
    }
}

/// What the writes of a cycle leave behind; no cycle has more than three
/// intents.
proof fn lemma_status_after_cycle(
    troy_status: TroyStatusView,
    intents: Seq<IntentView>,
    written_at: u64,
)
    requires
        intents.len() <= 3,
    ensures
        status_after_all(troy_status, intents, written_at) == if intents.len() == 0 {
            troy_status
        } else if intents.len() == 1 {
            status_after(troy_status, intents[0], written_at)
        } else if intents.len() == 2 {
            status_after(status_after(troy_status, intents[0], written_at), intents[1], written_at)
        } else {
            status_after(
                status_after(
                    status_after(troy_status, intents[0], written_at),
                    intents[1],
                    written_at,
                ),
                intents[2],
                written_at,
            )
        },
    decreases intents.len(),
{
    if intents.len() > 0 {
        lemma_status_after_cycle(
            status_after(troy_status, intents[0], written_at),
            intents.drop_first(),
            written_at,
        );
    }
}

/// The start of a ride is announced once.
///
/// A cycle that announces a start leaves the flag set, and with the flag set
/// no later cycle announces a start, whatever the feed answers then.
pub proof fn lemma_start_is_announced_once(
    troy_status: TroyStatusView,
    fetched: Result<BeaconData, ErrorKind>,
    now: int,
    written_at: u64,
    fetched_next: Result<BeaconData, ErrorKind>,
    next: int,
)
    requires
        announces_start(cycle_intents(troy_status, fetched, now)),
    ensures
        status_after_all(
            troy_status,
            cycle_intents(troy_status, fetched, now),
            written_at,
        ).is_on_trail,
        !announces_start(
            cycle_intents(
                status_after_all(troy_status, cycle_intents(troy_status, fetched, now), written_at),
                fetched_next,
                next,
            ),
        ),
{
    let intents = cycle_intents(troy_status, fetched, now);
    let i = choose|i: int| 0 <= i < intents.len() && #[trigger] intents[i] is NotifyStart;
    assert(intents[i] is NotifyStart);
    lemma_status_after_cycle(troy_status, intents, written_at);
}

/// A feed that a cycle forgets stays forgotten, and what follows is quiet.
///
/// Once a cycle has cleared the feed's address, the next cycle does not ask
/// the feed and announces nothing: at most it sets a flag to false that was
/// left standing. The cycle after that does nothing at all.
pub proof fn lemma_forgotten_feed_is_quiet(
    troy_status: TroyStatusView,
    fetched: Result<BeaconData, ErrorKind>,
    now: int,
    written_at: u64,
    fetched_next: Result<BeaconData, ErrorKind>,
    next: int,
    fetched_last: Result<BeaconData, ErrorKind>,
    last: int,
)
    requires
        exists|i: int|
            0 <= i < cycle_intents(troy_status, fetched, now).len() && #[trigger] cycle_intents(
                troy_status,
                fetched,
                now,
            )[i] == IntentView::ClearBeaconUrl,
    ensures
        ({
            let second = status_after_all(
                troy_status,
                cycle_intents(troy_status, fetched, now),
                written_at,
            );
            let third = status_after_all(
                second,
                cycle_intents(second, fetched_next, next),
                written_at,
            );
            &&& second.beacon_url.is_none()
            &&& cycle_intents(second, fetched_next, next) == heal_intents(second.is_on_trail)
            &&& third.beacon_url.is_none()
            &&& !third.is_on_trail
            &&& cycle_intents(third, fetched_last, last) == Seq::<IntentView>::empty()
        }),
{
    let intents = cycle_intents(troy_status, fetched, now);
    let i = choose|i: int|
        0 <= i < intents.len() && #[trigger] intents[i] == IntentView::ClearBeaconUrl;
    assert(intents[i] == IntentView::ClearBeaconUrl);
    lemma_status_after_cycle(troy_status, intents, written_at);
    let second = status_after_all(troy_status, intents, written_at);
    lemma_status_after_cycle(second, cycle_intents(second, fetched_next, next), written_at);
}

/// An upload that never shows up is announced again and again.
///
/// A snapshot that claims an upload without naming an activity ends the ride
/// once it is more than `UPLOAD_WAIT_LIMIT_MINUTES` old. That cycle leaves the
/// feed's address in place, so for as long as the feed keeps answering with
/// such a snapshot every cycle sets the flag to false and announces the end
/// anew. A feed that never started is treated otherwise: it is forgotten.
pub proof fn lemma_overdue_upload_repeats(
    troy_status: TroyStatusView,
    snapshot: BeaconData,
    now: int,
    written_at: u64,
    next: int,
)
    requires
        troy_status.beacon_url is Some,
        snapshot.status == Status::Uploaded,
        snapshot.activity_id is None,
        minutes_between(now, snapshot.update_time@) > UPLOAD_WAIT_LIMIT_MINUTES,
        next >= now,
    ensures
        cycle_intents(troy_status, Ok(snapshot), now) == seq![
            IntentView::SetOnTrail(false),
            IntentView::NotifyEnd(None),
        ],
        status_after_all(
            troy_status,
            cycle_intents(troy_status, Ok(snapshot), now),
            written_at,
        ).beacon_url == troy_status.beacon_url,
        cycle_intents(
            status_after_all(
                troy_status,
                cycle_intents(troy_status, Ok(snapshot), now),
                written_at,
            ),
            Ok(snapshot),
            next,
        ) == seq![IntentView::SetOnTrail(false), IntentView::NotifyEnd(None)],
{
    lemma_status_after_cycle(
        troy_status,
        cycle_intents(troy_status, Ok(snapshot), now),
        written_at,
    );
}

} // verus!
