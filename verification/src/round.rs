//! The rounds of the bot: mentions first, then by chance the home timeline and a tweet of its own,
//! then a rest, until it is told to stop.

use crate::chance::Pause;
use crate::chance::PauseView;
use crate::daemon::DaemonView;
use crate::daemon::MIN_INTERVAL_SECS;
use crate::daemon::TwitterDaemon;
use crate::tweet::Tweet;
use crate::tweet::TweetView;
use vstd::prelude::*;

verus! {

/// How long the bot waits before it looks again whether it may work, in seconds.
pub const IDLE_SECS: u64 = 60;

/// How many mentions are searched for in a round.
pub const MENTIONS_LIMIT: i32 = 20;

/// The home timeline is taken up when a number from zero to this one comes out as zero.
pub const TIMELINE_ODDS: u64 = 10;

/// A tweet of the bot's own is written when a number from zero to this one comes out as zero.
pub const POST_ODDS: u64 = 20;

/// Whether the bot may work.
#[derive(Clone, Copy, Debug, PartialEq, Eq, Structural)]
pub enum ServiceStatus {
    Stopped,
    Running,
}

/// What to do next in the course of the rounds.
#[derive(Debug, PartialEq, Eq)]
pub enum RunStep {
    /// Open a session of no user in particular, then go on with `session_opened`.
    Open,
    /// Store `seen` as the ids of the tweets dealt with, unless some are stored already, then go on
    /// with `ids_set_up`.
    SetUp { seen: Vec<String> },
    /// Load the ids of the tweets dealt with, then go on with `ids_loaded`.
    Load,
    /// Read whether the bot may work, then go on with `status_read`.
    ReadStatus,
    /// Wait, unless cancelled, then go on with `idled`.
    Idle { secs: u64 },
    /// Search for the latest mentions, then go on with `mentions_found`.
    Search { query: String, limit: i32 },
    /// Deal with a mention, then go on with `mention_handled`.
    HandleMention { tweet: Tweet, later: Vec<Tweet> },
    /// Rest after a mention, unless cancelled, then go on with `mention_rested`.
    RestAfterMention { pause: Pause, later: Vec<Tweet> },
    /// Draw a number up to `highest`, with `draw_up_to`, then go on with `timeline_rolled`.
    RollTimeline { highest: u64 },
    /// Take up the home timeline, then go on with `timeline_handled`.
    HandleTimeline,
    /// Draw a number up to `highest`, with `draw_up_to`, then go on with `post_rolled`.
    RollPost { highest: u64 },
    /// Write a tweet, then go on with `post_handled`.
    Post,
    /// Rest after a round, unless cancelled, then go on with `round_rested`.
    RestAfterRound { pause: Pause },
    /// End, with success.
    Finish,
    /// End, with the error that came up.
    Fail,
}

/// What a `RunStep` says.
pub enum RunStepView {
    Open,
    SetUp { seen: Seq<Seq<char>> },
    Load,
    ReadStatus,
    Idle { secs: int },
    Search { query: Seq<char>, limit: int },
    HandleMention { tweet: TweetView, later: Seq<TweetView> },
    RestAfterMention { pause: PauseView, later: Seq<TweetView> },
    RollTimeline { highest: int },
    HandleTimeline,
    RollPost { highest: int },
    Post,
    RestAfterRound { pause: PauseView },
    Finish,
    Fail,
}

impl View for RunStep {
    type V = RunStepView;

    open spec fn view(&self) -> RunStepView {
        match self {
            RunStep::Open => RunStepView::Open,
            RunStep::SetUp { seen } => RunStepView::SetUp { seen: seen.deep_view() },
            RunStep::Load => RunStepView::Load,
            RunStep::ReadStatus => RunStepView::ReadStatus,
            RunStep::Idle { secs } => RunStepView::Idle { secs: *secs as int },
            RunStep::Search { query, limit } => RunStepView::Search {
                query: query@,
                limit: *limit as int,
            },
            RunStep::HandleMention { tweet, later } => RunStepView::HandleMention {
                tweet: tweet@,
                later: later.deep_view(),
            },
            RunStep::RestAfterMention { pause, later } => RunStepView::RestAfterMention {
                pause: pause@,
                later: later.deep_view(),
            },
            RunStep::RollTimeline { highest } => RunStepView::RollTimeline {
                highest: *highest as int,
            },
            RunStep::HandleTimeline => RunStepView::HandleTimeline,
            RunStep::RollPost { highest } => RunStepView::RollPost { highest: *highest as int },
            RunStep::Post => RunStepView::Post,
            RunStep::RestAfterRound { pause } => RunStepView::RestAfterRound { pause: pause@ },
            RunStep::Finish => RunStepView::Finish,
            RunStep::Fail => RunStepView::Fail,
        }
    }
}

/// The step after the attempt to open a session: no ids are there to start with.
pub open spec fn after_session_opened(opened: bool) -> RunStepView {
    if opened {
        RunStepView::SetUp { seen: Seq::empty() }
    } else {
        RunStepView::Fail
    }
}

/// The step after the attempt to set up the ids.
pub open spec fn after_ids_set_up(set_up: bool) -> RunStepView {
    if set_up {
        RunStepView::Load
    } else {
        RunStepView::Fail
    }
}

/// The step after the attempt to load the ids.
pub open spec fn after_ids_loaded(loaded: bool) -> RunStepView {
    if loaded {
        RunStepView::ReadStatus
    } else {
        RunStepView::Fail
    }
}

/// The step after it is known whether the bot may work.
pub open spec fn after_status(daemon: DaemonView, status: ServiceStatus) -> RunStepView {
    match status {
        ServiceStatus::Stopped => RunStepView::Idle { secs: IDLE_SECS as int },
        ServiceStatus::Running => RunStepView::Search {
            query: seq!['@'] + daemon.handle,
            limit: MENTIONS_LIMIT as int,
        },
    }
}

/// The step after a wait or a rest at whose end a round starts.
pub open spec fn to_next_round(cancelled: bool) -> RunStepView {
    if cancelled {
        RunStepView::Finish
    } else {
        RunStepView::ReadStatus
    }
}

/// The draw for the home timeline.
pub open spec fn timeline_draw() -> RunStepView {
    RunStepView::RollTimeline { highest: TIMELINE_ODDS as int }
}

/// The draw for a tweet of the bot's own.
pub open spec fn post_draw() -> RunStepView {
    RunStepView::RollPost { highest: POST_ODDS as int }
}

/// The step that takes up the first of the mentions, or goes on where there is none.
pub open spec fn to_next_mention(mentions: Seq<TweetView>) -> RunStepView {
    if mentions.len() == 0 {
        timeline_draw()
    } else {
        RunStepView::HandleMention { tweet: mentions[0], later: mentions.skip(1) }
    }
}

/// The step after the search for mentions, none where it failed.
pub open spec fn after_search(found: Option<Seq<TweetView>>) -> RunStepView {
    match found {
        Some(mentions) => to_next_mention(mentions),
        None => timeline_draw(),
    }
}

/// The step after a mention.
pub open spec fn after_mention(later: Seq<TweetView>) -> RunStepView {
    RunStepView::RestAfterMention { pause: PauseView { shortest: 3, longest: 10 }, later }
}

/// The step after the rest that follows a mention.
pub open spec fn after_mention_rest(later: Seq<TweetView>, cancelled: bool) -> RunStepView {
    if cancelled {
        RunStepView::Finish
    } else {
        to_next_mention(later)
    }
}

/// The step after a number was drawn for the home timeline.
pub open spec fn after_timeline_roll(drawn: int) -> RunStepView {
    if drawn == 0 {
        RunStepView::HandleTimeline
    } else {
        post_draw()
    }
}

/// The rest at the end of a round.
pub open spec fn round_rest(daemon: DaemonView) -> RunStepView {
    RunStepView::RestAfterRound {
        pause: PauseView {
            shortest: daemon.min_interval_secs,
            longest: 5 * daemon.min_interval_secs,
        },
    }
}

/// The step after a number was drawn for a tweet of the bot's own.
pub open spec fn after_post_roll(daemon: DaemonView, drawn: int) -> RunStepView {
    if drawn == 0 {
        RunStepView::Post
    } else {
        round_rest(daemon)
    }
}

/// The longest rest between two rounds can be told in seconds.
pub open spec fn rest_fits(daemon: DaemonView) -> bool {
    5 * daemon.min_interval_secs <= u64::MAX
}

impl TwitterDaemon {
    /// Starts the rounds.
    pub fn run(&self) -> (r: RunStep)
        ensures
            r@ == RunStepView::Open,
    {
        RunStep::Open
    }

    /// Goes on after the attempt to open a session.
    pub fn session_opened(&self, opened: bool) -> (r: RunStep)
        ensures
            r@ == after_session_opened(opened),
    {
        if opened {
            let seen: Vec<String> = Vec::new();
            assert(seen.deep_view() =~= Seq::empty());
            RunStep::SetUp { seen }
        } else {
            RunStep::Fail
        }
    }

    /// Goes on after the attempt to set up the ids.
    pub fn ids_set_up(&self, set_up: bool) -> (r: RunStep)
        ensures
            r@ == after_ids_set_up(set_up),
    {
        if set_up {
            RunStep::Load
        } else {
            RunStep::Fail
        }
    }

    /// Goes on after the attempt to load the ids.
    pub fn ids_loaded(&self, loaded: bool) -> (r: RunStep)
        ensures
            r@ == after_ids_loaded(loaded),
    {
        if loaded {
            RunStep::ReadStatus
        } else {
            RunStep::Fail
        }
    }

    /// Goes on once it is known whether the bot may work.
    pub fn status_read(&self, status: ServiceStatus) -> (r: RunStep)
        ensures
            r@ == after_status(self@, status),
    {
        match status {
            ServiceStatus::Stopped => RunStep::Idle { secs: IDLE_SECS },
            ServiceStatus::Running => {
                proof {
                    reveal_strlit("@");
                }
                let mut query: String = "@".to_owned();
                query.append(self.handle());
                assert(query@ =~= seq!['@'] + self@.handle);
                RunStep::Search { query, limit: MENTIONS_LIMIT }
            },
        }
    }

    /// Goes on after a wait.
    pub fn idled(&self, cancelled: bool) -> (r: RunStep)
        ensures
            r@ == to_next_round(cancelled),
    {
        if cancelled {
            RunStep::Finish
        } else {
            RunStep::ReadStatus
        }
    }

    /// Takes up the first of the mentions.
    fn next_mention(&self, mentions: Vec<Tweet>) -> (r: RunStep)
        ensures
            r@ == to_next_mention(mentions.deep_view()),
    {
        if mentions.len() == 0 {
            return RunStep::RollTimeline { highest: TIMELINE_ODDS };
        }
        let ghost all = mentions.deep_view();
        let mut later = mentions;
        let tweet = later.remove(0);
        assert(later.deep_view() =~= all.skip(1));
        RunStep::HandleMention { tweet, later }
    }

    /// Goes on after the search for mentions, with nothing where it failed.
    pub fn mentions_found(&self, found: Option<Vec<Tweet>>) -> (r: RunStep)
        ensures
            r@ == after_search(found.deep_view()),
    {
        match found {
            Some(mentions) => self.next_mention(mentions),
            None => RunStep::RollTimeline { highest: TIMELINE_ODDS },
        }
    }

    /// Goes on after a mention, whatever came of it.
    pub fn mention_handled(&self, later: Vec<Tweet>) -> (r: RunStep)
        ensures
            r@ == after_mention(later.deep_view()),
    {
        RunStep::RestAfterMention { pause: Pause::between(3, 10), later }
    }

    /// Goes on after the rest that follows a mention.
    pub fn mention_rested(&self, later: Vec<Tweet>, cancelled: bool) -> (r: RunStep)
        ensures
            r@ == after_mention_rest(later.deep_view(), cancelled),
    {
        if cancelled {
            RunStep::Finish
        } else {
            self.next_mention(later)
        }
    }

    /// Goes on with the number drawn for the home timeline.
    pub fn timeline_rolled(&self, drawn: u64) -> (r: RunStep)
        ensures
            r@ == after_timeline_roll(drawn as int),
    {
        if drawn == 0 {
            RunStep::HandleTimeline
        } else {
            RunStep::RollPost { highest: POST_ODDS }
        }
    }

    /// Goes on after the home timeline, whatever came of it.
    pub fn timeline_handled(&self) -> (r: RunStep)
        ensures
            r@ == post_draw(),
    {
        RunStep::RollPost { highest: POST_ODDS }
    }

    /// Goes on with the number drawn for a tweet of the bot's own.
    pub fn post_rolled(&self, drawn: u64) -> (r: RunStep)
        requires
            drawn != 0 ==> rest_fits(self@),
        ensures
            r@ == after_post_roll(self@, drawn as int),
    {
        if drawn == 0 {
            RunStep::Post
        } else {
            self.post_handled()
        }
    }

    /// Goes on after a tweet of the bot's own, whatever came of it.
    pub fn post_handled(&self) -> (r: RunStep)
        requires
            rest_fits(self@),
        ensures
            r@ == round_rest(self@),
    {
        let shortest: u64 = self.min_interval_secs();
        RunStep::RestAfterRound { pause: Pause::between(shortest, 5 * shortest) }
    }

    /// Goes on after the rest at the end of a round.
    pub fn round_rested(&self, cancelled: bool) -> (r: RunStep)
        ensures
            r@ == to_next_round(cancelled),
    {
        if cancelled {
            RunStep::Finish
        } else {
            RunStep::ReadStatus
        }
    }
}

// ---------------------------------------------------------------------------------------------
// Laws
// ---------------------------------------------------------------------------------------------

/// What the outside reports about a step.
pub enum RunEvent {
    /// A session was opened, or could not be.
    Opened { opened: bool },
    /// The ids were set up, or could not be.
    SetUp { set_up: bool },
    /// The ids were loaded, or could not be.
    Loaded { loaded: bool },
    /// Whether the bot may work.
    Status { status: ServiceStatus },
    /// A wait or a rest ended, by itself or because the bot was cancelled.
    Waited { cancelled: bool },
    /// The search found mentions, or failed.
    Found { found: Option<Seq<TweetView>> },
    /// A number was drawn.
    Drawn { drawn: int },
    /// A task is over, whatever came of it.
    Done,
}

/// The step that follows `step` when `event` is reported; none where the event is no report about
/// that step.
pub open spec fn follow(daemon: DaemonView, step: RunStepView, event: RunEvent) -> Option<
    RunStepView,
> {
    match (step, event) {
        (RunStepView::Open, RunEvent::Opened { opened }) => Some(after_session_opened(opened)),
        (RunStepView::SetUp { .. }, RunEvent::SetUp { set_up }) => Some(after_ids_set_up(set_up)),
        (RunStepView::Load, RunEvent::Loaded { loaded }) => Some(after_ids_loaded(loaded)),
        (RunStepView::ReadStatus, RunEvent::Status { status }) => Some(
            after_status(daemon, status),
        ),
        (RunStepView::Idle { .. }, RunEvent::Waited { cancelled }) => Some(
            to_next_round(cancelled),
        ),
        (RunStepView::Search { .. }, RunEvent::Found { found }) => Some(after_search(found)),
        (RunStepView::HandleMention { later, .. }, RunEvent::Done) => Some(after_mention(later)),
        (RunStepView::RestAfterMention { later, .. }, RunEvent::Waited { cancelled }) => Some(
            after_mention_rest(later, cancelled),
        ),
        (RunStepView::RollTimeline { .. }, RunEvent::Drawn { drawn }) => Some(
            after_timeline_roll(drawn),
        ),
        (RunStepView::HandleTimeline, RunEvent::Done) => Some(post_draw()),
        (RunStepView::RollPost { .. }, RunEvent::Drawn { drawn }) => Some(
            after_post_roll(daemon, drawn),
        ),
        (RunStepView::Post, RunEvent::Done) => Some(round_rest(daemon)),
        (RunStepView::RestAfterRound { .. }, RunEvent::Waited { cancelled }) => Some(
            to_next_round(cancelled),
        ),
        _ => None,
    }
}

/// The step that a run reaches when `events` are reported, one about each step; none where one of
/// them is no report about its step.
pub open spec fn reached(daemon: DaemonView, events: Seq<RunEvent>) -> Option<RunStepView>
    decreases events.len(),
{
    if events.len() == 0 {
        Some(RunStepView::Open)
    } else {
        match reached(daemon, events.drop_last()) {
            Some(step) => follow(daemon, step, events.last()),
            None => None,
        }
    }
}

/// What was last reported on whether the bot may work.
pub open spec fn last_status(events: Seq<RunEvent>) -> Option<ServiceStatus>
    decreases events.len(),
{
    if events.len() == 0 {
        None
    } else {
        match events.last() {
            RunEvent::Status { status } => Some(status),
            _ => last_status(events.drop_last()),
        }
    }
}

/// The step is part of the work of a round.
pub open spec fn is_work(step: RunStepView) -> bool {
    match step {
        RunStepView::Open | RunStepView::SetUp { .. } | RunStepView::Load => false,
        RunStepView::ReadStatus | RunStepView::Idle { .. } => false,
        RunStepView::Finish | RunStepView::Fail => false,
        _ => true,
    }
}

/// The bot works only while it may: every step of a round comes after a status that let it run.
/// While it is stopped it only waits and looks again.
pub proof fn law_works_only_while_running(daemon: DaemonView, events: Seq<RunEvent>)
    ensures
        reached(daemon, events) matches Some(step) ==> {
            &&& is_work(step) ==> last_status(events) == Some(ServiceStatus::Running)
            &&& step is Idle ==> last_status(events) == Some(ServiceStatus::Stopped)
        },
    decreases events.len(),
{
    if events.len() > 0 {
        law_works_only_while_running(daemon, events.drop_last());
    }
}

/// Every wait and rest of a run has its bounds: a minute while the bot is stopped, three to ten
/// seconds after a mention, and after a round at least a minute and at most five times the
/// shortest rest.
pub proof fn law_rests_are_bounded(daemon: DaemonView, events: Seq<RunEvent>)
    requires
        daemon.min_interval_secs >= MIN_INTERVAL_SECS,
    ensures
        reached(daemon, events) matches Some(step) ==> {
            &&& step matches RunStepView::Idle { secs } ==> secs == 60
            &&& step matches RunStepView::RestAfterMention { pause, .. } ==> pause.shortest == 3
                && pause.longest == 10
            &&& step matches RunStepView::RestAfterRound { pause } ==> 60 <= pause.shortest
                <= pause.longest && pause.shortest == daemon.min_interval_secs && pause.longest
                == 5 * pause.shortest
        },
    decreases events.len(),
{
    if events.len() > 0 {
        law_rests_are_bounded(daemon, events.drop_last());
    }
}

/// The home timeline comes up when zero is drawn out of eleven numbers, a tweet of the bot's own
/// when zero is drawn out of twenty-one, and neither comes up otherwise.
pub proof fn law_tasks_are_drawn(daemon: DaemonView, events: Seq<RunEvent>)
    ensures
        reached(daemon, events) matches Some(step) ==> {
            &&& step matches RunStepView::RollTimeline { highest } ==> highest == 10
            &&& step matches RunStepView::RollPost { highest } ==> highest == 20
            &&& step is HandleTimeline <==> events.len() > 0 && events.last() == (RunEvent::Drawn {
                drawn: 0,
            }) && (reached(daemon, events.drop_last()) matches Some(
                RunStepView::RollTimeline { .. },
            ))
            &&& step is Post <==> events.len() > 0 && events.last() == (RunEvent::Drawn {
                drawn: 0,
            }) && (reached(daemon, events.drop_last()) matches Some(RunStepView::RollPost { .. }))
        },
{
}

/// Cancelling ends a run with success at every wait and rest.
pub proof fn law_cancelling_finishes(daemon: DaemonView, events: Seq<RunEvent>)
    requires
        reached(daemon, events) is Some,
        events.len() > 0,
        events.last() == (RunEvent::Waited { cancelled: true }),
    ensures
        reached(daemon, events) == Some(RunStepView::Finish),
{
}

/// A session was opened.
pub open spec fn has_session(events: Seq<RunEvent>) -> bool {
    events.len() >= 1 && events[0] == (RunEvent::Opened { opened: true })
}

/// A session was opened, and then the ids were set up.
pub open spec fn has_set_up(events: Seq<RunEvent>) -> bool {
    has_session(events) && events.len() >= 2 && events[1] == (RunEvent::SetUp { set_up: true })
}

/// A session was opened, then the ids were set up, then they were loaded.
pub open spec fn is_prepared(events: Seq<RunEvent>) -> bool {
    has_set_up(events) && events.len() >= 3 && events[2] == (RunEvent::Loaded { loaded: true })
}

/// A run opens a session, sets up an empty list of ids where none is stored, and loads the ids, in
/// this order and once, before anything else.
pub proof fn law_run_prepares_first(daemon: DaemonView, events: Seq<RunEvent>)
    ensures
        reached(daemon, events) matches Some(step) ==> {
            &&& step is Open <==> events.len() == 0
            &&& step is SetUp <==> events.len() == 1 && has_session(events)
            &&& step is SetUp ==> step->seen.len() == 0
            &&& step is Load <==> events.len() == 2 && has_set_up(events)
            &&& step is ReadStatus || step is Idle || step is Finish || is_work(step)
                ==> is_prepared(events)
        },
    decreases events.len(),
{
    if events.len() > 0 {
        law_run_prepares_first(daemon, events.drop_last());
    }
}

/// A run ends with success only when it is cancelled, and with an error exactly when a session
/// cannot be opened or the ids cannot be set up or loaded at its start: no failure of a search or
/// of a task ends it.
pub proof fn law_only_cancelling_ends_a_prepared_run(daemon: DaemonView, events: Seq<RunEvent>)
    requires
        reached(daemon, events) is Some,
    ensures
        reached(daemon, events)->0 is Finish ==> events.last() == (RunEvent::Waited {
            cancelled: true,
        }),
        reached(daemon, events)->0 is Fail <==> {
            ||| events.len() == 1 && events[0] == (RunEvent::Opened { opened: false })
            ||| events.len() == 2 && has_session(events) && events[1] == (RunEvent::SetUp {
                set_up: false,
            })
            ||| events.len() == 3 && has_set_up(events) && events[2] == (RunEvent::Loaded {
                loaded: false,
            })
        },
{
    if events.len() > 0 {
        law_run_prepares_first(daemon, events.drop_last());
    }
}

/// The mentions that are dealt with from `step` on, when the rests between them end as `cancels`
/// says.
pub open spec fn handled_mentions(step: RunStepView, cancels: Seq<bool>) -> Seq<TweetView>
    decreases cancels.len(),
{
    match step {
        RunStepView::HandleMention { tweet, later } => if cancels.len() == 0 {
            seq![tweet]
        } else {
            seq![tweet] + handled_mentions(after_mention_rest(later, cancels[0]), cancels.skip(1))
        },
        _ => Seq::empty(),
    }
}

/// The mentions that a search found are dealt with in order and once each, up to the first rest in
/// which the bot is cancelled.
pub proof fn law_mentions_in_order(mentions: Seq<TweetView>, cancels: Seq<bool>)
    requires
        cancels.len() >= mentions.len(),
    ensures
        (forall|i: int| 0 <= i < mentions.len() ==> !#[trigger] cancels[i]) ==> handled_mentions(
            after_search(Some(mentions)),
            cancels,
        ) == mentions,
        forall|k: int|
            0 <= k < mentions.len() && #[trigger] cancels[k] && (forall|i: int|
                0 <= i < k ==> !#[trigger] cancels[i]) ==> handled_mentions(
                after_search(Some(mentions)),
                cancels,
            ) == mentions.take(k + 1),
    decreases mentions.len(),
{
    let handled = handled_mentions(after_search(Some(mentions)), cancels);
    if mentions.len() == 0 {
        assert(handled =~= mentions);
    } else {
        let rest = mentions.skip(1);
        let later = cancels.skip(1);
        law_mentions_in_order(rest, later);
        assert(seq![mentions[0]] + rest =~= mentions);
        if cancels[0] {
            assert(handled_mentions(RunStepView::Finish, later) =~= Seq::empty());
            assert(handled =~= mentions.take(1));
        }
        if forall|i: int| 0 <= i < mentions.len() ==> !#[trigger] cancels[i] {
            assert forall|i: int| 0 <= i < rest.len() implies !#[trigger] later[i] by {
                assert(later[i] == cancels[i + 1]);
            }
        }
        assert forall|k: int|
            0 <= k < mentions.len() && #[trigger] cancels[k] && (forall|i: int|
                0 <= i < k ==> !#[trigger] cancels[i]) implies handled == mentions.take(
            k + 1,
        ) by {
            if k > 0 {
                assert(!cancels[0]);
                assert(later[k - 1]);
                assert forall|i: int| 0 <= i < k - 1 implies !#[trigger] later[i] by {
                    assert(later[i] == cancels[i + 1]);
                }
                assert(handled =~= seq![mentions[0]] + rest.take(k));
                assert(seq![mentions[0]] + rest.take(k) =~= mentions.take(k + 1));
            }
        }
    }
}

proof fn lemma_reached_push(daemon: DaemonView, events: Seq<RunEvent>, event: RunEvent)
    requires
        reached(daemon, events) is Some,
    ensures
        reached(daemon, events.push(event)) == follow(daemon, reached(daemon, events)->0, event),
{
    assert(events.push(event).drop_last() =~= events);
}

/// What is reported while `k` mentions are dealt with and rested after, with no rest cancelled.
pub open spec fn turns(k: nat) -> Seq<RunEvent> {
    Seq::new(
        2 * k,
        |i: int|
            if i % 2 == 0 {
                RunEvent::Done
            } else {
                RunEvent::Waited { cancelled: false }
            },
    )
}

/// Every mention that a search found gets its turn, in order and whatever their number: after `k`
/// of them were dealt with and rested after, the next one is taken up with all those behind it
/// still to come, and after the last one the home timeline is drawn for.
pub proof fn law_every_mention_gets_its_turn(
    daemon: DaemonView,
    before: Seq<RunEvent>,
    mentions: Seq<TweetView>,
    k: nat,
)
    requires
        reached(daemon, before) matches Some(RunStepView::Search { .. }),
        k <= mentions.len(),
    ensures
        ({
            let events = before.push(RunEvent::Found { found: Some(mentions) }) + turns(k);
            let rest = events.push(RunEvent::Done);
            let later = mentions.skip(k as int + 1);
            &&& k < mentions.len() ==> {
                &&& reached(daemon, events) == Some(
                    RunStepView::HandleMention { tweet: mentions[k as int], later },
                )
                &&& reached(daemon, rest) == Some(
                    RunStepView::RestAfterMention {
                        pause: PauseView { shortest: 3, longest: 10 },
                        later,
                    },
                )
                &&& reached(daemon, rest.push(RunEvent::Waited { cancelled: true })) == Some(
                    RunStepView::Finish,
                )
            }
            &&& k == mentions.len() ==> reached(daemon, events) == Some(
                RunStepView::RollTimeline { highest: 10 },
            )
        }),
    decreases k,
{
    let found = RunEvent::Found { found: Some(mentions) };
    let start = before.push(found);
    let events = start + turns(k);
    if k == 0 {
        lemma_reached_push(daemon, before, found);
        assert(events =~= start);
    } else {
        let last = (k - 1) as nat;
        let earlier = start + turns(last);
        let rest = earlier.push(RunEvent::Done);
        let rested = RunEvent::Waited { cancelled: false };
        law_every_mention_gets_its_turn(daemon, before, mentions, last);
        assert(events =~= rest.push(rested));
        lemma_reached_push(daemon, rest, rested);
        let later = mentions.skip(last as int + 1);
        if k < mentions.len() {
            assert(later[0] == mentions[k as int]);
            assert(later.skip(1) =~= mentions.skip(k as int + 1));
        }
    }
    if k < mentions.len() {
        assert(mentions.skip(0) =~= mentions);
        lemma_reached_push(daemon, events, RunEvent::Done);
        lemma_reached_push(
            daemon,
            events.push(RunEvent::Done),
            RunEvent::Waited { cancelled: true },
        );
    }
}

/// While it is stopped, the bot waits for a minute and looks again, unless it is cancelled.
pub proof fn law_stopped_bot_looks_again(daemon: DaemonView, before: Seq<RunEvent>)
    requires
        reached(daemon, before) == Some(RunStepView::ReadStatus),
    ensures
        ({
            let stopped = before.push(RunEvent::Status { status: ServiceStatus::Stopped });
            &&& reached(daemon, stopped) == Some(RunStepView::Idle { secs: 60 })
            &&& reached(daemon, stopped.push(RunEvent::Waited { cancelled: false })) == Some(
                RunStepView::ReadStatus,
            )
            &&& reached(daemon, stopped.push(RunEvent::Waited { cancelled: true })) == Some(
                RunStepView::Finish,
            )
        }),
{
    let event = RunEvent::Status { status: ServiceStatus::Stopped };
    lemma_reached_push(daemon, before, event);
    lemma_reached_push(daemon, before.push(event), RunEvent::Waited { cancelled: false });
    lemma_reached_push(daemon, before.push(event), RunEvent::Waited { cancelled: true });
}

/// `events` followed by a number that was drawn and, where a task came up, by the report that it is
/// over.
pub open spec fn with_draw(events: Seq<RunEvent>, drawn: int) -> Seq<RunEvent> {
    let rolled = events.push(RunEvent::Drawn { drawn });
    if drawn == 0 {
        rolled.push(RunEvent::Done)
    } else {
        rolled
    }
}

/// A running bot searches for an at sign and its whole handle, and asks for twenty mentions. Where
/// the search fails it goes on as if there were none.
pub proof fn law_running_bot_searches(daemon: DaemonView, before: Seq<RunEvent>)
    requires
        reached(daemon, before) == Some(RunStepView::ReadStatus),
    ensures
        ({
            let running = before.push(RunEvent::Status { status: ServiceStatus::Running });
            &&& reached(daemon, running) matches Some(RunStepView::Search { query, limit }) && {
                &&& limit == 20
                &&& query.len() == daemon.handle.len() + 1
                &&& query[0] == '@'
                &&& query.skip(1) == daemon.handle
            }
            &&& reached(daemon, running.push(RunEvent::Found { found: None })) == Some(
                RunStepView::RollTimeline { highest: 10 },
            )
        }),
{
    let event = RunEvent::Status { status: ServiceStatus::Running };
    lemma_reached_push(daemon, before, event);
    lemma_reached_push(daemon, before.push(event), RunEvent::Found { found: None });
    assert((seq!['@'] + daemon.handle).skip(1) =~= daemon.handle);
}

/// How a round goes on from the draw for the home timeline, for any two numbers drawn. The home
/// timeline comes up on zero and on no other number, then a tweet of the bot's own on zero and on
/// no other number, then there is a rest of one to five times the shortest one. The next round
/// starts after it, unless the bot is cancelled.
pub proof fn law_round_goes_on_to_its_rest(
    daemon: DaemonView,
    before: Seq<RunEvent>,
    first: int,
    second: int,
)
    requires
        reached(daemon, before) matches Some(RunStepView::RollTimeline { .. }),
    ensures
        ({
            let posting = with_draw(before, first);
            let resting = with_draw(posting, second);
            let least = daemon.min_interval_secs;
            &&& first == 0 ==> reached(
                daemon,
                before.push(RunEvent::Drawn { drawn: first }),
            ) == Some(RunStepView::HandleTimeline)
            &&& reached(daemon, posting) == Some(RunStepView::RollPost { highest: 20 })
            &&& second == 0 ==> reached(
                daemon,
                posting.push(RunEvent::Drawn { drawn: second }),
            ) == Some(RunStepView::Post)
            &&& reached(daemon, resting) == Some(
                RunStepView::RestAfterRound {
                    pause: PauseView { shortest: least, longest: 5 * least },
                },
            )
            &&& reached(daemon, resting.push(RunEvent::Waited { cancelled: false })) == Some(
                RunStepView::ReadStatus,
            )
            &&& reached(daemon, resting.push(RunEvent::Waited { cancelled: true })) == Some(
                RunStepView::Finish,
            )
        }),
{
    let posting = with_draw(before, first);
    let resting = with_draw(posting, second);
    let rolled = before.push(RunEvent::Drawn { drawn: first });
    lemma_reached_push(daemon, before, RunEvent::Drawn { drawn: first });
    lemma_reached_push(daemon, rolled, RunEvent::Done);
    let drawn = posting.push(RunEvent::Drawn { drawn: second });
    lemma_reached_push(daemon, posting, RunEvent::Drawn { drawn: second });
    lemma_reached_push(daemon, drawn, RunEvent::Done);
    lemma_reached_push(daemon, resting, RunEvent::Waited { cancelled: false });
    lemma_reached_push(daemon, resting, RunEvent::Waited { cancelled: true });
}

/// A step of the rounds is told by what it holds.
pub proof fn law_run_step_says_what_it_holds(step: RunStep)
    ensures
        match step {
            RunStep::Open => step@ is Open,
            RunStep::SetUp { seen } => step@ == (RunStepView::SetUp { seen: seen.deep_view() }),
            RunStep::Load => step@ is Load,
            RunStep::ReadStatus => step@ is ReadStatus,
            RunStep::Idle { secs } => step@ is Idle && step@->secs == secs,
            RunStep::Search { query, limit } => step@ is Search && step@->query == query@
                && step@->limit == limit,
            RunStep::HandleMention { tweet, later } => step@ == (RunStepView::HandleMention {
                tweet: tweet@,
                later: later.deep_view(),
            }),
            RunStep::RestAfterMention { pause, later } => step@ == (
            RunStepView::RestAfterMention { pause: pause@, later: later.deep_view() }),
            RunStep::RollTimeline { highest } => step@ is RollTimeline
                && step@->RollTimeline_highest == highest,
            RunStep::HandleTimeline => step@ is HandleTimeline,
            RunStep::RollPost { highest } => step@ is RollPost && step@->RollPost_highest
                == highest,
            RunStep::Post => step@ is Post,
            RunStep::RestAfterRound { pause } => step@ == (RunStepView::RestAfterRound {
                pause: pause@,
            }),
            RunStep::Finish => step@ is Finish,
            RunStep::Fail => step@ is Fail,
        },
{
}

/// The rest after a round is ruled out by nothing but the machine: it can be told wherever five
/// times the shortest rest is a number of seconds.
pub proof fn law_rest_fits(daemon: DaemonView)
    ensures
        5 * daemon.min_interval_secs <= 0xffff_ffff_ffff_ffff <==> rest_fits(daemon),
{
}

} // verus!
