//! Conversations: a tweet and the tweets it answers, followed up to a limited depth.

use crate::chance::Pause;
use crate::chance::PauseView;
use crate::tweet::Tweet;
use crate::tweet::TweetView;
use vstd::prelude::*;

verus! {

/// How many answered tweets are looked up at most.
pub const MAX_HISTORY_TWEETS: i64 = 21;

/// A conversation that is being followed upwards, while the bot rests.
#[derive(Debug, PartialEq, Eq)]
pub struct ThreadBuilder {
    /// The tweets found so far that have a text, newest first.
    collected: Vec<Tweet>,
    /// How many tweets have been visited.
    depth: i64,
    /// The id of the tweet that the last one answers.
    parent: Option<String>,
}

/// A conversation that is being followed upwards, while a tweet is looked up.
#[derive(Debug, PartialEq, Eq)]
pub struct ThreadLookup {
    /// The tweets found so far that have a text, newest first.
    collected: Vec<Tweet>,
    /// How many tweets have been visited.
    depth: i64,
}

/// What a `ThreadBuilder` holds.
pub struct ThreadBuilderView {
    pub collected: Seq<TweetView>,
    pub depth: int,
    pub parent: Option<Seq<char>>,
}

/// What a `ThreadLookup` holds.
pub struct ThreadLookupView {
    pub collected: Seq<TweetView>,
    pub depth: int,
}

impl View for ThreadBuilder {
    type V = ThreadBuilderView;

    closed spec fn view(&self) -> ThreadBuilderView {
        ThreadBuilderView {
            collected: self.collected.deep_view(),
            depth: self.depth as int,
            parent: self.parent.deep_view(),
        }
    }
}

impl View for ThreadLookup {
    type V = ThreadLookupView;

    closed spec fn view(&self) -> ThreadLookupView {
        ThreadLookupView { collected: self.collected.deep_view(), depth: self.depth as int }
    }
}

/// What to do next about a conversation.
#[derive(Debug, PartialEq, Eq)]
pub enum ThreadStep {
    /// Rest, then go on with `ThreadBuilder::rested`.
    Rest { pause: Pause, builder: ThreadBuilder },
    /// Look up the tweet `id`, then go on with `ThreadLookup::resume`.
    LookUp { id: String, lookup: ThreadLookup },
    /// The conversation is complete, oldest tweet first.
    Finished { thread: Vec<Tweet> },
}

/// What a `ThreadStep` says.
pub enum ThreadStepView {
    Rest { pause: PauseView, builder: ThreadBuilderView },
    LookUp { id: Seq<char>, lookup: ThreadLookupView },
    Finished { thread: Seq<TweetView> },
}

impl View for ThreadStep {
    type V = ThreadStepView;

    open spec fn view(&self) -> ThreadStepView {
        match self {
            ThreadStep::Rest { pause, builder } => ThreadStepView::Rest {
                pause: pause@,
                builder: builder@,
            },
            ThreadStep::LookUp { id, lookup } => ThreadStepView::LookUp {
                id: id@,
                lookup: lookup@,
            },
            ThreadStep::Finished { thread } => ThreadStepView::Finished {
                thread: thread.deep_view(),
            },
        }
    }
}

/// The tweets of a chain that have a text.
pub open spec fn with_text(chain: Seq<TweetView>) -> Seq<TweetView> {
    chain.filter(|tweet: TweetView| tweet.text is Some)
}

/// The step after `tweet` has been found, with `lookup` holding what was found before it.
pub open spec fn after_tweet(lookup: ThreadLookupView, tweet: TweetView) -> ThreadStepView {
    let collected = if tweet.text is Some {
        lookup.collected.push(tweet)
    } else {
        lookup.collected
    };
    if lookup.depth >= MAX_HISTORY_TWEETS {
        ThreadStepView::Finished { thread: collected.reverse() }
    } else {
        ThreadStepView::Rest {
            pause: PauseView { shortest: 1, longest: 3 },
            builder: ThreadBuilderView {
                collected,
                depth: lookup.depth + 1,
                parent: tweet.in_reply_to_status_id,
            },
        }
    }
}

/// The first step about a conversation that ends in `tweet`.
pub open spec fn first_thread_step(tweet: TweetView) -> ThreadStepView {
    after_tweet(ThreadLookupView { collected: Seq::empty(), depth: 0 }, tweet)
}

/// The step after a rest: a tweet that answers none ends the conversation.
pub open spec fn after_thread_rest(builder: ThreadBuilderView) -> ThreadStepView {
    match builder.parent {
        Some(id) => ThreadStepView::LookUp {
            id,
            lookup: ThreadLookupView { collected: builder.collected, depth: builder.depth },
        },
        None => ThreadStepView::Finished { thread: builder.collected.reverse() },
    }
}

/// The step after an attempt to look up the answered tweet.
pub open spec fn after_look_up(
    lookup: ThreadLookupView,
    found: Option<TweetView>,
) -> ThreadStepView {
    match found {
        Some(tweet) => after_tweet(lookup, tweet),
        None => ThreadStepView::Finished { thread: lookup.collected.reverse() },
    }
}

/// Turns a list of tweets round.
fn reversed(tweets: Vec<Tweet>) -> (r: Vec<Tweet>)
    ensures
        r.deep_view() == tweets.deep_view().reverse(),
{
    let ghost all = tweets@;
    let mut left: Vec<Tweet> = tweets;
    let mut turned: Vec<Tweet> = Vec::new();
    while left.len() > 0
        invariant
            left@ == all.take(left.len() as int),
            left.len() + turned.len() == all.len(),
            forall|j: int|
                0 <= j < turned.len() ==> #[trigger] turned@[j] == all[all.len() - 1 - j],
        decreases left.len(),
    {
        let last = left.pop();
        if let Some(tweet) = last {
            turned.push(tweet);
        }
    }
    assert(turned.deep_view() =~= tweets.deep_view().reverse());
    turned
}

/// Starts to follow the conversation that ends in `tweet`.
pub fn build_conversation_thread(tweet: Tweet) -> (r: ThreadStep)
    ensures
        r@ == first_thread_step(tweet@),
{
    let lookup = ThreadLookup { collected: Vec::new(), depth: 0 };
    assert(lookup@.collected =~= Seq::empty());
    lookup.visit(tweet)
}

impl ThreadBuilder {
    #[verifier::type_invariant]
    spec fn within_depth(self) -> bool {
        0 <= self.depth <= MAX_HISTORY_TWEETS
    }

    /// Goes on after a rest: to the tweet that the last one answers, or to the end where it answers
    /// none.
    pub fn rested(self) -> (r: ThreadStep)
        ensures
            r@ == after_thread_rest(self@),
    {
        proof {
            use_type_invariant(&self);
        }
        match self.parent {
            Some(id) => ThreadStep::LookUp {
                id,
                lookup: ThreadLookup { collected: self.collected, depth: self.depth },
            },
            None => ThreadStep::Finished { thread: reversed(self.collected) },
        }
    }
}

impl ThreadLookup {
    #[verifier::type_invariant]
    spec fn within_depth(self) -> bool {
        0 <= self.depth <= MAX_HISTORY_TWEETS
    }

    /// Takes in a tweet of the conversation.
    fn visit(self, tweet: Tweet) -> (r: ThreadStep)
        ensures
            r@ == after_tweet(self@, tweet@),
    {
        proof {
            use_type_invariant(&self);
        }
        let parent: Option<String> = match &tweet.in_reply_to_status_id {
            Some(id) => Some(id.clone()),
            None => None,
        };
        let depth: i64 = self.depth;
        let mut collected: Vec<Tweet> = self.collected;
        if tweet.text.is_some() {
            collected.push(tweet);
            assert(collected.deep_view() =~= self@.collected.push(tweet@));
        }
        if depth >= MAX_HISTORY_TWEETS {
            ThreadStep::Finished { thread: reversed(collected) }
        } else {
            ThreadStep::Rest {
                pause: Pause::between(1, 3),
                builder: ThreadBuilder { collected, depth: depth + 1, parent },
            }
        }
    }

    /// Goes on with the tweet that was looked up, or ends where it could not be had.
    pub fn resume(self, found: Option<Tweet>) -> (r: ThreadStep)
        ensures
            r@ == after_look_up(self@, found.deep_view()),
    {
        match found {
            Some(tweet) => self.visit(tweet),
            None => ThreadStep::Finished { thread: reversed(self.collected) },
        }
    }
}

// ---------------------------------------------------------------------------------------------
// Laws
// ---------------------------------------------------------------------------------------------

/// How often it can still go on from a step.
pub open spec fn steps_left(step: ThreadStepView) -> nat {
    match step {
        ThreadStepView::Finished { .. } => 0,
        ThreadStepView::LookUp { lookup, .. } => looks_left(lookup.depth) * 2 + 1,
        ThreadStepView::Rest { builder, .. } => looks_left(builder.depth) * 2 + 2,
    }
}

/// How many tweets can still be looked up after the one at hand.
pub open spec fn looks_left(depth: int) -> nat {
    if depth >= MAX_HISTORY_TWEETS {
        0
    } else {
        (MAX_HISTORY_TWEETS - depth) as nat
    }
}

/// The step that follows `step` where tweets are found by id as `look_up` says.
pub open spec fn next_thread_step(
    step: ThreadStepView,
    look_up: spec_fn(Seq<char>) -> Option<TweetView>,
) -> ThreadStepView {
    match step {
        ThreadStepView::Rest { builder, .. } => after_thread_rest(builder),
        ThreadStepView::LookUp { id, lookup } => after_look_up(lookup, look_up(id)),
        ThreadStepView::Finished { .. } => step,
    }
}

/// The conversation that comes out where tweets are found by id as `look_up` says.
pub open spec fn finished_thread(
    step: ThreadStepView,
    look_up: spec_fn(Seq<char>) -> Option<TweetView>,
) -> Seq<TweetView>
    decreases steps_left(step),
{
    match step {
        ThreadStepView::Finished { thread } => thread,
        _ => finished_thread(next_thread_step(step, look_up), look_up),
    }
}

/// The ids that are looked up, in order, where tweets are found by id as `look_up` says.
pub open spec fn looked_up(
    step: ThreadStepView,
    look_up: spec_fn(Seq<char>) -> Option<TweetView>,
) -> Seq<Seq<char>>
    decreases steps_left(step),
{
    match step {
        ThreadStepView::Finished { .. } => Seq::empty(),
        ThreadStepView::LookUp { id, .. } => seq![id] + looked_up(
            next_thread_step(step, look_up),
            look_up,
        ),
        ThreadStepView::Rest { .. } => looked_up(next_thread_step(step, look_up), look_up),
    }
}

/// The conversation that ends in `tweet`, where tweets are found by id as `look_up` says.
pub open spec fn thread_of(
    tweet: TweetView,
    look_up: spec_fn(Seq<char>) -> Option<TweetView>,
) -> Seq<TweetView> {
    finished_thread(first_thread_step(tweet), look_up)
}

/// The tweet that `tweet` answers, where it answers one that can be found.
pub open spec fn parent_of(
    tweet: TweetView,
    look_up: spec_fn(Seq<char>) -> Option<TweetView>,
) -> Option<TweetView> {
    match tweet.in_reply_to_status_id {
        Some(id) => look_up(id),
        None => None,
    }
}

/// The tweets above `tweet`, nearest first: the one it answers, the one that that one answers, and
/// so on, up to `limit` of them, to the first that answers none or whose parent cannot be found.
pub open spec fn ancestors_of(
    tweet: TweetView,
    look_up: spec_fn(Seq<char>) -> Option<TweetView>,
    limit: nat,
) -> Seq<TweetView>
    decreases limit,
{
    if limit == 0 {
        Seq::empty()
    } else {
        match parent_of(tweet, look_up) {
            Some(parent) => seq![parent] + ancestors_of(parent, look_up, (limit - 1) as nat),
            None => Seq::empty(),
        }
    }
}

/// The tweet itself and those above it that are looked at, nearest first.
pub open spec fn reply_chain(
    tweet: TweetView,
    look_up: spec_fn(Seq<char>) -> Option<TweetView>,
) -> Seq<TweetView> {
    seq![tweet] + ancestors_of(tweet, look_up, MAX_HISTORY_TWEETS as nat)
}

/// Each of the ids is that of the tweet which the tweet of the chain at its place answers.
pub open spec fn answered_along(chain: Seq<TweetView>, ids: Seq<Seq<char>>) -> bool {
    &&& ids.len() <= chain.len()
    &&& forall|i: int|
        0 <= i < ids.len() ==> (#[trigger] chain[i]).in_reply_to_status_id == Some(ids[i])
}

proof fn lemma_with_text_push(chain: Seq<TweetView>, tweet: TweetView)
    ensures
        with_text(chain.push(tweet)) == if tweet.text is Some {
            with_text(chain).push(tweet)
        } else {
            with_text(chain)
        },
{
    reveal(Seq::filter);
    assert(chain.push(tweet).drop_last() =~= chain);
}

proof fn lemma_with_text_len(chain: Seq<TweetView>)
    ensures
        with_text(chain).len() <= chain.len(),
    decreases chain.len(),
{
    reveal(Seq::filter);
    if chain.len() > 0 {
        lemma_with_text_len(chain.drop_last());
    }
}

proof fn lemma_with_text_add(one: Seq<TweetView>, other: Seq<TweetView>)
    ensures
        with_text(one + other) == with_text(one) + with_text(other),
{
    Seq::filter_distributes_over_add(one, other, |tweet: TweetView| tweet.text is Some);
}

/// From where a tweet has been found, the conversation is what was found before, the tweet, and
/// those above it.
proof fn lemma_follow(
    visited: Seq<TweetView>,
    tweet: TweetView,
    look_up: spec_fn(Seq<char>) -> Option<TweetView>,
)
    requires
        visited.len() <= MAX_HISTORY_TWEETS,
    ensures
        ({
            let step = after_tweet(
                ThreadLookupView { collected: with_text(visited), depth: visited.len() as int },
                tweet,
            );
            let left = (MAX_HISTORY_TWEETS - visited.len()) as nat;
            let above = ancestors_of(tweet, look_up, left);
            let chain = seq![tweet] + above;
            let ids = looked_up(step, look_up);
            &&& finished_thread(step, look_up) == with_text(visited + chain).reverse()
            &&& above.len() <= left
            &&& above.len() <= ids.len() <= left
            &&& answered_along(chain, ids)
            &&& ids.len() == chain.len() <==> above.len() < left
                && chain.last().in_reply_to_status_id is Some
        }),
    decreases MAX_HISTORY_TWEETS - visited.len(),
{
    reveal_with_fuel(finished_thread, 3);
    reveal_with_fuel(looked_up, 3);
    let lookup = ThreadLookupView {
        collected: with_text(visited),
        depth: visited.len() as int,
    };
    let step = after_tweet(lookup, tweet);
    let left = (MAX_HISTORY_TWEETS - visited.len()) as nat;
    let above = ancestors_of(tweet, look_up, left);
    let now = visited.push(tweet);
    lemma_with_text_push(visited, tweet);
    assert(visited + (seq![tweet] + above) =~= now + above);
    if left > 0 {
        let rested = next_thread_step(step, look_up);
        if rested is LookUp {
            let found = next_thread_step(rested, look_up);
            let ids = looked_up(step, look_up);
            assert(ids == seq![tweet.in_reply_to_status_id->0] + looked_up(found, look_up));
            match parent_of(tweet, look_up) {
                Some(parent) => {
                    lemma_follow(now, parent, look_up);
                    let higher = ancestors_of(parent, look_up, (left - 1) as nat);
                    assert(above =~= seq![parent] + higher);
                    let chain = seq![tweet] + above;
                    assert forall|i: int| 0 <= i < ids.len() implies (
                    #[trigger] chain[i]).in_reply_to_status_id == Some(ids[i]) by {
                        if i > 0 {
                            assert(ids[i] == looked_up(found, look_up)[i - 1]);
                            assert(chain[i] == (seq![parent] + higher)[i - 1]);
                        }
                    }
                    assert(answered_along(chain, ids));
                },
                None => {
                    assert(ids =~= seq![tweet.in_reply_to_status_id->0]);
                    assert(now + above =~= now);
                },
            }
        } else {
            assert(now + above =~= now);
        }
    } else {
        assert(now + above =~= now);
    }
}

/// A conversation holds, oldest first, the tweets that have a text along the chain of replies that
/// ends in `tweet`: each is found by the id that the next one answers. The chain ends at the first
/// tweet that answers none, at the first that cannot be found, or after `MAX_HISTORY_TWEETS`
/// look-ups.
pub proof fn law_thread_is_the_reply_chain(
    tweet: TweetView,
    look_up: spec_fn(Seq<char>) -> Option<TweetView>,
)
    ensures
        thread_of(tweet, look_up) == with_text(reply_chain(tweet, look_up)).reverse(),
{
    let none = Seq::<TweetView>::empty();
    reveal(Seq::filter);
    assert(with_text(none) =~= none);
    lemma_follow(none, tweet, look_up);
    assert(none + reply_chain(tweet, look_up) =~= reply_chain(tweet, look_up));
}

/// Every id that is looked up is the one that the tweet before it in the chain answers. There is
/// one look-up for each tweet found above the first. One more, which finds nothing, is made where
/// the last tweet answers one and fewer than `MAX_HISTORY_TWEETS` were found.
pub proof fn law_look_ups_follow_the_replies(
    tweet: TweetView,
    look_up: spec_fn(Seq<char>) -> Option<TweetView>,
)
    ensures
        ({
            let chain = reply_chain(tweet, look_up);
            let ids = looked_up(first_thread_step(tweet), look_up);
            &&& chain.len() - 1 <= ids.len() <= MAX_HISTORY_TWEETS
            &&& answered_along(chain, ids)
            &&& ids.len() == chain.len() <==> chain.len() <= MAX_HISTORY_TWEETS
                && chain.last().in_reply_to_status_id is Some
        }),
{
    let none = Seq::<TweetView>::empty();
    reveal(Seq::filter);
    assert(with_text(none) =~= none);
    lemma_follow(none, tweet, look_up);
}

/// The conversation of a reply is that of the tweet it answers, followed by the reply itself where
/// it has a text. This holds while no more than `MAX_HISTORY_TWEETS` tweets stand above the reply.
pub proof fn law_reply_extends_the_thread(
    tweet: TweetView,
    parent: TweetView,
    look_up: spec_fn(Seq<char>) -> Option<TweetView>,
)
    requires
        parent_of(tweet, look_up) == Some(parent),
        ancestors_of(parent, look_up, MAX_HISTORY_TWEETS as nat).len() < MAX_HISTORY_TWEETS,
    ensures
        thread_of(tweet, look_up) == thread_of(parent, look_up) + with_text(seq![tweet]),
{
    let chain = reply_chain(parent, look_up);
    lemma_ancestors_end(parent, look_up, (MAX_HISTORY_TWEETS - 1) as nat);
    assert(reply_chain(tweet, look_up) =~= seq![tweet] + chain);
    lemma_with_text_add(seq![tweet], chain);
    law_thread_is_the_reply_chain(tweet, look_up);
    law_thread_is_the_reply_chain(parent, look_up);
    lemma_with_text_len(seq![tweet]);
    assert((with_text(seq![tweet]) + with_text(chain)).reverse() =~= with_text(chain).reverse()
        + with_text(seq![tweet]));
}

/// A chain that ends below a limit stays the same when the limit goes down to its length.
proof fn lemma_ancestors_end(
    tweet: TweetView,
    look_up: spec_fn(Seq<char>) -> Option<TweetView>,
    limit: nat,
)
    requires
        ancestors_of(tweet, look_up, limit + 1).len() <= limit,
    ensures
        ancestors_of(tweet, look_up, limit + 1) == ancestors_of(tweet, look_up, limit),
    decreases limit,
{
    if let Some(parent) = parent_of(tweet, look_up) {
        assert(ancestors_of(tweet, look_up, limit + 1) == seq![parent] + ancestors_of(
            parent,
            look_up,
            limit,
        ));
        if limit > 0 {
            lemma_ancestors_end(parent, look_up, (limit - 1) as nat);
        }
    }
}

/// A conversation never holds more than `MAX_HISTORY_TWEETS + 1` tweets.
pub proof fn law_thread_is_bounded(
    tweet: TweetView,
    look_up: spec_fn(Seq<char>) -> Option<TweetView>,
)
    ensures
        thread_of(tweet, look_up).len() <= MAX_HISTORY_TWEETS + 1,
{
    law_thread_is_the_reply_chain(tweet, look_up);
    law_look_ups_follow_the_replies(tweet, look_up);
    lemma_with_text_len(reply_chain(tweet, look_up));
}

/// A tweet that has a text is the last one of its own conversation.
pub proof fn law_thread_ends_in_the_tweet(
    tweet: TweetView,
    look_up: spec_fn(Seq<char>) -> Option<TweetView>,
)
    requires
        tweet.text is Some,
    ensures
        thread_of(tweet, look_up).len() >= 1,
        thread_of(tweet, look_up).last() == tweet,
{
    law_thread_is_the_reply_chain(tweet, look_up);
    let above = ancestors_of(tweet, look_up, MAX_HISTORY_TWEETS as nat);
    lemma_with_text_add(seq![tweet], above);
    lemma_with_text_push(Seq::empty(), tweet);
    assert(Seq::<TweetView>::empty().push(tweet) =~= seq![tweet]);
    assert(with_text(seq![tweet]).last() == tweet);
    lemma_with_text_len(seq![tweet]);
}

/// `chain` is a conversation up from its first tweet: each tweet answers the next one, which is the
/// one found under the id that it names.
pub open spec fn is_chain(
    chain: Seq<TweetView>,
    look_up: spec_fn(Seq<char>) -> Option<TweetView>,
) -> bool {
    &&& chain.len() > 0
    &&& forall|i: int|
        0 <= i < chain.len() - 1 ==> {
            &&& (#[trigger] chain[i]).in_reply_to_status_id is Some
            &&& look_up(chain[i].in_reply_to_status_id->0) == Some(chain[i + 1])
        }
}

/// `chain` cannot be followed further: its last tweet answers none, or the one it answers cannot be
/// found.
pub open spec fn is_at_its_end(
    chain: Seq<TweetView>,
    look_up: spec_fn(Seq<char>) -> Option<TweetView>,
) -> bool {
    let parent = chain.last().in_reply_to_status_id;
    parent is None || look_up(parent->0) is None
}

proof fn lemma_chain_is_ancestors(
    chain: Seq<TweetView>,
    look_up: spec_fn(Seq<char>) -> Option<TweetView>,
    limit: nat,
)
    requires
        is_chain(chain, look_up),
        chain.len() == limit + 1 || (chain.len() <= limit && is_at_its_end(chain, look_up)),
    ensures
        ancestors_of(chain[0], look_up, limit) == chain.skip(1),
    decreases limit,
{
    if limit == 0 || chain.len() == 1 {
        assert(chain.skip(1) =~= Seq::empty());
    } else {
        let rest = chain.skip(1);
        assert forall|i: int| 0 <= i < rest.len() - 1 implies {
            &&& (#[trigger] rest[i]).in_reply_to_status_id is Some
            &&& look_up(rest[i].in_reply_to_status_id->0) == Some(rest[i + 1])
        } by {
            assert(rest[i] == chain[i + 1]);
        }
        assert(rest.last() == chain.last());
        lemma_chain_is_ancestors(rest, look_up, (limit - 1) as nat);
        assert(chain[0].in_reply_to_status_id is Some);
        assert(seq![rest[0]] + rest.skip(1) =~= rest);
    }
}

/// The conversation of a tweet, for any chain of replies above it that ends by itself, or that is
/// cut after twenty-one look-ups: every tweet of the chain that has a text, and no other, from the
/// last one up to the tweet itself.
pub proof fn law_thread_of_a_chain(
    chain: Seq<TweetView>,
    look_up: spec_fn(Seq<char>) -> Option<TweetView>,
)
    requires
        is_chain(chain, look_up),
        chain.len() == 22 || (chain.len() < 22 && is_at_its_end(chain, look_up)),
    ensures
        thread_of(chain[0], look_up) == chain.filter(
            |tweet: TweetView| tweet.text is Some,
        ).reverse(),
        forall|i: int|
            0 <= i < chain.len() && (#[trigger] chain[i]).text is Some ==> thread_of(
                chain[0],
                look_up,
            ).contains(chain[i]),
        (forall|i: int| 0 <= i < chain.len() ==> (#[trigger] chain[i]).text is Some)
            ==> thread_of(chain[0], look_up) == chain.reverse(),
{
    let has_text = |tweet: TweetView| tweet.text is Some;
    lemma_chain_is_ancestors(chain, look_up, 21);
    law_thread_is_the_reply_chain(chain[0], look_up);
    assert(reply_chain(chain[0], look_up) =~= chain);
    let thread = thread_of(chain[0], look_up);
    let kept = chain.filter(has_text);
    assert(with_text(chain) == kept);
    assert forall|i: int| 0 <= i < chain.len() && (
    #[trigger] chain[i]).text is Some implies thread.contains(chain[i]) by {
        chain.lemma_filter_contains(has_text, i);
        let k = choose|k: int| 0 <= k < kept.len() && kept[k] == chain[i];
        assert(thread[kept.len() - 1 - k] == chain[i]);
    }
    if forall|i: int| 0 <= i < chain.len() ==> (#[trigger] chain[i]).text is Some {
        lemma_all_with_text(chain);
    }
}

proof fn lemma_all_with_text(chain: Seq<TweetView>)
    requires
        forall|i: int| 0 <= i < chain.len() ==> (#[trigger] chain[i]).text is Some,
    ensures
        with_text(chain) == chain,
    decreases chain.len(),
{
    reveal(Seq::filter);
    if chain.len() > 0 {
        let before = chain.drop_last();
        assert forall|i: int| 0 <= i < before.len() implies (
        #[trigger] before[i]).text is Some by {
            assert(before[i] == chain[i]);
        }
        lemma_all_with_text(before);
        assert(chain.last().text is Some);
        assert(before.push(chain.last()) =~= chain);
    }
}

/// After every tweet below the limit there is a rest of one to three seconds, whatever the tweet,
/// and then a look-up of exactly the tweet that it answers, or the end where it answers none. What
/// was found stays as it was.
pub proof fn law_thread_rests_before_each_look_up(lookup: ThreadLookupView, tweet: TweetView)
    ensures
        lookup.depth < 21 ==> after_tweet(lookup, tweet) is Rest,
        lookup.depth >= 21 ==> after_tweet(lookup, tweet) is Finished,
        after_tweet(lookup, tweet) matches ThreadStepView::Rest { pause, builder } ==> {
            &&& pause.shortest == 1 && pause.longest == 3
            &&& tweet.in_reply_to_status_id matches Some(id) ==> after_thread_rest(builder) == (
            ThreadStepView::LookUp {
                id,
                lookup: ThreadLookupView {
                    collected: if tweet.text is Some {
                        lookup.collected.push(tweet)
                    } else {
                        lookup.collected
                    },
                    depth: lookup.depth + 1,
                },
            })
            &&& tweet.in_reply_to_status_id is None ==> after_thread_rest(builder) is Finished
        },
{
}

/// A step about a conversation is told by what it holds.
pub proof fn law_thread_step_says_what_it_holds(step: ThreadStep)
    ensures
        match step {
            ThreadStep::Rest { pause, builder } => step@ == (ThreadStepView::Rest {
                pause: pause@,
                builder: builder@,
            }),
            ThreadStep::LookUp { id, lookup } => step@ == (ThreadStepView::LookUp {
                id: id@,
                lookup: lookup@,
            }),
            ThreadStep::Finished { thread } => step@ == (ThreadStepView::Finished {
                thread: thread.deep_view(),
            }),
        },
{
}

} // verus!
