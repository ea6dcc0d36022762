use vstd::prelude::*;

use crate::api::Tweet;

verus! {

/// A pause of this many seconds or more ends a tweet session.
pub const TWEET_SESSION_TIMEOUT_SECS: i64 = 15 * 60;

/// The length of one poop period: a third of a day — eight hours — in
/// seconds.
pub const POOP_PERIOD_SECS: i64 = 8 * 60 * 60;

/// A run of tweets with no pause of a session timeout or more between
/// neighbours. Tweets arrive newest first, so `end` is the newest
/// tweet's time and `start` walks backwards as tweets are added; both
/// are in seconds since the Unix epoch, UTC.
#[derive(Clone, Copy, Debug, PartialEq, Eq, Structural)]
pub struct TweetSession {
    pub end: i64,
    pub start: i64,
    pub num_tweets: usize,
}

impl TweetSession {
    /// A session of the one given tweet.
    pub fn new(tweet: Tweet) -> (r: TweetSession)
        requires
            tweet.created_at is Some,
        ensures
            r.end == tweet.created_at->Some_0,
            r.start == tweet.created_at->Some_0,
            r.num_tweets == 1,
    {
        let at = tweet.created_at.unwrap();
        TweetSession { end: at, start: at, num_tweets: 1 }
    }

    /// Whether the given (older) tweet still belongs to this session:
    /// it does when it falls less than the session timeout before the
    /// session's current start.
    pub fn should_include(&self, tweet: &Tweet) -> (r: bool)
        requires
            tweet.created_at is Some,
            i64::MIN <= self.start - tweet.created_at->Some_0 <= i64::MAX,
        ensures
            r == (self.start - tweet.created_at->Some_0 < TWEET_SESSION_TIMEOUT_SECS),
    {
        (self.start - tweet.created_at.unwrap()) < TWEET_SESSION_TIMEOUT_SECS
    }

    /// Extend the session backwards with the given tweet.
    pub fn add(&mut self, tweet: Tweet)
        requires
            tweet.created_at is Some,
            old(self).num_tweets < usize::MAX,
        ensures
            final(self).start == tweet.created_at->Some_0,
            final(self).end == old(self).end,
            final(self).num_tweets == old(self).num_tweets + 1,
    {
        self.start = tweet.created_at.unwrap();
        self.num_tweets = self.num_tweets + 1;
    }
}

/// The total number of tweets over a run of sessions.
pub open spec fn total_tweets(sessions: Seq<TweetSession>) -> int
    decreases sessions.len(),
{
    if sessions.len() == 0 {
        0
    } else {
        total_tweets(sessions.drop_last()) + sessions.last().num_tweets
    }
}

/// The largest session size over a run of sessions, 0 when there is
/// none.
pub open spec fn peak_tweets(sessions: Seq<TweetSession>) -> int
    decreases sessions.len(),
{
    if sessions.len() == 0 {
        0
    } else if peak_tweets(sessions.drop_last()) > sessions.last().num_tweets {
        peak_tweets(sessions.drop_last())
    } else {
        sessions.last().num_tweets as int
    }
}

proof fn lemma_total_take_step(sessions: Seq<TweetSession>, i: int)
    requires
        0 <= i < sessions.len(),
    ensures
        total_tweets(sessions.take(i + 1)) == total_tweets(sessions.take(i))
            + sessions[i].num_tweets,
{
    assert(sessions.take(i + 1).drop_last() =~= sessions.take(i));
}

proof fn lemma_total_take_bound(sessions: Seq<TweetSession>, i: int)
    requires
        0 <= i <= sessions.len(),
    ensures
        total_tweets(sessions.take(i)) <= total_tweets(sessions),
    decreases sessions.len() - i,
{
    if i == sessions.len() {
        assert(sessions.take(i) =~= sessions);
    } else {
        lemma_total_take_step(sessions, i);
        lemma_total_take_bound(sessions, i + 1);
    }
}

proof fn lemma_peak_properties(sessions: Seq<TweetSession>)
    ensures
        forall|j: int|
            0 <= j < sessions.len() ==> (#[trigger] sessions[j]).num_tweets <= peak_tweets(
                sessions,
            ),
        sessions.len() > 0 ==> exists|idx: int|
            0 <= idx < sessions.len() && (#[trigger] sessions[idx]).num_tweets == peak_tweets(
                sessions,
            ),
    decreases sessions.len(),
{
    if sessions.len() > 0 {
        lemma_peak_properties(sessions.drop_last());
        assert forall|j: int|
            0 <= j < sessions.len() implies (#[trigger] sessions[j]).num_tweets <= peak_tweets(
            sessions,
        ) by {
            if j < sessions.len() - 1 {
                assert(sessions[j] == sessions.drop_last()[j]);
            }
        }
        if peak_tweets(sessions.drop_last()) > sessions.last().num_tweets {
            let i = choose|i: int|
                0 <= i < sessions.drop_last().len() && (#[trigger] sessions.drop_last()[i]).num_tweets
                    == peak_tweets(sessions.drop_last());
            assert(sessions[i].num_tweets == peak_tweets(sessions));
        } else {
            assert(sessions[sessions.len() - 1].num_tweets == peak_tweets(sessions));
        }
    }
}

proof fn lemma_peak_le_total(sessions: Seq<TweetSession>)
    ensures
        0 <= peak_tweets(sessions) <= total_tweets(sessions),
    decreases sessions.len(),
{
    if sessions.len() > 0 {
        lemma_peak_le_total(sessions.drop_last());
    }
}

/// A third of a day's worth of tweet sessions, walked newest to oldest:
/// `end` is fixed at creation, `start` follows the start of the oldest
/// session added so far.
#[derive(Clone, Debug)]
pub struct PoopPeriod {
    pub end: i64,
    pub start: i64,
    pub sessions: Vec<TweetSession>,
}

impl PoopPeriod {
    /// An empty period ending at the given time.
    pub fn new(end: i64) -> (r: PoopPeriod)
        ensures
            r.end == end,
            r.start == end,
            r.sessions@.len() == 0,
    {
        PoopPeriod { end, start: end, sessions: Vec::new() }
    }

    /// Whether the given (older) session still belongs to this period:
    /// it does when its start falls less than one period length before
    /// the period's end.
    pub fn should_include(&self, session: &TweetSession) -> (r: bool)
        requires
            i64::MIN <= self.end - session.start <= i64::MAX,
        ensures
            r == (self.end - session.start < POOP_PERIOD_SECS),
    {
        (self.end - session.start) < POOP_PERIOD_SECS
    }

    /// Extend the period backwards with the given session.
    pub fn add(&mut self, session: TweetSession)
        ensures
            final(self).end == old(self).end,
            final(self).start == session.start,
            final(self).sessions@ == old(self).sessions@.push(session),
    {
        self.start = session.start;
        self.sessions.push(session);
    }

    /// The period's busiest session — the presumed poop session: the
    /// one with the most tweets, the last such one when several tie.
    pub fn poop_session(&self) -> (r: Option<&TweetSession>)
        ensures
            r is None <==> self.sessions@.len() == 0,
            r matches Some(s) ==> exists|idx: int|
                {
                    &&& 0 <= idx < self.sessions@.len()
                    &&& *s == #[trigger] self.sessions@[idx]
                    &&& forall|j: int|
                        0 <= j < self.sessions@.len() ==> (#[trigger] self.sessions@[j]).num_tweets
                            <= s.num_tweets
                    &&& forall|j: int|
                        idx < j < self.sessions@.len() ==> (
                        #[trigger] self.sessions@[j]).num_tweets < s.num_tweets
                },
    {
        if self.sessions.len() == 0 {
            return None;
        }
        let mut best: usize = 0;
        let mut i: usize = 1;
        while i < self.sessions.len()
            invariant
                best < i <= self.sessions@.len(),
                forall|j: int|
                    0 <= j < i ==> (#[trigger] self.sessions@[j]).num_tweets
                        <= self.sessions@[best as int].num_tweets,
                forall|j: int|
                    best < j < i ==> (#[trigger] self.sessions@[j]).num_tweets
                        < self.sessions@[best as int].num_tweets,
            decreases self.sessions@.len() - i,
        {
            if self.sessions[i].num_tweets >= self.sessions[best].num_tweets {
                best = i;
            }
            i = i + 1;
        }
        Some(&self.sessions[best])
    }

    /// How many tweets the period holds over all its sessions.
    pub fn num_tweets(&self) -> (r: usize)
        requires
            total_tweets(self.sessions@) <= usize::MAX,
        ensures
            r == total_tweets(self.sessions@),
    {
        let mut acc: usize = 0;
        let mut i: usize = 0;
        proof {
            assert(self.sessions@.take(0) =~= Seq::<TweetSession>::empty());
        }
        while i < self.sessions.len()
            invariant
                i <= self.sessions@.len(),
                total_tweets(self.sessions@) <= usize::MAX,
                acc == total_tweets(self.sessions@.take(i as int)),
            decreases self.sessions@.len() - i,
        {
            proof {
                lemma_total_take_step(self.sessions@, i as int);
                lemma_total_take_bound(self.sessions@, i as int + 1);
                lemma_peak_le_total(self.sessions@.take(i as int + 1));
            }
            acc = acc + self.sessions[i].num_tweets;
            i = i + 1;
        }
        proof {
            assert(self.sessions@.take(self.sessions@.len() as int) =~= self.sessions@);
        }
        acc
    }

    /// How many tweets the busiest session holds, 0 for an empty
    /// period.
    pub fn num_poop_tweets(&self) -> (r: usize)
        ensures
            r == peak_tweets(self.sessions@),
    {
        proof {
            lemma_peak_properties(self.sessions@);
        }
        match self.poop_session() {
            Some(session) => session.num_tweets,
            None => 0,
        }
    }

    /// How many of the period's tweets fall outside its busiest
    /// session.
    pub fn num_non_poop_tweets(&self) -> (r: usize)
        requires
            total_tweets(self.sessions@) <= usize::MAX,
        ensures
            r == total_tweets(self.sessions@) - peak_tweets(self.sessions@),
    {
        proof {
            lemma_peak_le_total(self.sessions@);
        }
        self.num_tweets() - self.num_poop_tweets()
    }
}

} // verus!
