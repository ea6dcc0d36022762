use tweet_pager::analyze::{PoopPeriod, TweetSession, POOP_PERIOD_SECS, TWEET_SESSION_TIMEOUT_SECS};
use tweet_pager::api::Tweet;

fn tweet(at: i64) -> Tweet {
    Tweet {
        id: "1".to_string(),
        text: "hello".to_string(),
        created_at: Some(at),
    }
}

#[test]
fn constants_match_the_policy() {
    assert_eq!(TWEET_SESSION_TIMEOUT_SECS, 900);
    assert_eq!(POOP_PERIOD_SECS, 28800);
}

#[test]
fn session_grows_backwards() {
    let mut session = TweetSession::new(tweet(1000));
    assert_eq!(session.start, 1000);
    assert_eq!(session.end, 1000);
    assert_eq!(session.num_tweets, 1);

    // 800 seconds earlier: still inside the 15-minute window.
    assert!(session.should_include(&tweet(200)));
    session.add(tweet(200));
    assert_eq!(session.start, 200);
    assert_eq!(session.end, 1000);
    assert_eq!(session.num_tweets, 2);

    // Exactly the timeout apart: a new session begins.
    assert!(!session.should_include(&tweet(200 - TWEET_SESSION_TIMEOUT_SECS)));
    // Just inside the timeout.
    assert!(session.should_include(&tweet(200 - TWEET_SESSION_TIMEOUT_SECS + 1)));
}

fn session_of(start: i64, num_tweets: usize) -> TweetSession {
    let mut session = TweetSession::new(tweet(start + (num_tweets as i64 - 1)));
    for k in (0..num_tweets as i64 - 1).rev() {
        session.add(tweet(start + k));
    }
    session
}

#[test]
fn period_boundaries() {
    let period = PoopPeriod::new(100000);
    assert_eq!(period.start, 100000);
    // A session starting just inside one period length belongs.
    assert!(period.should_include(&session_of(100000 - POOP_PERIOD_SECS + 1, 1)));
    // One starting exactly one period length before the end does not.
    assert!(!period.should_include(&session_of(100000 - POOP_PERIOD_SECS, 1)));
}

#[test]
fn period_counts_and_poop_session() {
    let mut period = PoopPeriod::new(100000);
    assert!(period.poop_session().is_none());
    assert_eq!(period.num_tweets(), 0);
    assert_eq!(period.num_poop_tweets(), 0);
    assert_eq!(period.num_non_poop_tweets(), 0);

    period.add(session_of(99000, 3));
    period.add(session_of(97000, 5));
    period.add(session_of(95000, 2));
    assert_eq!(period.start, 95000);
    assert_eq!(period.end, 100000);

    let busiest = period.poop_session().expect("the period has sessions");
    assert_eq!(busiest.num_tweets, 5);
    assert_eq!(busiest.start, 97000);
    assert_eq!(period.num_tweets(), 10);
    assert_eq!(period.num_poop_tweets(), 5);
    assert_eq!(period.num_non_poop_tweets(), 5);
}

#[test]
fn poop_session_tie_takes_the_last() {
    let mut period = PoopPeriod::new(50000);
    period.add(session_of(49000, 4));
    period.add(session_of(47000, 4));
    period.add(session_of(45000, 1));
    let busiest = period.poop_session().expect("the period has sessions");
    // Two sessions tie at 4 tweets; the later added one wins.
    assert_eq!(busiest.start, 47000);
    assert_eq!(period.num_non_poop_tweets(), 5);
}
