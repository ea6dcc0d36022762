use tweet_pager::api::{Api, BearerToken, GetTweetOpts, TweetFields};
use tweet_pager::paginate::PullResult;

fn api() -> Api {
    Api::new(BearerToken::from("bearer-token-for-tests".to_string()))
}

#[test]
fn bearer_token_round_trip() {
    let token = BearerToken::from("bearer-token-for-tests".to_string());
    assert_eq!(token.as_str(), "bearer-token-for-tests");
    assert_eq!(api().bearer(), "bearer-token-for-tests");
}

#[test]
fn user_by_username_url_shape() {
    let url = api().user_by_username_url("elonmusk");
    assert_eq!(url.path, "https://api.twitter.com/2/users/by/username/elonmusk");
    assert!(url.params.is_empty());
}

#[test]
fn tweet_field_names() {
    assert_eq!(TweetFields::CreatedAt.name(), "created_at");
}

#[test]
fn user_tweets_url_with_all_options() {
    let opts = GetTweetOpts {
        tweet_fields: vec![TweetFields::CreatedAt],
        max_results: Some(100),
        // 2021-01-01T00:00:00Z
        end_time: Some(1609459200),
    };
    let mut results = api()
        .get_user_tweets("12345", Some(opts))
        .expect("construction cannot fail");
    let url = match results.pull() {
        PullResult::StartFetch(u) => u,
        _ => panic!("the first pull must start a fetch"),
    };
    assert_eq!(url.path, "https://api.twitter.com/2/users/12345/tweets");
    assert_eq!(
        url.params,
        vec![
            ("tweet.fields".to_string(), "created_at".to_string()),
            ("max_results".to_string(), "100".to_string()),
            ("end_time".to_string(), "2021-01-01T00:00:00Z".to_string()),
        ]
    );
}

#[test]
fn user_tweets_url_without_options() {
    let mut results = api()
        .get_user_tweets("12345", None)
        .expect("construction cannot fail");
    let url = match results.pull() {
        PullResult::StartFetch(u) => u,
        _ => panic!("the first pull must start a fetch"),
    };
    assert_eq!(url.path, "https://api.twitter.com/2/users/12345/tweets");
    assert!(url.params.is_empty());
}

#[test]
fn user_tweets_url_with_empty_options() {
    let opts = GetTweetOpts { tweet_fields: vec![], max_results: None, end_time: None };
    let mut results = api()
        .get_user_tweets("12345", Some(opts))
        .expect("construction cannot fail");
    let url = match results.pull() {
        PullResult::StartFetch(u) => u,
        _ => panic!("the first pull must start a fetch"),
    };
    assert!(url.params.is_empty());
}

#[test]
fn max_results_renders_in_decimal() {
    for (n, s) in [(0usize, "0"), (7, "7"), (10, "10"), (105, "105"), (98765, "98765")] {
        let opts = GetTweetOpts {
            tweet_fields: vec![],
            max_results: Some(n),
            end_time: None,
        };
        let mut results = api()
            .get_user_tweets("1", Some(opts))
            .expect("construction cannot fail");
        let url = match results.pull() {
            PullResult::StartFetch(u) => u,
            _ => panic!("the first pull must start a fetch"),
        };
        assert_eq!(url.params, vec![("max_results".to_string(), s.to_string())]);
    }
}

#[test]
fn end_time_renders_per_rfc3339() {
    for (secs, text) in [
        (0i64, "1970-01-01T00:00:00Z"),
        (1609459200, "2021-01-01T00:00:00Z"),
        (951827696, "2000-02-29T12:34:56Z"),
    ] {
        let opts = GetTweetOpts {
            tweet_fields: vec![],
            max_results: None,
            end_time: Some(secs),
        };
        let mut results = api()
            .get_user_tweets("1", Some(opts))
            .expect("construction cannot fail");
        let url = match results.pull() {
            PullResult::StartFetch(u) => u,
            _ => panic!("the first pull must start a fetch"),
        };
        assert_eq!(url.params, vec![("end_time".to_string(), text.to_string())]);
    }
}
