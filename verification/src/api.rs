use vstd::prelude::*;
use vstd::string::*;

use crate::page::ApiError;
use crate::paginate::{ApiResults, FetchState};
use crate::request::QueryUrl;

verus! {

/// The earliest timestamp the library renders: 0000-01-01T00:00:00Z.
pub const TIMESTAMP_MIN: i64 = -62167219200;

/// The latest timestamp the library renders: 9999-12-31T23:59:59Z.
pub const TIMESTAMP_MAX: i64 = 253402300799;

/// A point in time the library can work with, as seconds since the Unix
/// epoch, UTC.
pub open spec fn valid_timestamp(secs: int) -> bool {
    TIMESTAMP_MIN as int <= secs <= TIMESTAMP_MAX as int
}

/// The RFC 3339 rendering, at seconds precision and with a `Z` suffix,
/// of a timestamp in seconds since the Unix epoch.
pub uninterp spec fn rfc3339_of(secs: i64) -> Seq<char>;

/// Relies on chrono's `DateTime::from_timestamp`, which is defined on
/// every whole second of the years 0 through 9999, and on
/// `to_rfc3339_opts`: the rendered text depends on the seconds alone.
#[verifier::external_body]
fn rfc3339_utc(secs: i64) -> (r: String)
    requires
        valid_timestamp(secs as int),
    ensures
        r@ == rfc3339_of(secs),
{
    chrono::DateTime::<chrono::Utc>::from_timestamp(secs, 0)
        .unwrap()
        .to_rfc3339_opts(chrono::SecondsFormat::Secs, true)
}

/// The optional tweet fields a query may ask the server to include.
#[derive(Clone, Copy, Debug, PartialEq, Eq, Structural)]
pub enum TweetFields {
    CreatedAt,
}

/// The name under which a field is requested in a query.
pub open spec fn field_name_view(f: TweetFields) -> Seq<char> {
    match f {
        TweetFields::CreatedAt => "created_at"@,
    }
}

impl TweetFields {
    /// The name under which this field is requested in a query.
    pub fn name(&self) -> (r: String)
        ensures
            r@ == field_name_view(*self),
    {
        match self {
            TweetFields::CreatedAt => "created_at".to_owned(),
        }
    }
}

/// One tweet, as the pages of a tweet listing carry it.
#[derive(Clone, Debug)]
pub struct Tweet {
    pub id: String,
    pub text: String,
    /// When the tweet was created, in seconds since the Unix epoch, UTC;
    /// present only when the query asked for it.
    pub created_at: Option<i64>,
}

/// One user record, as the user lookup returns it.
#[derive(Clone, Debug)]
pub struct User {
    pub id: String,
    pub name: String,
    pub username: String,
}

/// The options of a tweet listing. The requested fields are kept in
/// order and are meant to be distinct; `end_time`, when given, is in
/// seconds since the Unix epoch, UTC.
#[derive(Clone, Debug)]
pub struct GetTweetOpts {
    pub tweet_fields: Vec<TweetFields>,
    pub max_results: Option<usize>,
    pub end_time: Option<i64>,
}

/// The bearer token that authenticates every request.
#[derive(Clone, Debug)]
pub struct BearerToken {
    pub token: String,
}

impl View for BearerToken {
    type V = Seq<char>;

    open spec fn view(&self) -> Seq<char> {
        self.token@
    }
}

impl BearerToken {
    /// The token text, for the transport layer to place in the
    /// `Authorization: Bearer` header.
    pub fn as_str(&self) -> (r: &str)
        ensures
            r@ == self@,
    {
        self.token.as_str()
    }
}

impl From<String> for BearerToken {
    fn from(token: String) -> (r: BearerToken) {
        BearerToken { token }
    }
}

impl vstd::std_specs::convert::FromSpecImpl<String> for BearerToken {
    open spec fn obeys_from_spec() -> bool {
        true
    }

    open spec fn from_spec(token: String) -> BearerToken {
        BearerToken { token }
    }
}

/// The decimal digit characters of `n`, most significant first, with no
/// leading zero except for `n == 0` itself.
pub open spec fn decimal_digits(n: nat) -> Seq<char>
    decreases n,
{
    if n < 10 {
        seq![digit_char(n)]
    } else {
        decimal_digits(n / 10).push(digit_char(n % 10))
    }
}

/// The character of one decimal digit.
pub open spec fn digit_char(d: nat) -> char {
    if d == 0 {
        '0'
    } else if d == 1 {
        '1'
    } else if d == 2 {
        '2'
    } else if d == 3 {
        '3'
    } else if d == 4 {
        '4'
    } else if d == 5 {
        '5'
    } else if d == 6 {
        '6'
    } else if d == 7 {
        '7'
    } else if d == 8 {
        '8'
    } else {
        '9'
    }
}

fn digit_str(d: usize) -> (r: String)
    requires
        d < 10,
    ensures
        r@ == seq![digit_char(d as nat)],
{
    let s: &str = if d == 0 {
        "0"
    } else if d == 1 {
        "1"
    } else if d == 2 {
        "2"
    } else if d == 3 {
        "3"
    } else if d == 4 {
        "4"
    } else if d == 5 {
        "5"
    } else if d == 6 {
        "6"
    } else if d == 7 {
        "7"
    } else if d == 8 {
        "8"
    } else {
        "9"
    };
    proof {
        reveal_strlit("0");
        reveal_strlit("1");
        reveal_strlit("2");
        reveal_strlit("3");
        reveal_strlit("4");
        reveal_strlit("5");
        reveal_strlit("6");
        reveal_strlit("7");
        reveal_strlit("8");
        reveal_strlit("9");
        assert(s@ =~= seq![digit_char(d as nat)]);
    }
    s.to_owned()
}

/// Render a count in decimal, exactly as the server expects it.
fn usize_to_string(n: usize) -> (r: String)
    ensures
        r@ == decimal_digits(n as nat),
    decreases n,
{
    if n < 10 {
        digit_str(n)
    } else {
        proof {
            assert(n / 10 < n) by (nonlinear_arith)
                requires
                    n >= 10,
            ;
        }
        let mut r = usize_to_string(n / 10);
        let d = digit_str(n % 10);
        r.append(d.as_str());
        proof {
            assert(decimal_digits((n / 10) as nat).push(digit_char((n % 10) as nat))
                =~= decimal_digits((n / 10) as nat) + seq![digit_char((n % 10) as nat)]);
        }
        r
    }
}

/// The requested field names, joined with commas, in request order.
pub open spec fn joined_names(fields: Seq<TweetFields>) -> Seq<char>
    decreases fields.len(),
{
    if fields.len() == 0 {
        Seq::empty()
    } else if fields.len() == 1 {
        field_name_view(fields[0])
    } else {
        joined_names(fields.drop_last()) + ","@ + field_name_view(fields.last())
    }
}

fn join_fields(fields: &Vec<TweetFields>) -> (r: String)
    ensures
        r@ == joined_names(fields@),
{
    let mut r = String::new();
    let mut i: usize = 0;
    while i < fields.len()
        invariant
            i <= fields.len(),
            r@ == joined_names(fields@.take(i as int)),
        decreases fields.len() - i,
    {
        if i > 0 {
            r.append(",");
        }
        let name = fields[i].name();
        r.append(name.as_str());
        proof {
            assert(fields@.take(i + 1).drop_last() =~= fields@.take(i as int));
            assert(fields@.take(i + 1).last() == fields@[i as int]);
        }
        i = i + 1;
    }
    proof {
        assert(fields@.take(fields@.len() as int) =~= fields@);
    }
    r
}

/// The query parameters a tweet listing carries before any pagination
/// token: the requested fields when any, then the page size when given,
/// then the upper time bound when given.
pub open spec fn tweet_query_params(opts: Option<GetTweetOpts>) -> Seq<(Seq<char>, Seq<char>)> {
    match opts {
        None => Seq::empty(),
        Some(o) => {
            let with_fields = if o.tweet_fields@.len() > 0 {
                Seq::empty().push(("tweet.fields"@, joined_names(o.tweet_fields@)))
            } else {
                Seq::empty()
            };
            let with_max = match o.max_results {
                Some(m) => with_fields.push(("max_results"@, decimal_digits(m as nat))),
                None => with_fields,
            };
            match o.end_time {
                Some(t) => with_max.push(("end_time"@, rfc3339_of(t))),
                None => with_max,
            }
        },
    }
}

/// A handle on the upstream server: the base URL every request starts
/// from, and the bearer token that authenticates it.
#[derive(Clone, Debug)]
pub struct Api {
    base: String,
    token: BearerToken,
}

impl Api {
    /// The base URL's text.
    pub closed spec fn base_view(self) -> Seq<char> {
        self.base@
    }

    /// The bearer token's text.
    pub closed spec fn token_view(self) -> Seq<char> {
        self.token@
    }

    /// A handle on the production server.
    pub fn new(token: BearerToken) -> (r: Api)
        ensures
            r.base_view() == "https://api.twitter.com"@,
            r.token_view() == token@,
    {
        Api { base: "https://api.twitter.com".to_owned(), token }
    }

    /// The token text, for the transport layer.
    pub fn bearer(&self) -> (r: &str)
        ensures
            r@ == self.token_view(),
    {
        self.token.as_str()
    }

    /// The URL of the lookup of one user by username. The fetch itself
    /// is the transport layer's to perform.
    pub fn user_by_username_url(&self, username: &str) -> (r: QueryUrl)
        ensures
            r.path@ == self.base_view() + "/2/users/by/username/"@ + username@,
            r.params_view().len() == 0,
    {
        let mut path = self.base.clone();
        path.append("/2/users/by/username/");
        path.append(username);
        QueryUrl::new(path)
    }

    /// Open the paginated listing of one user's tweets: the sequence is
    /// constructed with the listing's full URL and no fetch is issued
    /// yet. Construction cannot fail; the `Result` mirrors the fetch
    /// errors that later pulls may surface.
    pub fn get_user_tweets(&self, user_id: &str, opts: Option<GetTweetOpts>) -> (r: Result<
        ApiResults<Tweet>,
        ApiError,
    >)
        requires
            opts matches Some(o) ==> (o.end_time matches Some(t) ==> valid_timestamp(t as int)),
        ensures
            (r matches Ok(results) && {
                &&& results.wf()
                &&& results.spec_state() == FetchState::Unstarted
                &&& results.spec_token() is None
                &&& results.buffer().len() == 0
                &&& results.url_path() == self.base_view() + "/2/users/"@ + user_id@
                    + "/tweets"@
                &&& results.url_params() == tweet_query_params(opts)
            }),
    {
        let mut path = self.base.clone();
        path.append("/2/users/");
        path.append(user_id);
        path.append("/tweets");
        let mut url = QueryUrl::new(path);
        proof {
            assert(url.params_view() =~= Seq::<(Seq<char>, Seq<char>)>::empty());
        }
        match &opts {
            None => {},
            Some(o) => {
                if o.tweet_fields.len() > 0 {
                    let joined = join_fields(&o.tweet_fields);
                    url.append_pair("tweet.fields".to_owned(), joined);
                }
                match o.max_results {
                    Some(m) => {
                        let rendered = usize_to_string(m);
                        url.append_pair("max_results".to_owned(), rendered);
                    },
                    None => {},
                }
                match o.end_time {
                    Some(t) => {
                        let rendered = rfc3339_utc(t);
                        url.append_pair("end_time".to_owned(), rendered);
                    },
                    None => {},
                }
            },
        }
        Ok(ApiResults::open(url))
    }
}

} // verus!
