//! The reporter's side of the pipeline: the requests that fetch and set the
//! day's quantity of a graph, and the baseline that a fetch yields.

use vstd::prelude::*;
use vstd::string::StringExecFns;

verus! {

/// The request that reads the day's quantity of a graph: where it goes and
/// the token that authorises it.
#[derive(Clone, Debug, PartialEq, Eq)]
pub struct FetchRequest {
    pub url: String,
    pub token: String,
}

/// A fetch request as plain values.
pub struct FetchRequestView {
    pub url: Seq<char>,
    pub token: Seq<char>,
}

impl View for FetchRequest {
    type V = FetchRequestView;

    open spec fn view(&self) -> FetchRequestView {
        FetchRequestView { url: self.url@, token: self.token@ }
    }
}

/// The request that sets the day's quantity of a graph: where it goes, the
/// token that authorises it, and the quantity.
#[derive(Clone, Debug, PartialEq, Eq)]
pub struct ReportRequest {
    pub url: String,
    pub token: String,
    pub quantity: i64,
}

/// A report request as plain values.
pub struct ReportRequestView {
    pub url: Seq<char>,
    pub token: Seq<char>,
    pub quantity: i64,
}

impl View for ReportRequest {
    type V = ReportRequestView;

    open spec fn view(&self) -> ReportRequestView {
        ReportRequestView { url: self.url@, token: self.token@, quantity: self.quantity }
    }
}

/// What came back from fetching the day's quantity.
#[derive(Clone, Copy, Debug, PartialEq, Eq, Structural)]
pub enum Fetched {
    /// The service answered with the quantity.
    Quantity(i64),
    /// The service answered with something else.
    Unreadable,
    /// The request did not get through.
    Unreachable,
}

/// The address of one day's pixel of a user's graph.
pub open spec fn pixel_url(username: Seq<char>, graph_id: Seq<char>, date: Seq<char>) -> Seq<
    char,
> {
    "https://pixe.la/v1/users/"@ + username + "/graphs/"@ + graph_id + "/"@ + date
}

/// The baseline that a fetch yields: the quantity where the service gave one,
/// zero after any failure.
///
/// A failed fetch is not an error. The session then counts from zero, and
/// its reports can set the day's quantity below what the service held: the
/// loss is accepted so that capture starts whatever the network does.
pub open spec fn baseline_of_spec(fetched: Fetched) -> i64 {
    match fetched {
        Fetched::Quantity(quantity) => quantity,
        Fetched::Unreadable => 0,
        Fetched::Unreachable => 0,
    }
}

/// The baseline with which a session starts, given what the fetch brought.
#[verifier::when_used_as_spec(baseline_of_spec)]
pub fn baseline_of(fetched: Fetched) -> (baseline: i64)
    ensures
        baseline == baseline_of_spec(fetched),
{
    match fetched {
        Fetched::Quantity(quantity) => quantity,
        Fetched::Unreadable => 0,
        Fetched::Unreachable => 0,
    }
}

/// Calls `chrono::Local::now`, formats the result with `%Y%m%d` and returns
/// the text. The result is the machine's local date at the moment of the
/// call, so nothing is claimed of it. chrono refuses a system clock that is
/// set before 1970.
#[verifier::external_body]
fn today() -> (date: String) {
    chrono::Local::now().format("%Y%m%d").to_string()
}

/// An account of the tally service.
pub struct ApiView {
    pub username: Seq<char>,
    pub token: Seq<char>,
}

/// The client's side of an account: the user and the token that authorises
/// the user's requests.
#[derive(Debug)]
pub struct API {
    username: String,
    token: String,
}

impl View for API {
    type V = ApiView;

    closed spec fn view(&self) -> ApiView {
        ApiView { username: self.username@, token: self.token@ }
    }
}

impl API {
    /// The request that reads the quantity of a graph on a day.
    pub open spec fn fetch_request(
        account: ApiView,
        graph_id: Seq<char>,
        date: Seq<char>,
    ) -> FetchRequestView {
        FetchRequestView {
            url: pixel_url(account.username, graph_id, date),
            token: account.token,
        }
    }

    /// The request that sets the quantity of a graph on a day.
    pub open spec fn report_request(
        account: ApiView,
        graph_id: Seq<char>,
        date: Seq<char>,
        count: i64,
    ) -> ReportRequestView {
        ReportRequestView {
            url: pixel_url(account.username, graph_id, date),
            token: account.token,
            quantity: count,
        }
    }

    /// The account of a user, with the token that authorises its requests.
    pub fn new(username: String, token: String) -> (api: API)
        ensures
            api@ == (ApiView { username: username@, token: token@ }),
    {
        API { username, token }
    }

    /// The address of one day's pixel of one of the account's graphs.
    pub fn pixel_url(&self, graph_id: &str, date: &str) -> (url: String)
        ensures
            url@ == pixel_url(self@.username, graph_id@, date@),
    {
        let mut url = String::from_str("https://pixe.la/v1/users/");
        url.append(self.username.as_str());
        url.append("/graphs/");
        url.append(graph_id);
        url.append("/");
        url.append(date);
        url
    }

    /// The request that reads the quantity of a graph on the given day.
    pub fn get_pixel_on(&self, graph_id: &str, date: &str) -> (request: FetchRequest)
        ensures
            request@ == Self::fetch_request(self@, graph_id@, date@),
    {
        FetchRequest { url: self.pixel_url(graph_id, date), token: self.token.clone() }
    }

    /// The request that sets the quantity of a graph on the given day.
    pub fn post_pixel_on(&self, graph_id: &str, date: &str, count: i64) -> (request:
        ReportRequest)
        ensures
            request@ == Self::report_request(self@, graph_id@, date@, count),
    {
        ReportRequest {
            url: self.pixel_url(graph_id, date),
            token: self.token.clone(),
            quantity: count,
        }
    }

    /// The request that reads today's quantity of a graph. The day is the
    /// machine's local date when the request is made.
    pub fn get_pixel(&self, graph_id: &str) -> (request: FetchRequest)
        ensures
            exists|date: Seq<char>|
                request@ == #[trigger] Self::fetch_request(self@, graph_id@, date),
    {
        let date = today();
        let request = self.get_pixel_on(graph_id, date.as_str());
        proof {
            assert(request@ == Self::fetch_request(self@, graph_id@, date@));
        }
        request
    }

    /// The request that sets today's quantity of a graph to `count`. The day
    /// is the machine's local date when the request is made.
    pub fn post_pixel(&self, graph_id: &str, count: i64) -> (request: ReportRequest)
        ensures
            exists|date: Seq<char>|
                request@ == #[trigger] Self::report_request(self@, graph_id@, date, count),
    {
        let date = today();
        let request = self.post_pixel_on(graph_id, date.as_str(), count);
        proof {
            assert(request@ == Self::report_request(self@, graph_id@, date@, count));
        }
        request
    }
}

} // verus!
