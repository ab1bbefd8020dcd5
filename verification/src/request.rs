//! Requests as they go out.
use vstd::prelude::*;

verus! {

/// A request before the endpoint adds what is its own.
#[derive(Debug)]
pub struct OutgoingRequest {
    pub url: String,
    pub body: String,
    /// Names and values of headers, in the order in which they are set.
    pub headers: Vec<(&'static str, &'static str)>,
}

/// The headers that every request has: its body is JSON, and its connection is not kept.
pub open spec fn common_headers() -> Seq<(Seq<char>, Seq<char>)> {
    seq![("content-type"@, "application/json"@), ("Connection"@, "close"@)]
}

/// The characters of header names and values.
pub open spec fn header_texts(headers: Seq<(&'static str, &'static str)>) -> Seq<
    (Seq<char>, Seq<char>),
> {
    headers.map_values(|header: (&'static str, &'static str)| (header.0@, header.1@))
}

/// The request that takes `body` to `url`.
pub fn outgoing_request(url: String, body: String) -> (request: OutgoingRequest)
    ensures
        request.url@ == url@,
        request.body@ == body@,
        header_texts(request.headers@) == common_headers(),
{
    let mut headers: Vec<(&'static str, &'static str)> = Vec::new();
    headers.push(("content-type", "application/json"));
    headers.push(("Connection", "close"));
    assert(header_texts(headers@) =~= common_headers());
    OutgoingRequest { url, body, headers }
}

/// Every request says that its body is JSON and that its connection is to be closed, and says
/// nothing else of its own.
pub proof fn requests_are_json_on_closed_connections(name: Seq<char>, value: Seq<char>)
    ensures
        common_headers().contains((name, value)) <==> {
            ||| name == "content-type"@ && value == "application/json"@
            ||| name == "Connection"@ && value == "close"@
        },
        common_headers().len() == 2,
{
    let headers = common_headers();
    assert(headers[0] == ("content-type"@, "application/json"@));
    assert(headers[1] == ("Connection"@, "close"@));
    if headers.contains((name, value)) {
        let i = choose|i: int| 0 <= i < headers.len() && headers[i] == (name, value);
        assert(i == 0 || i == 1);
    }
}

/// Header texts are those of the headers, one for one.
pub proof fn header_texts_are_kept(headers: Seq<(&'static str, &'static str)>)
    ensures
        header_texts(headers).len() == headers.len(),
        forall|i: int|
            0 <= i < headers.len() ==> (#[trigger] header_texts(headers)[i]).0 == headers[i].0@
                && header_texts(headers)[i].1 == headers[i].1@,
{
}

} // verus!
