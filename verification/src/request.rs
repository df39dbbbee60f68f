use vstd::prelude::*;
use vstd::string::StringExecFns;
use crate::headers::{
    distinct_names, lemma_map_of_pairs, map_of, pairs_of, same_ignoring_ascii_case, supplies,
    HeaderPair, Headers,
};
use crate::utils::{option_str_text, option_text};

verus! {

/// The HTTP methods that the API uses.
#[derive(Debug, Clone, Copy, PartialEq, Eq, Structural)]
pub enum HttpMethod {
    Get,
    Post,
    Put,
}

/// How a form travels with a request.
#[derive(Debug, Clone, Copy, PartialEq, Eq, Structural)]
pub enum FormEncoding {
    /// URL-encoded, as the query string of the URL.
    Query,
    /// As JSON text, in the body.
    Json,
}

/// The encoding that a method calls for: a GET carries its form in the
/// query string, a POST or PUT carries it as a JSON body.
pub open spec fn form_encoding_spec(method: HttpMethod) -> FormEncoding {
    match method {
        HttpMethod::Get => FormEncoding::Query,
        HttpMethod::Post => FormEncoding::Json,
        HttpMethod::Put => FormEncoding::Json,
    }
}

impl HttpMethod {
    /// The encoding in which a request of this method carries its form.
    pub fn form_encoding(self) -> (encoding: FormEncoding)
        ensures
            encoding == form_encoding_spec(self),
    {
        match self {
            HttpMethod::Get => FormEncoding::Query,
            HttpMethod::Post => FormEncoding::Json,
            HttpMethod::Put => FormEncoding::Json,
        }
    }
}

/// A form for one call together with the token for that call alone.
#[derive(Debug, Clone, PartialEq, Eq)]
pub struct LemmyRequest<Form> {
    /// The form to send.
    pub body: Form,
    /// A token that takes the place of the client's default for this call.
    pub jwt: Option<String>,
}

/// The mathematical value of a [`RequestBuilder`].
pub struct RequestBuilderView {
    pub method: HttpMethod,
    pub url: Seq<char>,
    pub headers: Seq<HeaderPair>,
    pub body: Option<Seq<char>>,
}

/// A request as it will be handed to the transport: method, URL, headers in
/// the order in which they were applied, and the body if there is one.
#[derive(Debug, Clone, PartialEq, Eq)]
pub struct RequestBuilder {
    pub method: HttpMethod,
    pub url: String,
    pub headers: Vec<(String, String)>,
    pub body: Option<String>,
}

impl View for RequestBuilder {
    type V = RequestBuilderView;

    open spec fn view(&self) -> RequestBuilderView {
        RequestBuilderView {
            method: self.method,
            url: self.url@,
            headers: pairs_of(self.headers@),
            body: option_text(self.body),
        }
    }
}

/// The header that identifies this client where the caller names no agent.
pub open spec fn default_user_agent() -> HeaderPair {
    ("user-agent"@, "Lemmy-Client-rs/0.19.3"@)
}

/// The header that declares a JSON body.
pub open spec fn json_content_type() -> HeaderPair {
    ("content-type"@, "application/json"@)
}

/// The header that carries the bearer token `token`.
pub open spec fn bearer_header(token: Seq<char>) -> HeaderPair {
    ("authorization"@, "Bearer "@ + token)
}

/// What the extra headers put on a request: each of them, in the order in
/// which they are held, and then the default agent where none of them names
/// an agent in any letter-casing.
pub open spec fn attached_headers(extra: Seq<HeaderPair>) -> Seq<HeaderPair> {
    if supplies(extra, "user-agent"@) {
        extra
    } else {
        extra.push(default_user_agent())
    }
}

/// What a token puts on a request: the bearer header, or nothing where there
/// is no token.
pub open spec fn token_headers(token: Option<Seq<char>>) -> Seq<HeaderPair> {
    match token {
        Some(text) => seq![bearer_header(text)],
        None => Seq::empty(),
    }
}

/// The headers of a list that name the agent, in any letter-casing.
pub open spec fn agent_headers(pairs: Seq<HeaderPair>) -> Seq<HeaderPair> {
    pairs.filter(|pair: HeaderPair| same_ignoring_ascii_case(pair.0, "user-agent"@))
}

/// Two lists of headers with distinct names that stand for the same mapping
/// hold the same headers, and one names an agent exactly when the other does.
proof fn lemma_same_map_same_pairs(a: Seq<HeaderPair>, b: Seq<HeaderPair>)
    requires
        distinct_names(a),
        distinct_names(b),
        map_of(a) == map_of(b),
    ensures
        forall|pair: HeaderPair| a.contains(pair) ==> b.contains(pair),
        supplies(a, "user-agent"@) ==> supplies(b, "user-agent"@),
{
    lemma_map_of_pairs(a);
    lemma_map_of_pairs(b);
    assert forall|i: int| 0 <= i < a.len() implies b.contains(#[trigger] a[i]) by {
        assert(map_of(b).contains_key(a[i].0));
        let j = choose|j: int| 0 <= j < b.len() && #[trigger] b[j].0 == a[i].0;
        assert(map_of(b)[b[j].0] == b[j].1);
        assert(b[j] == a[i]);
    }
    assert forall|pair: HeaderPair| a.contains(pair) implies b.contains(pair) by {
        let i = choose|i: int| 0 <= i < a.len() && a[i] == pair;
        assert(b.contains(a[i]));
    }
    if supplies(a, "user-agent"@) {
        let i = choose|i: int|
            0 <= i < a.len() && same_ignoring_ascii_case(#[trigger] a[i].0, "user-agent"@);
        assert(b.contains(a[i]));
        let j = choose|j: int| 0 <= j < b.len() && b[j] == a[i];
        assert(same_ignoring_ascii_case(b[j].0, "user-agent"@));
    }
}

/// Header attachment does not depend on the order in which the extra headers
/// are held. Two lists with distinct names that stand for the same mapping
/// put the same headers on a request, each as often as the other.
pub proof fn lemma_attachment_ignores_order(a: Seq<HeaderPair>, b: Seq<HeaderPair>)
    requires
        distinct_names(a),
        distinct_names(b),
        map_of(a) == map_of(b),
    ensures
        attached_headers(a).to_multiset() == attached_headers(b).to_multiset(),
{
    lemma_same_map_same_pairs(a, b);
    lemma_same_map_same_pairs(b, a);
    assert(a.no_duplicates());
    assert(b.no_duplicates());
    a.lemma_multiset_has_no_duplicates();
    b.lemma_multiset_has_no_duplicates();
    a.to_multiset_ensures();
    b.to_multiset_ensures();
    assert(a.to_multiset() =~= b.to_multiset()) by {
        assert forall|pair: HeaderPair| a.to_multiset().count(pair) == b.to_multiset().count(
            pair,
        ) by {
            if a.contains(pair) {
                assert(b.contains(pair));
                assert(a.to_multiset().contains(pair));
                assert(b.to_multiset().contains(pair));
            } else {
                assert(!b.contains(pair));
            }
        }
    }
    assert(attached_headers(a).to_multiset() =~= attached_headers(b).to_multiset());
}

/// The agent is never named twice on account of the default. Where the extra
/// headers name an agent, in whatever letter-casing, nothing is added to them;
/// where they name none, the default is the one header that names it.
pub proof fn lemma_agent_never_doubled(extra: Seq<HeaderPair>)
    ensures
        supplies(extra, "user-agent"@) ==> attached_headers(extra) == extra,
        !supplies(extra, "user-agent"@) ==> agent_headers(attached_headers(extra)) == seq![
            default_user_agent(),
        ],
{
    if !supplies(extra, "user-agent"@) {
        let names_agent = |pair: HeaderPair| same_ignoring_ascii_case(pair.0, "user-agent"@);
        let found = extra.filter(names_agent);
        if found.len() > 0 {
            extra.lemma_filter_pred(names_agent, 0);
            extra.lemma_filter_contains_rev(names_agent, found[0]);
            let i = choose|i: int| 0 <= i < extra.len() && extra[i] == found[0];
            assert(same_ignoring_ascii_case(extra[i].0, "user-agent"@));
        }
        assert(found =~= Seq::<HeaderPair>::empty());
        let last = seq![default_user_agent()];
        assert(same_ignoring_ascii_case("user-agent"@, "user-agent"@));
        assert(last.filter(names_agent) =~= last) by {
            reveal_with_fuel(Seq::filter, 2);
            assert(last.drop_last() =~= Seq::<HeaderPair>::empty());
        }
        assert(extra.push(default_user_agent()) =~= extra + last);
        Seq::filter_distributes_over_add(extra, last, names_agent);
    }
}

/// The name of the `Authorization` header as the `http` crate spells it:
/// `http::header::AUTHORIZATION`, whose text is `authorization`.
#[verifier::external_body]
fn authorization_header_name() -> (name: &'static str)
    ensures
        name@ == "authorization"@,
{
    http::header::AUTHORIZATION.as_str()
}

impl RequestBuilder {
    /// A request for `url` without headers or body.
    pub fn new(method: HttpMethod, url: String) -> (builder: Self)
        ensures
            builder@ == (RequestBuilderView {
                method,
                url: url@,
                headers: Seq::empty(),
                body: None,
            }),
    {
        let builder = RequestBuilder { method, url, headers: Vec::new(), body: None };
        assert(builder@.headers =~= Seq::empty());
        builder
    }

    /// Applies one header after those already applied.
    pub fn header(self, name: &str, value: &str) -> (builder: Self)
        ensures
            builder@ == (RequestBuilderView {
                headers: self@.headers.push((name@, value@)),
                ..self@
            }),
    {
        let mut builder = self;
        builder.headers.push((String::from_str(name), String::from_str(value)));
        assert(builder@.headers =~= self@.headers.push((name@, value@)));
        builder
    }

    /// Whether a header is applied whose name is `name` in any letter-casing.
    pub fn has_header(&self, name: &str) -> (found: bool)
        ensures
            found == supplies(self@.headers, name@),
    {
        has_name_ignoring_case(&self.headers, name)
    }

    /// Makes `body` the JSON body of the request, and declares the content
    /// type as JSON unless a content type is already applied.
    pub fn json(self, body: String) -> (builder: Self)
        ensures
            builder@ == (RequestBuilderView {
                headers: if supplies(self@.headers, "content-type"@) {
                    self@.headers
                } else {
                    self@.headers.push(json_content_type())
                },
                body: Some(body@),
                ..self@
            }),
    {
        let declared = self.has_header("content-type");
        let mut builder = if declared {
            self
        } else {
            self.header("content-type", "application/json")
        };
        builder.body = Some(body);
        builder
    }

    /// Applies every extra header, and the default `user-agent` where the
    /// extra headers name no agent in any letter-casing.
    pub fn with_headers(self, headers: &Headers) -> (builder: Self)
        ensures
            builder@ == (RequestBuilderView {
                headers: self@.headers + attached_headers(headers.pairs()),
                ..self@
            }),
    {
        let entries = headers.entries();
        let ghost extra = headers.pairs();
        let supplied = has_name_ignoring_case(entries, "user-agent");
        let mut builder = self;
        let mut i: usize = 0;
        while i < entries.len()
            invariant
                i <= entries.len(),
                pairs_of(entries@) == extra,
                builder@ == (RequestBuilderView {
                    headers: self@.headers + extra.subrange(0, i as int),
                    ..self@
                }),
            decreases entries.len() - i,
        {
            let ghost before = builder@.headers;
            builder = builder.header(entries[i].0.as_str(), entries[i].1.as_str());
            assert(extra[i as int] == (entries@[i as int].0@, entries@[i as int].1@));
            assert(self@.headers + extra.subrange(0, i + 1) =~= before.push(extra[i as int]));
            i += 1;
        }
        assert(extra.subrange(0, i as int) =~= extra);
        if !supplied {
            builder = builder.header("user-agent", "Lemmy-Client-rs/0.19.3");
            assert(self@.headers + extra.push(default_user_agent()) =~= (self@.headers
                + extra).push(default_user_agent()));
        }
        builder
    }

    /// Applies the bearer token, if there is one, after the headers already
    /// applied.
    pub fn maybe_with_jwt(self, jwt: Option<&str>) -> (builder: Self)
        ensures
            builder@ == (RequestBuilderView {
                headers: self@.headers + token_headers(option_str_text(jwt)),
                ..self@
            }),
    {
        match jwt {
            Some(token) => {
                let mut value = String::from_str("Bearer ");
                value.append(token);
                let builder = self.header(authorization_header_name(), value.as_str());
                assert(self@.headers + seq![bearer_header(token@)] =~= self@.headers.push(
                    bearer_header(token@),
                ));
                builder
            },
            None => {
                assert(self@.headers + Seq::<HeaderPair>::empty() =~= self@.headers);
                self
            },
        }
    }
}

/// Whether some entry has a name that is `name` in any letter-casing.
fn has_name_ignoring_case(entries: &Vec<(String, String)>, name: &str) -> (found: bool)
    ensures
        found == supplies(pairs_of(entries@), name@),
{
    let mut i: usize = 0;
    while i < entries.len()
        invariant
            i <= entries.len(),
            forall|j: int|
                0 <= j < i ==> !same_ignoring_ascii_case(
                    #[trigger] pairs_of(entries@)[j].0,
                    name@,
                ),
        decreases entries.len() - i,
    {
        if entries[i].0.as_str().eq_ignore_ascii_case(name) {
            assert(pairs_of(entries@)[i as int].0 == entries@[i as int].0@);
            return true;
        }
        i += 1;
    }
    false
}

} // verus!
