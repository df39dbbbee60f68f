use vstd::prelude::*;
use vstd::string::StringExecFns;
use vstd::seq_lib::lemma_multiset_commutative;
use crate::headers::{distinct_names, map_of, supplies, HeaderPair, Headers};
use crate::request::{
    attached_headers, bearer_header, json_content_type, lemma_attachment_ignores_order,
    form_encoding_spec, token_headers, FormEncoding, HttpMethod, LemmyRequest, RequestBuilder,
    RequestBuilderView,
};
use crate::route::{build_route, route_spec};
use crate::utils::{option_str_text, option_text, ClientOptions, ClientOptionsView};

verus! {

/// The token that a call uses: its own where it brings one, else the
/// client's default, else none.
pub open spec fn effective_token(per_call: Option<Seq<char>>, default: Option<Seq<char>>) -> Option<
    Seq<char>,
> {
    match per_call {
        Some(token) => Some(token),
        None => default,
    }
}

/// A route with a form appended as its query string.
pub open spec fn query_route_spec(route: Seq<char>, form: Seq<char>) -> Seq<char> {
    route + "?"@ + form
}

/// The request that a call amounts to. A GET carries the form as the query
/// string of its URL and has no body. A POST or PUT has the bare route as
/// its URL and the form as its JSON body, declared as such. Then come the
/// extra headers, the default agent where they name none, and the bearer
/// header for the effective token.
pub open spec fn prepared_spec(
    options: ClientOptionsView,
    method: HttpMethod,
    path: Seq<char>,
    form: Seq<char>,
    jwt: Option<Seq<char>>,
    extra: Seq<HeaderPair>,
) -> RequestBuilderView {
    let route = route_spec(options.domain, options.secure, path);
    let token = effective_token(jwt, options.jwt);
    match form_encoding_spec(method) {
        FormEncoding::Query => RequestBuilderView {
            method,
            url: query_route_spec(route, form),
            headers: attached_headers(extra) + token_headers(token),
            body: None,
        },
        FormEncoding::Json => RequestBuilderView {
            method,
            url: route,
            headers: seq![json_content_type()] + attached_headers(extra) + token_headers(token),
            body: Some(form),
        },
    }
}

/// The headers of a prepared request before the token is attached.
pub open spec fn untokened_headers(method: HttpMethod, extra: Seq<HeaderPair>) -> Seq<HeaderPair> {
    match form_encoding_spec(method) {
        FormEncoding::Query => attached_headers(extra),
        FormEncoding::Json => seq![json_content_type()] + attached_headers(extra),
    }
}

/// Token precedence. A call that brings a token is sent with that token,
/// whatever the client's default is. A call that brings none is sent with
/// the default. Where there is neither, no bearer header is attached. The
/// bearer header, where there is one, comes last and displaces no other.
pub proof fn lemma_token_precedence(
    options: ClientOptionsView,
    method: HttpMethod,
    path: Seq<char>,
    form: Seq<char>,
    jwt: Option<Seq<char>>,
    extra: Seq<HeaderPair>,
)
    ensures
        ({
            let headers = prepared_spec(options, method, path, form, jwt, extra).headers;
            let before = untokened_headers(method, extra);
            match (jwt, options.jwt) {
                (Some(own), _) => headers == before.push(bearer_header(own)),
                (None, Some(default)) => headers == before.push(bearer_header(default)),
                (None, None) => headers == before,
            }
        }),
{
    let headers = prepared_spec(options, method, path, form, jwt, extra).headers;
    let before = untokened_headers(method, extra);
    let token = effective_token(jwt, options.jwt);
    assert(headers =~= before + token_headers(token));
    match token {
        Some(text) => {
            assert(before + seq![bearer_header(text)] =~= before.push(bearer_header(text)));
        },
        None => {
            assert(before + Seq::<HeaderPair>::empty() =~= before);
        },
    }
}

/// The form goes one way only. A GET has no body: its form is the query
/// string of its URL. A POST or PUT has the form as its body, and its URL is
/// the bare route, with no query string appended.
pub proof fn lemma_form_placement(
    options: ClientOptionsView,
    method: HttpMethod,
    path: Seq<char>,
    form: Seq<char>,
    jwt: Option<Seq<char>>,
    extra: Seq<HeaderPair>,
)
    ensures
        ({
            let prepared = prepared_spec(options, method, path, form, jwt, extra);
            let route = route_spec(options.domain, options.secure, path);
            &&& prepared.method == method
            &&& method == HttpMethod::Get ==> prepared.body is None && prepared.url
                == query_route_spec(route, form)
            &&& method != HttpMethod::Get ==> prepared.body == Some(form) && prepared.url == route
        }),
{
}

/// A prepared request does not depend on the order in which the extra
/// headers are held. Two lists with distinct names that stand for the same
/// mapping give the same method, URL and body, and the same headers, each
/// as often as the other.
pub proof fn lemma_prepared_ignores_order(
    options: ClientOptionsView,
    method: HttpMethod,
    path: Seq<char>,
    form: Seq<char>,
    jwt: Option<Seq<char>>,
    a: Seq<HeaderPair>,
    b: Seq<HeaderPair>,
)
    requires
        distinct_names(a),
        distinct_names(b),
        map_of(a) == map_of(b),
    ensures
        ({
            let with_a = prepared_spec(options, method, path, form, jwt, a);
            let with_b = prepared_spec(options, method, path, form, jwt, b);
            &&& with_a.method == with_b.method
            &&& with_a.url == with_b.url
            &&& with_a.body == with_b.body
            &&& with_a.headers.to_multiset() == with_b.headers.to_multiset()
        }),
{
    lemma_attachment_ignores_order(a, b);
    let token = token_headers(effective_token(jwt, options.jwt));
    let first = match form_encoding_spec(method) {
        FormEncoding::Query => Seq::<HeaderPair>::empty(),
        FormEncoding::Json => seq![json_content_type()],
    };
    let with_a = prepared_spec(options, method, path, form, jwt, a);
    let with_b = prepared_spec(options, method, path, form, jwt, b);
    assert(with_a.headers =~= first + attached_headers(a) + token);
    assert(with_b.headers =~= first + attached_headers(b) + token);
    lemma_multiset_commutative(first, attached_headers(a));
    lemma_multiset_commutative(first, attached_headers(b));
    lemma_multiset_commutative(first + attached_headers(a), token);
    lemma_multiset_commutative(first + attached_headers(b), token);
}

/// Picks the token for a call: the call's own before the client's default.
pub fn resolve_token<'a>(per_call: &'a Option<String>, default: &'a Option<String>) -> (token:
    Option<&'a str>)
    ensures
        option_str_text(token) == effective_token(option_text(*per_call), option_text(*default)),
{
    match per_call {
        Some(token) => Some(token.as_str()),
        None => match default {
            Some(token) => Some(token.as_str()),
            None => None,
        },
    }
}

/// Builds the URL of a GET: the route of `path` with `form`, the form in
/// URL encoding, as its query string.
pub fn build_query_route(path: &str, options: &ClientOptions, form: &str) -> (url: String)
    ensures
        url@ == query_route_spec(route_spec(options@.domain, options@.secure, path@), form@),
{
    let mut url = build_route(path, options);
    url.append("?");
    url.append(form);
    url
}

/// Prepares the one request of a call. `request.body` is the form as text,
/// in the encoding that the method calls for: URL encoding for a GET, JSON
/// for a POST or PUT.
pub fn prepare_request(
    options: &ClientOptions,
    method: HttpMethod,
    path: &str,
    request: LemmyRequest<String>,
    headers: &Headers,
) -> (prepared: RequestBuilder)
    ensures
        prepared@ == prepared_spec(
            options@,
            method,
            path@,
            request.body@,
            option_text(request.jwt),
            headers.pairs(),
        ),
        method == HttpMethod::Get ==> prepared@.body is None,
        method != HttpMethod::Get ==> prepared@.body == Some(request.body@) && prepared@.url
            == route_spec(options@.domain, options@.secure, path@),
{
    let LemmyRequest { body, jwt } = request;
    let builder = match method.form_encoding() {
        FormEncoding::Query => {
            let builder = RequestBuilder::new(method, build_query_route(path, options, body.as_str()));
            assert(builder@.headers + attached_headers(headers.pairs()) =~= attached_headers(
                headers.pairs(),
            ));
            builder
        },
        FormEncoding::Json => {
            let builder = RequestBuilder::new(method, build_route(path, options)).json(body);
            proof {
                assert(!supplies(Seq::<HeaderPair>::empty(), "content-type"@));
                assert(builder@.headers =~= seq![json_content_type()]);
            }
            builder
        },
    };
    builder.with_headers(headers).maybe_with_jwt(resolve_token(&jwt, &options.jwt))
}

/// The browser-side client: its options, and the requests it prepares.
#[derive(Debug, Clone, PartialEq, Eq)]
pub struct Fetch(pub ClientOptions);

impl Fetch {
    /// A client for the instance that `options` names.
    pub fn new(options: ClientOptions) -> (client: Self)
        ensures
            client.0 == options,
    {
        Fetch(options)
    }

    /// The options that the client was made with.
    pub fn client_options(&self) -> (options: &ClientOptions)
        ensures
            *options == self.0,
    {
        &self.0
    }

    /// Builds the URL of a GET from the outcome of encoding the form: the
    /// route of `path`, a `?`, and the encoded form, or `path` once more
    /// where the form could not be encoded.
    pub fn build_fetch_query(&self, path: &str, form: Option<&str>) -> (url: String)
        ensures
            url@ == query_route_spec(
                route_spec(self.0@.domain, self.0@.secure, path@),
                match form {
                    Some(text) => text@,
                    None => path@,
                },
            ),
    {
        let form_str = match form {
            Some(text) => text,
            None => path,
        };
        build_query_route(path, &self.0, form_str)
    }

    /// Prepares the one request of a call, as [`prepare_request`] does for
    /// this client's options.
    pub fn prepare_request(
        &self,
        method: HttpMethod,
        path: &str,
        request: LemmyRequest<String>,
        headers: &Headers,
    ) -> (prepared: RequestBuilder)
        ensures
            prepared@ == prepared_spec(
                self.0@,
                method,
                path@,
                request.body@,
                option_text(request.jwt),
                headers.pairs(),
            ),
    {
        prepare_request(&self.0, method, path, request, headers)
    }
}

} // verus!
