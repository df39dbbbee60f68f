use vstd::prelude::*;
use vstd::string::StringExecFns;
use crate::utils::ClientOptions;

verus! {

/// The scheme and its separator: `https://` for a secure client, `http://`
/// otherwise.
pub open spec fn scheme_prefix(secure: bool) -> Seq<char> {
    if secure {
        "https://"@
    } else {
        "http://"@
    }
}

/// The absolute URL of an endpoint: scheme, domain, the fixed base path of
/// the API and the endpoint's relative path, each taken as it is.
pub open spec fn route_spec(domain: Seq<char>, secure: bool, path: Seq<char>) -> Seq<char> {
    scheme_prefix(secure) + domain + "/api/v3/"@ + path
}

/// Builds the absolute URL of the endpoint `route` on the configured instance.
pub fn build_route(route: &str, options: &ClientOptions) -> (url: String)
    ensures
        url@ == route_spec(options@.domain, options@.secure, route@),
{
    let mut url = String::from_str(if options.secure { "https://" } else { "http://" });
    url.append(options.domain.as_str());
    url.append("/api/v3/");
    url.append(route);
    url
}

/// What follows the scheme in a route: domain, base path and relative path.
spec fn route_tail(domain: Seq<char>, path: Seq<char>) -> Seq<char> {
    domain + "/api/v3/"@ + path
}

proof fn lemma_route_splits(domain: Seq<char>, secure: bool, path: Seq<char>)
    ensures
        route_spec(domain, secure, path) == scheme_prefix(secure) + route_tail(domain, path),
        scheme_prefix(secure).len() == if secure { 8int } else { 7int },
        route_spec(domain, secure, path)[4] == if secure { 's' } else { ':' },
        route_tail(domain, path).len() == domain.len() + 8 + path.len(),
        forall|i: int| 0 <= i < domain.len() ==> route_tail(domain, path)[i] == domain[i],
        route_tail(domain, path)[domain.len() as int] == '/',
        forall|i: int|
            0 <= i < path.len() ==> route_tail(domain, path)[domain.len() + 8 + i] == path[i],
{
    reveal_strlit("https://");
    reveal_strlit("http://");
    reveal_strlit("/api/v3/");
    assert(route_spec(domain, secure, path) =~= scheme_prefix(secure) + route_tail(domain, path));
}

/// Route construction loses nothing of its inputs. Two routes that are
/// equal were built for the same scheme; they have the same domain exactly
/// when they have the same relative path; and where neither domain holds a
/// `/`, as no host name does, both the domain and the path are the same.
pub proof fn lemma_route_injective(
    domain_a: Seq<char>,
    secure_a: bool,
    path_a: Seq<char>,
    domain_b: Seq<char>,
    secure_b: bool,
    path_b: Seq<char>,
)
    requires
        route_spec(domain_a, secure_a, path_a) == route_spec(domain_b, secure_b, path_b),
    ensures
        secure_a == secure_b,
        domain_a == domain_b <==> path_a == path_b,
        !domain_a.contains('/') && !domain_b.contains('/') ==> domain_a == domain_b && path_a
            == path_b,
{
    lemma_route_splits(domain_a, secure_a, path_a);
    lemma_route_splits(domain_b, secure_b, path_b);
    let prefix = scheme_prefix(secure_a);
    let tail_a = route_tail(domain_a, path_a);
    let tail_b = route_tail(domain_b, path_b);
    assert(tail_a =~= (prefix + tail_a).subrange(prefix.len() as int, (prefix + tail_a).len() as int));
    assert(tail_b =~= (prefix + tail_b).subrange(prefix.len() as int, (prefix + tail_b).len() as int));
    assert(tail_a == tail_b);
    if domain_a.len() == domain_b.len() {
        assert(domain_a =~= domain_b) by {
            assert forall|i: int| 0 <= i < domain_a.len() implies domain_a[i] == domain_b[i] by {
                assert(tail_a[i] == domain_a[i]);
                assert(tail_b[i] == domain_b[i]);
            }
        }
        assert(path_a =~= path_b) by {
            assert forall|i: int| 0 <= i < path_a.len() implies path_a[i] == path_b[i] by {
                assert(tail_a[domain_a.len() + 8 + i] == path_a[i]);
                assert(tail_b[domain_b.len() + 8 + i] == path_b[i]);
            }
        }
    } else if domain_a.len() < domain_b.len() {
        assert(tail_b[domain_a.len() as int] == domain_b[domain_a.len() as int]);
        assert(domain_b.contains('/'));
    } else {
        assert(tail_a[domain_b.len() as int] == domain_a[domain_b.len() as int]);
        assert(domain_a.contains('/'));
    }
}

} // verus!
