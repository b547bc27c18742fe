use vstd::prelude::*;
use vstd::string::StringExecFns;

verus! {

/// The URL scheme chosen by the transport flag. The service treats encrypted
/// transport as a paid feature; choosing it on an unpaid key fails through
/// the normal error path.
pub open spec fn spec_scheme(ssl: bool) -> Seq<char> {
    if ssl {
        "https"@
    } else {
        "http"@
    }
}

/// The view of an optional target string.
pub open spec fn host_view(host: Option<&str>) -> Option<Seq<char>> {
    match host {
        Some(h) => Some(h@),
        None => None,
    }
}

/// The full request URL for a target: the scheme, the fixed host and path,
/// the target (or nothing, asking about the caller's own address), and the
/// fixed field mask selecting the full field set this client understands.
pub open spec fn spec_url(host: Option<Seq<char>>, ssl: bool) -> Seq<char> {
    spec_scheme(ssl) + "://ip-api.com/json/"@ + (match host {
        Some(h) => h,
        None => Seq::<char>::empty(),
    }) + "?fields=258047"@
}

/// Compose the request URL. The target is not validated here: the service
/// itself answers `invalid query` for a malformed one.
pub fn build_url(host: Option<&str>, ssl: bool) -> (r: String)
    ensures
        r@ == spec_url(host_view(host), ssl),
{
    let mut s = if ssl {
        String::from_str("https")
    } else {
        String::from_str("http")
    };
    s.append("://ip-api.com/json/");
    match host {
        Some(h) => s.append(h),
        None => (),
    }
    s.append("?fields=258047");
    proof {
        assert(s@ =~= spec_url(host_view(host), ssl));
    }
    s
}

/// The composed URL begins with the encrypted scheme exactly when encrypted
/// transport was chosen, and with the plain scheme otherwise.
pub proof fn lemma_url_scheme(host: Option<Seq<char>>, ssl: bool)
    ensures
        ssl ==> spec_url(host, ssl).take(5) == "https"@,
        !ssl ==> spec_url(host, ssl).take(4) == "http"@,
{
    reveal_strlit("https");
    reveal_strlit("http");
    if ssl {
        assert(spec_url(host, ssl).take(5) =~= "https"@);
    } else {
        assert(spec_url(host, ssl).take(4) =~= "http"@);
    }
}

/// The composed URL is exactly the fixed prefix, then the target segment —
/// the given target, or an empty segment where none was given — and then the
/// fixed query.
pub proof fn lemma_url_target_segment(host: Option<Seq<char>>, ssl: bool)
    ensures
        spec_url(host, ssl) == spec_scheme(ssl) + "://ip-api.com/json/"@ + (match host {
            Some(h) => h,
            None => Seq::<char>::empty(),
        }) + "?fields=258047"@,
        spec_url(None, ssl) == spec_scheme(ssl) + "://ip-api.com/json/"@ + "?fields=258047"@,
{
    assert(spec_url(None, ssl) =~= spec_scheme(ssl) + "://ip-api.com/json/"@
        + "?fields=258047"@);
}

} // verus!
