use vstd::prelude::*;
use vstd::string::StringExecFns;
use crate::error::{IpApiError, unexpected_json, unexpected_text};
use crate::json::{
    extract_bool_field, extract_double_field, extract_str_field, json_bool_field_of,
    json_double_field_of, json_error_text, json_parses, json_str_field_of, parse_json,
};
use crate::record::{GeoIp, RawFields, build_record};
use crate::strutil::str_eq;

verus! {

/// The text of the error for a body that is not JSON: a description of the
/// parse failure, then the raw body for diagnosis.
pub open spec fn parse_failure_text(detail: Seq<char>, body: Seq<char>) -> Seq<char> {
    "Error interpreting body as json: "@ + detail + "; the body is: "@ + body
}

/// All fourteen members of the success payload are present and well-typed in
/// the document.
pub open spec fn payload_complete(s: Seq<char>) -> bool {
    &&& json_str_field_of(s, "country"@) is Some
    &&& json_str_field_of(s, "countryCode"@) is Some
    &&& json_str_field_of(s, "region"@) is Some
    &&& json_str_field_of(s, "regionName"@) is Some
    &&& json_str_field_of(s, "city"@) is Some
    &&& json_str_field_of(s, "zip"@) is Some
    &&& json_double_field_of(s, "lat"@) is Some
    &&& json_double_field_of(s, "lon"@) is Some
    &&& json_str_field_of(s, "timezone"@) is Some
    &&& json_str_field_of(s, "isp"@) is Some
    &&& json_str_field_of(s, "org"@) is Some
    &&& json_str_field_of(s, "as"@) is Some
    &&& json_bool_field_of(s, "mobile"@) is Some
    &&& json_bool_field_of(s, "proxy"@) is Some
}

/// Wrap a parse-failure description into the catch-all error, quoting the
/// body.
fn parse_failure_error(detail: &str, body: &str) -> (r: IpApiError)
    ensures
        r matches IpApiError::OtherError(m) && m@ == parse_failure_text(detail@, body@),
{
    let mut s = String::from_str("Error interpreting body as json: ");
    s.append(detail);
    s.append("; the body is: ");
    s.append(body);
    IpApiError::OtherError(s)
}

/// Map the `message` of a failed envelope to the error case.
///
/// The four reasons the service names map to their dedicated cases; any
/// other string, or a missing or non-string message, maps to the catch-all
/// error quoting the raw body.
pub fn classify_failure(message: Option<&str>, body: &str) -> (r: IpApiError)
    ensures
        message matches Some(m) && m@ == "private range"@ ==> r == IpApiError::PrivateRange,
        message matches Some(m) && m@ == "reserved range"@ ==> r == IpApiError::ReservedRange,
        message matches Some(m) && m@ == "invalid query"@ ==> r == IpApiError::InvalidQuery,
        message matches Some(m) && m@ == "quota"@ ==> r == IpApiError::Quota,
        (match message {
            Some(m) => m@ != "private range"@ && m@ != "reserved range"@ && m@ != "invalid query"@
                && m@ != "quota"@,
            None => true,
        }) ==> (r matches IpApiError::OtherError(t) && t@ == unexpected_text(
            "unknown error message"@,
            body@,
        )),
{
    proof {
        reveal_strlit("private range");
        reveal_strlit("reserved range");
        reveal_strlit("invalid query");
        reveal_strlit("quota");
        assert("private range"@.len() == 13);
        assert("reserved range"@.len() == 14);
        assert("invalid query"@.len() == 13);
        assert("quota"@.len() == 5);
        assert("private range"@[0] == 'p');
        assert("invalid query"@[0] == 'i');
    }
    match message {
        Some(m) => {
            if str_eq(m, "private range") {
                IpApiError::PrivateRange
            } else if str_eq(m, "reserved range") {
                IpApiError::ReservedRange
            } else if str_eq(m, "invalid query") {
                IpApiError::InvalidQuery
            } else if str_eq(m, "quota") {
                IpApiError::Quota
            } else {
                unexpected_json(body, "unknown error message")
            }
        },
        None => unexpected_json(body, "unknown error message"),
    }
}

/// Interpret one response body from the service.
///
/// A body that is not JSON gives the catch-all error describing the parse
/// failure and quoting the body. A parsed envelope is read by its `status`:
/// `"success"` yields the typed record, with the field names the service
/// uses on the wire (`lon` for the longitude, `as` for the autonomous
/// system) mapped onto the record's own, or the catch-all error where a
/// field is missing or mistyped; `"fail"` yields the error its `message`
/// names; any other or missing status yields the catch-all error quoting
/// the body.
pub fn interpret_response(body: &str) -> (r: Result<GeoIp, IpApiError>)
    ensures
        !json_parses(body@) ==> (r matches Err(e) && e matches IpApiError::OtherError(m) && (
        exists|detail: Seq<char>| m@ == parse_failure_text(detail, body@))),
        json_parses(body@) && json_str_field_of(body@, "status"@) == Some("success"@)
            && payload_complete(body@) ==> (r matches Ok(g) && json_str_field_of(
            body@,
            "country"@,
        ) == Some(g.country@) && json_str_field_of(body@, "countryCode"@) == Some(g.country_code@)
            && json_str_field_of(body@, "region"@) == Some(g.region@) && json_str_field_of(
            body@,
            "regionName"@,
        ) == Some(g.region_name@) && json_str_field_of(body@, "city"@) == Some(g.city@)
            && json_str_field_of(body@, "zip"@) == Some(g.zip@) && json_double_field_of(
            body@,
            "lat"@,
        ) == Some(g.lat_bits) && json_double_field_of(body@, "lon"@) == Some(g.lng_bits)
            && json_str_field_of(body@, "timezone"@) == Some(g.timezone@) && json_str_field_of(
            body@,
            "isp"@,
        ) == Some(g.isp@) && json_str_field_of(body@, "org"@) == Some(g.org@)
            && json_str_field_of(body@, "as"@) == Some(g.as_nn@) && json_bool_field_of(
            body@,
            "mobile"@,
        ) == Some(g.mobile) && json_bool_field_of(body@, "proxy"@) == Some(g.proxy)),
        json_parses(body@) && json_str_field_of(body@, "status"@) == Some("success"@)
            && !payload_complete(body@) ==> (r matches Err(e) && e matches IpApiError::OtherError(m)
            && m@ == unexpected_text("missing or mistyped field in success payload"@, body@)),
        json_parses(body@) && json_str_field_of(body@, "status"@) == Some("fail"@)
            && json_str_field_of(body@, "message"@) == Some("private range"@) ==> r == Err::<GeoIp, IpApiError>(
            IpApiError::PrivateRange,
        ),
        json_parses(body@) && json_str_field_of(body@, "status"@) == Some("fail"@)
            && json_str_field_of(body@, "message"@) == Some("reserved range"@) ==> r == Err::<GeoIp, IpApiError>(
            IpApiError::ReservedRange,
        ),
        json_parses(body@) && json_str_field_of(body@, "status"@) == Some("fail"@)
            && json_str_field_of(body@, "message"@) == Some("invalid query"@) ==> r == Err::<GeoIp, IpApiError>(
            IpApiError::InvalidQuery,
        ),
        json_parses(body@) && json_str_field_of(body@, "status"@) == Some("fail"@)
            && json_str_field_of(body@, "message"@) == Some("quota"@) ==> r == Err::<GeoIp, IpApiError>(
            IpApiError::Quota,
        ),
        (json_parses(body@) && json_str_field_of(body@, "status"@) == Some("fail"@) && (
        match json_str_field_of(body@, "message"@) {
            Some(m) => m != "private range"@ && m != "reserved range"@ && m != "invalid query"@
                && m != "quota"@,
            None => true,
        })) ==> (r matches Err(e) && e matches IpApiError::OtherError(m) && m@ == unexpected_text(
            "unknown error message"@,
            body@,
        )),
        (json_parses(body@) && (match json_str_field_of(body@, "status"@) {
            Some(st) => st != "success"@ && st != "fail"@,
            None => true,
        })) ==> (r matches Err(e) && e matches IpApiError::OtherError(m) && m@ == unexpected_text(
            "unknown error message"@,
            body@,
        )),
{
    proof {
        reveal_strlit("success");
        reveal_strlit("fail");
        assert("success"@.len() == 7);
        assert("fail"@.len() == 4);
    }
    match parse_json(body) {
        Ok(_) => (),
        Err(e) => {
            let detail = json_error_text(&e);
            let err = parse_failure_error(detail.as_str(), body);
            proof {
                assert(err matches IpApiError::OtherError(m) && m@ == parse_failure_text(
                    detail@,
                    body@,
                ));
            }
            return Err(err);
        },
    }
    let status = extract_str_field(body, "status");
    match status {
        Some(s) => {
            if str_eq(s.as_str(), "success") {
                let fields = RawFields {
                    country: extract_str_field(body, "country"),
                    country_code: extract_str_field(body, "countryCode"),
                    region: extract_str_field(body, "region"),
                    region_name: extract_str_field(body, "regionName"),
                    city: extract_str_field(body, "city"),
                    zip: extract_str_field(body, "zip"),
                    lat_bits: extract_double_field(body, "lat"),
                    lng_bits: extract_double_field(body, "lon"),
                    timezone: extract_str_field(body, "timezone"),
                    isp: extract_str_field(body, "isp"),
                    org: extract_str_field(body, "org"),
                    as_nn: extract_str_field(body, "as"),
                    mobile: extract_bool_field(body, "mobile"),
                    proxy: extract_bool_field(body, "proxy"),
                };
                build_record(fields, body)
            } else if str_eq(s.as_str(), "fail") {
                let message = extract_str_field(body, "message");
                let message_ref = match &message {
                    Some(m) => Some(m.as_str()),
                    None => None,
                };
                Err(classify_failure(message_ref, body))
            } else {
                Err(unexpected_json(body, "unknown error message"))
            }
        },
        None => Err(unexpected_json(body, "unknown error message")),
    }
}

} // verus!
