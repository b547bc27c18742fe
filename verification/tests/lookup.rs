use ip_api::{build_url, classify_failure, interpret_response, unexpected_json, GeoIp, IpApiError};
use ip_api::strutil::str_eq;

fn sample_record() -> GeoIp {
    GeoIp {
        country: String::from("United States"),
        country_code: String::from("US"),
        region: String::from("CA"),
        region_name: String::from("California"),
        city: String::from("Mountain View"),
        zip: String::from("94043"),
        lat_bits: (37.386f64).to_bits(),
        lng_bits: (-122.0838f64).to_bits(),
        timezone: String::from("America/Los_Angeles"),
        isp: String::from("Google"),
        org: String::from("Google"),
        as_nn: String::from("AS15169 Google Inc."),
        mobile: false,
        proxy: true,
    }
}

#[test]
fn url_without_target_plain() {
    assert_eq!(build_url(None, false), "http://ip-api.com/json/?fields=258047");
}

#[test]
fn url_without_target_encrypted() {
    assert_eq!(build_url(None, true), "https://ip-api.com/json/?fields=258047");
}

#[test]
fn url_with_target() {
    assert_eq!(
        build_url(Some("www.google.com"), false),
        "http://ip-api.com/json/www.google.com?fields=258047"
    );
}

#[test]
fn url_scheme_selection() {
    assert!(build_url(Some("8.8.8.8"), true).starts_with("https://"));
    assert!(!build_url(Some("8.8.8.8"), false).starts_with("https://"));
    assert!(build_url(Some("8.8.8.8"), false).starts_with("http://"));
}

#[test]
fn success_full_payload() {
    let body = "{\"status\":\"success\",\"country\":\"United States\",\"countryCode\":\"US\",\
        \"region\":\"CA\",\"regionName\":\"California\",\"city\":\"Mountain View\",\
        \"zip\":\"94043\",\"lat\":37.386,\"lon\":-122.0838,\"timezone\":\"America/Los_Angeles\",\
        \"isp\":\"Google\",\"org\":\"Google LLC\",\"as\":\"AS15169 Google Inc.\",\
        \"mobile\":false,\"proxy\":true}";
    let g = interpret_response(body).unwrap();
    assert_eq!(g.country, "United States");
    assert_eq!(g.country_code, "US");
    assert_eq!(g.region, "CA");
    assert_eq!(g.region_name, "California");
    assert_eq!(g.city, "Mountain View");
    assert_eq!(g.zip, "94043");
    assert_eq!(g.lat_bits, (37.386f64).to_bits());
    assert_eq!(g.lng_bits, (-122.0838f64).to_bits());
    assert_eq!(g.timezone, "America/Los_Angeles");
    assert_eq!(g.isp, "Google");
    assert_eq!(g.org, "Google LLC");
    assert_eq!(g.as_nn, "AS15169 Google Inc.");
    assert!(!g.mobile);
    assert!(g.proxy);
    assert!(!g.is_mobile());
    assert!(g.is_proxy());
}

#[test]
fn success_integer_coordinates() {
    let body = "{\"status\":\"success\",\"country\":\"X\",\"countryCode\":\"X\",\
        \"region\":\"X\",\"regionName\":\"X\",\"city\":\"X\",\"zip\":\"X\",\
        \"lat\":52,\"lon\":-3,\"timezone\":\"X\",\"isp\":\"X\",\"org\":\"X\",\
        \"as\":\"X\",\"mobile\":true,\"proxy\":false}";
    let g = interpret_response(body).unwrap();
    assert_eq!(g.lat_bits, (52.0f64).to_bits());
    assert_eq!(g.lng_bits, (-3.0f64).to_bits());
    assert!(g.is_mobile());
    assert!(!g.is_proxy());
}

#[test]
fn empty_strings_are_unknown() {
    let mut g = sample_record();
    g.city = String::new();
    g.zip = String::new();
    assert_eq!(g.city(), None);
    assert_eq!(g.zip(), None);
    assert_eq!(g.country(), Some("United States"));
    assert_eq!(g.country_code(), Some("US"));
    assert_eq!(g.region(), Some("CA"));
    assert_eq!(g.region_name(), Some("California"));
    assert_eq!(g.timezone(), Some("America/Los_Angeles"));
    assert_eq!(g.isp(), Some("Google"));
    assert_eq!(g.org(), Some("Google"));
    assert_eq!(g.as_nn(), Some("AS15169 Google Inc."));
}

#[test]
fn all_string_accessors_honor_emptiness() {
    let mut g = sample_record();
    g.country = String::new();
    g.country_code = String::new();
    g.region = String::new();
    g.region_name = String::new();
    g.timezone = String::new();
    g.isp = String::new();
    g.org = String::new();
    g.as_nn = String::new();
    assert_eq!(g.country(), None);
    assert_eq!(g.country_code(), None);
    assert_eq!(g.region(), None);
    assert_eq!(g.region_name(), None);
    assert_eq!(g.timezone(), None);
    assert_eq!(g.isp(), None);
    assert_eq!(g.org(), None);
    assert_eq!(g.as_nn(), None);
    assert_eq!(g.city(), Some("Mountain View"));
    assert_eq!(g.zip(), Some("94043"));
}

#[test]
fn joint_zero_location_is_unknown() {
    let mut g = sample_record();
    g.lat_bits = (0.0f64).to_bits();
    g.lng_bits = (0.0f64).to_bits();
    assert_eq!(g.location(), None);
    g.lat_bits = (-0.0f64).to_bits();
    assert_eq!(g.location(), None);
}

#[test]
fn single_zero_coordinate_is_kept() {
    let mut g = sample_record();
    g.lat_bits = (0.0f64).to_bits();
    g.lng_bits = (12.5f64).to_bits();
    assert_eq!(g.location(), Some(((0.0f64).to_bits(), (12.5f64).to_bits())));
    let g2 = sample_record();
    assert_eq!(
        g2.location(),
        Some(((37.386f64).to_bits(), (-122.0838f64).to_bits()))
    );
}

#[test]
fn zero_location_through_response() {
    let body = "{\"status\":\"success\",\"country\":\"X\",\"countryCode\":\"X\",\
        \"region\":\"X\",\"regionName\":\"X\",\"city\":\"X\",\"zip\":\"X\",\
        \"lat\":0.0,\"lon\":0.0,\"timezone\":\"X\",\"isp\":\"X\",\"org\":\"X\",\
        \"as\":\"X\",\"mobile\":false,\"proxy\":false}";
    let g = interpret_response(body).unwrap();
    assert_eq!(g.location(), None);
}

#[test]
fn fail_private_range() {
    let body = "{\"status\":\"fail\",\"message\":\"private range\"}";
    assert!(matches!(interpret_response(body), Err(IpApiError::PrivateRange)));
}

#[test]
fn fail_reserved_range() {
    let body = "{\"status\":\"fail\",\"message\":\"reserved range\"}";
    assert!(matches!(interpret_response(body), Err(IpApiError::ReservedRange)));
}

#[test]
fn fail_invalid_query() {
    let body = "{\"status\":\"fail\",\"message\":\"invalid query\"}";
    assert!(matches!(interpret_response(body), Err(IpApiError::InvalidQuery)));
}

#[test]
fn fail_quota() {
    let body = "{\"status\":\"fail\",\"message\":\"quota\"}";
    assert!(matches!(interpret_response(body), Err(IpApiError::Quota)));
}

#[test]
fn fail_unknown_reason_quotes_body() {
    let body = "{\"status\":\"fail\",\"message\":\"bogus reason\"}";
    match interpret_response(body) {
        Err(IpApiError::OtherError(m)) => {
            assert!(m.contains(body));
            assert!(m.contains("unknown error message"));
        },
        other => panic!("expected OtherError, got {:?}", other),
    }
}

#[test]
fn fail_nonstring_message_quotes_body() {
    let body = "{\"status\":\"fail\",\"message\":42}";
    match interpret_response(body) {
        Err(IpApiError::OtherError(m)) => assert!(m.contains(body)),
        other => panic!("expected OtherError, got {:?}", other),
    }
}

#[test]
fn fail_missing_message_quotes_body() {
    let body = "{\"status\":\"fail\"}";
    match interpret_response(body) {
        Err(IpApiError::OtherError(m)) => assert!(m.contains(body)),
        other => panic!("expected OtherError, got {:?}", other),
    }
}

#[test]
fn non_json_body_reports_parse_failure() {
    let body = "definitely not json";
    match interpret_response(body) {
        Err(IpApiError::OtherError(m)) => {
            assert!(m.starts_with("Error interpreting body as json: "));
            assert!(m.contains(body));
        },
        other => panic!("expected OtherError, got {:?}", other),
    }
}

#[test]
fn truncated_body_reports_parse_failure() {
    let body = "{\"status\":\"succ";
    match interpret_response(body) {
        Err(IpApiError::OtherError(m)) => {
            assert!(m.starts_with("Error interpreting body as json: "));
            assert!(m.contains(body));
        },
        other => panic!("expected OtherError, got {:?}", other),
    }
}

#[test]
fn missing_field_in_success_payload() {
    let body = "{\"status\":\"success\",\"country\":\"X\",\"countryCode\":\"X\",\
        \"region\":\"X\",\"regionName\":\"X\",\"city\":\"X\",\"zip\":\"X\",\
        \"lat\":1.0,\"lon\":1.0,\"timezone\":\"X\",\"isp\":\"X\",\"org\":\"X\",\
        \"as\":\"X\",\"mobile\":false}";
    match interpret_response(body) {
        Err(IpApiError::OtherError(m)) => {
            assert!(m.contains("missing or mistyped field"));
            assert!(m.contains(body));
        },
        other => panic!("expected OtherError, got {:?}", other),
    }
}

#[test]
fn mistyped_field_in_success_payload() {
    let body = "{\"status\":\"success\",\"country\":7,\"countryCode\":\"X\",\
        \"region\":\"X\",\"regionName\":\"X\",\"city\":\"X\",\"zip\":\"X\",\
        \"lat\":1.0,\"lon\":1.0,\"timezone\":\"X\",\"isp\":\"X\",\"org\":\"X\",\
        \"as\":\"X\",\"mobile\":false,\"proxy\":false}";
    assert!(matches!(interpret_response(body), Err(IpApiError::OtherError(_))));
}

#[test]
fn unknown_status_quotes_body() {
    let body = "{\"status\":\"pending\"}";
    match interpret_response(body) {
        Err(IpApiError::OtherError(m)) => assert!(m.contains(body)),
        other => panic!("expected OtherError, got {:?}", other),
    }
}

#[test]
fn missing_status_quotes_body() {
    let body = "{\"note\":\"no status here\"}";
    match interpret_response(body) {
        Err(IpApiError::OtherError(m)) => assert!(m.contains(body)),
        other => panic!("expected OtherError, got {:?}", other),
    }
}

#[test]
fn nonstring_status_quotes_body() {
    let body = "{\"status\":1}";
    assert!(matches!(interpret_response(body), Err(IpApiError::OtherError(_))));
}

#[test]
fn classify_failure_direct() {
    assert!(matches!(
        classify_failure(Some("private range"), "b"),
        IpApiError::PrivateRange
    ));
    assert!(matches!(
        classify_failure(Some("reserved range"), "b"),
        IpApiError::ReservedRange
    ));
    assert!(matches!(
        classify_failure(Some("invalid query"), "b"),
        IpApiError::InvalidQuery
    ));
    assert!(matches!(classify_failure(Some("quota"), "b"), IpApiError::Quota));
    assert!(matches!(
        classify_failure(Some("something else"), "b"),
        IpApiError::OtherError(_)
    ));
    assert!(matches!(classify_failure(None, "b"), IpApiError::OtherError(_)));
}

#[test]
fn unexpected_json_exact_text() {
    match unexpected_json("the body", "the reason") {
        IpApiError::OtherError(m) => {
            assert_eq!(m, "Unexpected response: the reason; body is: the body");
        },
        other => panic!("expected OtherError, got {:?}", other),
    }
}

#[test]
fn error_descriptions() {
    assert_eq!(
        IpApiError::PrivateRange.description(),
        "The IP address is part of a private range"
    );
    assert_eq!(
        IpApiError::ReservedRange.description(),
        "The IP address is part of a reserved range"
    );
    assert_eq!(IpApiError::InvalidQuery.description(), "Invalid IP address or domain name");
    assert_eq!(IpApiError::Quota.description(), "Quota exceeded, go unban yourself");
    assert_eq!(
        IpApiError::OtherError(String::from("detail")).description(),
        "Some other error has occurred"
    );
}

#[test]
fn error_display_text() {
    assert_eq!(
        IpApiError::InvalidQuery.display_text(),
        "Error: Invalid IP address or domain name"
    );
}

#[test]
fn str_eq_behaves_like_equality() {
    assert!(str_eq("", ""));
    assert!(str_eq("abc", "abc"));
    assert!(!str_eq("abc", "abd"));
    assert!(!str_eq("abc", "abcd"));
    assert!(str_eq("naïve", "naïve"));
    assert!(!str_eq("naïve", "naive"));
}
