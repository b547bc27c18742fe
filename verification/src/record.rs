use vstd::prelude::*;
use crate::error::{IpApiError, unexpected_json, unexpected_text};

verus! {

/// The IEEE 754 double bit pattern of negative zero.
pub const NEG_ZERO_BITS: u64 = 0x8000_0000_0000_0000;

/// Whether a coordinate's bit pattern compares equal to 0.0 — positive or
/// negative zero.
pub open spec fn is_zero_bits(bits: u64) -> bool {
    bits == 0u64 || bits == NEG_ZERO_BITS
}

/// Information about an IP address, as the service reported it.
///
/// String fields hold exactly what the payload carried — an empty string is
/// the service's way of saying "unknown", and the accessors translate it to
/// `None`. The coordinates are held as IEEE 754 double bit patterns so the
/// record can be inspected without floating-point arithmetic; [`GeoIp::location`]
/// applies the rule that the joint pair (0.0, 0.0) means "no location".
#[derive(Debug)]
pub struct GeoIp {
    /// The country. (e.g. "United States")
    pub country: String,
    /// The country code. (e.g. "US")
    pub country_code: String,
    /// The region. (e.g. "CA" or "10")
    pub region: String,
    /// The region name. (e.g. "California")
    pub region_name: String,
    /// The city. (e.g. "Mountain View")
    pub city: String,
    /// The zip code. (e.g. "94043")
    pub zip: String,
    /// The latitude, as the bit pattern of an IEEE 754 double.
    pub lat_bits: u64,
    /// The longitude, as the bit pattern of an IEEE 754 double.
    pub lng_bits: u64,
    /// The timezone. (e.g. "America/Los_Angeles")
    pub timezone: String,
    /// The internet service provider. (e.g. "Google")
    pub isp: String,
    /// The organization. (e.g. "Google")
    pub org: String,
    /// The autonomous system number and name. (e.g. "AS15169 Google Inc.")
    pub as_nn: String,
    /// Whether the IP is a cellular connection.
    pub mobile: bool,
    /// Whether the IP is a known proxy.
    pub proxy: bool,
}

/// An empty string stands for an unknown value: `Some` of the text exactly
/// where it is non-empty.
fn nonempty(s: &String) -> (r: Option<&str>)
    ensures
        r matches Some(t) ==> t@ == s@ && s@.len() > 0,
        r is None <==> s@.len() == 0,
{
    if s.as_str().is_empty() {
        None
    } else {
        Some(s.as_str())
    }
}

impl GeoIp {
    /// The country, or `None` where the service left it empty.
    pub fn country(&self) -> (r: Option<&str>)
        ensures
            r matches Some(t) ==> t@ == self.country@ && self.country@.len() > 0,
            r is None <==> self.country@.len() == 0,
    {
        nonempty(&self.country)
    }

    /// The country code, or `None` where the service left it empty.
    pub fn country_code(&self) -> (r: Option<&str>)
        ensures
            r matches Some(t) ==> t@ == self.country_code@ && self.country_code@.len() > 0,
            r is None <==> self.country_code@.len() == 0,
    {
        nonempty(&self.country_code)
    }

    /// The region, or `None` where the service left it empty.
    pub fn region(&self) -> (r: Option<&str>)
        ensures
            r matches Some(t) ==> t@ == self.region@ && self.region@.len() > 0,
            r is None <==> self.region@.len() == 0,
    {
        nonempty(&self.region)
    }

    /// The region name, or `None` where the service left it empty.
    pub fn region_name(&self) -> (r: Option<&str>)
        ensures
            r matches Some(t) ==> t@ == self.region_name@ && self.region_name@.len() > 0,
            r is None <==> self.region_name@.len() == 0,
    {
        nonempty(&self.region_name)
    }

    /// The city, or `None` where the service left it empty.
    pub fn city(&self) -> (r: Option<&str>)
        ensures
            r matches Some(t) ==> t@ == self.city@ && self.city@.len() > 0,
            r is None <==> self.city@.len() == 0,
    {
        nonempty(&self.city)
    }

    /// The zip code, or `None` where the service left it empty.
    pub fn zip(&self) -> (r: Option<&str>)
        ensures
            r matches Some(t) ==> t@ == self.zip@ && self.zip@.len() > 0,
            r is None <==> self.zip@.len() == 0,
    {
        nonempty(&self.zip)
    }

    /// The timezone, or `None` where the service left it empty.
    pub fn timezone(&self) -> (r: Option<&str>)
        ensures
            r matches Some(t) ==> t@ == self.timezone@ && self.timezone@.len() > 0,
            r is None <==> self.timezone@.len() == 0,
    {
        nonempty(&self.timezone)
    }

    /// The internet service provider, or `None` where the service left it
    /// empty.
    pub fn isp(&self) -> (r: Option<&str>)
        ensures
            r matches Some(t) ==> t@ == self.isp@ && self.isp@.len() > 0,
            r is None <==> self.isp@.len() == 0,
    {
        nonempty(&self.isp)
    }

    /// The organization, or `None` where the service left it empty.
    pub fn org(&self) -> (r: Option<&str>)
        ensures
            r matches Some(t) ==> t@ == self.org@ && self.org@.len() > 0,
            r is None <==> self.org@.len() == 0,
    {
        nonempty(&self.org)
    }

    /// The autonomous system number and name, or `None` where the service
    /// left it empty.
    pub fn as_nn(&self) -> (r: Option<&str>)
        ensures
            r matches Some(t) ==> t@ == self.as_nn@ && self.as_nn@.len() > 0,
            r is None <==> self.as_nn@.len() == 0,
    {
        nonempty(&self.as_nn)
    }

    /// The latitude/longitude pair as IEEE 754 double bit patterns, or
    /// `None` where both coordinates equal 0.0 — the service reports the
    /// joint zero pair when it has no location, and this client deliberately
    /// reads it so rather than as a point in the Gulf of Guinea.
    pub fn location(&self) -> (r: Option<(u64, u64)>)
        ensures
            r is None <==> is_zero_bits(self.lat_bits) && is_zero_bits(self.lng_bits),
            r matches Some(p) ==> p.0 == self.lat_bits && p.1 == self.lng_bits,
    {
        let lat_zero = self.lat_bits == 0 || self.lat_bits == NEG_ZERO_BITS;
        let lng_zero = self.lng_bits == 0 || self.lng_bits == NEG_ZERO_BITS;
        if lat_zero && lng_zero {
            None
        } else {
            Some((self.lat_bits, self.lng_bits))
        }
    }

    /// Whether the IP is a cellular connection.
    pub fn is_mobile(&self) -> (r: bool)
        ensures
            r == self.mobile,
    {
        self.mobile
    }

    /// Whether the IP is a known proxy.
    pub fn is_proxy(&self) -> (r: bool)
        ensures
            r == self.proxy,
    {
        self.proxy
    }
}

/// The fourteen fields of a success payload as they were found in the JSON
/// object: `None` where a field is missing or has the wrong type.
pub struct RawFields {
    pub country: Option<String>,
    pub country_code: Option<String>,
    pub region: Option<String>,
    pub region_name: Option<String>,
    pub city: Option<String>,
    pub zip: Option<String>,
    pub lat_bits: Option<u64>,
    pub lng_bits: Option<u64>,
    pub timezone: Option<String>,
    pub isp: Option<String>,
    pub org: Option<String>,
    pub as_nn: Option<String>,
    pub mobile: Option<bool>,
    pub proxy: Option<bool>,
}

/// All fourteen fields of the payload were present and well-typed.
pub open spec fn complete(f: RawFields) -> bool {
    &&& f.country is Some
    &&& f.country_code is Some
    &&& f.region is Some
    &&& f.region_name is Some
    &&& f.city is Some
    &&& f.zip is Some
    &&& f.lat_bits is Some
    &&& f.lng_bits is Some
    &&& f.timezone is Some
    &&& f.isp is Some
    &&& f.org is Some
    &&& f.as_nn is Some
    &&& f.mobile is Some
    &&& f.proxy is Some
}

/// The error for a success envelope whose payload cannot be read as the full
/// record.
fn deser_error(body: &str) -> (r: IpApiError)
    ensures
        r matches IpApiError::OtherError(m) && m@ == unexpected_text(
            "missing or mistyped field in success payload"@,
            body@,
        ),
{
    unexpected_json(body, "missing or mistyped field in success payload")
}

/// Assemble the typed record from the extracted fields. A complete extraction
/// gives exactly the record made of those values; a missing or mistyped field
/// gives the catch-all error quoting the raw body.
pub fn build_record(f: RawFields, body: &str) -> (r: Result<GeoIp, IpApiError>)
    ensures
        complete(f) ==> (r matches Ok(g) && f.country == Some(g.country) && f.country_code
            == Some(g.country_code) && f.region == Some(g.region) && f.region_name == Some(
            g.region_name,
        ) && f.city == Some(g.city) && f.zip == Some(g.zip) && f.lat_bits == Some(g.lat_bits)
            && f.lng_bits == Some(g.lng_bits) && f.timezone == Some(g.timezone) && f.isp == Some(
            g.isp,
        ) && f.org == Some(g.org) && f.as_nn == Some(g.as_nn) && f.mobile == Some(g.mobile)
            && f.proxy == Some(g.proxy)),
        !complete(f) ==> (r matches Err(e) && e matches IpApiError::OtherError(m) && m@
            == unexpected_text("missing or mistyped field in success payload"@, body@)),
{
    let RawFields {
        country,
        country_code,
        region,
        region_name,
        city,
        zip,
        lat_bits,
        lng_bits,
        timezone,
        isp,
        org,
        as_nn,
        mobile,
        proxy,
    } = f;
    let country = match country {
        Some(x) => x,
        None => { return Err(deser_error(body)); },
    };
    let country_code = match country_code {
        Some(x) => x,
        None => { return Err(deser_error(body)); },
    };
    let region = match region {
        Some(x) => x,
        None => { return Err(deser_error(body)); },
    };
    let region_name = match region_name {
        Some(x) => x,
        None => { return Err(deser_error(body)); },
    };
    let city = match city {
        Some(x) => x,
        None => { return Err(deser_error(body)); },
    };
    let zip = match zip {
        Some(x) => x,
        None => { return Err(deser_error(body)); },
    };
    let lat_bits = match lat_bits {
        Some(x) => x,
        None => { return Err(deser_error(body)); },
    };
    let lng_bits = match lng_bits {
        Some(x) => x,
        None => { return Err(deser_error(body)); },
    };
    let timezone = match timezone {
        Some(x) => x,
        None => { return Err(deser_error(body)); },
    };
    let isp = match isp {
        Some(x) => x,
        None => { return Err(deser_error(body)); },
    };
    let org = match org {
        Some(x) => x,
        None => { return Err(deser_error(body)); },
    };
    let as_nn = match as_nn {
        Some(x) => x,
        None => { return Err(deser_error(body)); },
    };
    let mobile = match mobile {
        Some(x) => x,
        None => { return Err(deser_error(body)); },
    };
    let proxy = match proxy {
        Some(x) => x,
        None => { return Err(deser_error(body)); },
    };
    Ok(
        GeoIp {
            country,
            country_code,
            region,
            region_name,
            city,
            zip,
            lat_bits,
            lng_bits,
            timezone,
            isp,
            org,
            as_nn,
            mobile,
            proxy,
        },
    )
}

} // verus!
