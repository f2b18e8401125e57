//! Entity rows of the threat history: one record per observed IPv4
//! address, and one dimension row per ISP, country, region and city,
//! each carrying monotonically non-decreasing `banned` / `warnings`
//! counters, plus the append-only message log.
use vstd::prelude::*;

verus! {

/// A geolocation-enriched record for one observed IPv4 address.
#[derive(Debug, PartialEq, Eq)]
pub struct IP {
    pub ip: String,
    pub created_at: String,
    pub lat: String,
    pub lon: String,
    pub isp: String,
    pub country: String,
    pub countrycode: String,
    pub city: String,
    pub region: String,
    pub banned_times: u64,
    pub is_banned: bool,
    pub warnings: u64,
}

/// A dimension row for one internet service provider, keyed by name.
#[derive(Debug, PartialEq, Eq)]
pub struct ISP {
    pub name: String,
    pub banned: u64,
    pub warnings: u64,
}

/// A dimension row for one country, keyed by name.
#[derive(Debug, PartialEq, Eq)]
pub struct Country {
    pub name: String,
    pub code: String,
    pub banned: u64,
    pub warnings: u64,
}

/// A dimension row for one region; its identity is the pair of its own
/// name and the name of the country it lies in.
#[derive(Debug, PartialEq, Eq)]
pub struct Region {
    pub name: String,
    pub country: String,
    pub banned: u64,
    pub warnings: u64,
}

/// A dimension row for one city; its identity is the triple of its own
/// name, its region's name and its country's name.
#[derive(Debug, PartialEq, Eq)]
pub struct City {
    pub name: String,
    pub country: String,
    pub region: String,
    pub banned: u64,
    pub warnings: u64,
}

/// One entry of the append-only audit log: the raw line, the address it
/// mentioned, and how the line was classified.
#[derive(Debug, PartialEq, Eq)]
pub struct Message {
    pub created_at: String,
    pub text: String,
    pub ip: String,
    pub is_jctl: bool,
    pub is_ban: bool,
}

/// A shortened message used by the aggregated statistics views.
#[derive(Debug, PartialEq, Eq)]
pub struct MiniMessage {
    pub created_at: String,
    pub text: String,
}

/// The fields of one geolocation service response, as plain values; a
/// field the service did not supply is `None`, and any missing field
/// makes the whole enrichment fail.
#[derive(Debug, PartialEq, Eq)]
pub struct GeoResponse {
    pub query: Option<String>,
    pub lat: Option<String>,
    pub lon: Option<String>,
    pub isp: Option<String>,
    pub country: Option<String>,
    pub city: Option<String>,
    pub countrycode: Option<String>,
    pub regionname: Option<String>,
}

impl Clone for IP {
    fn clone(&self) -> (r: Self)
        ensures
            r == *self,
    {
        IP {
            ip: self.ip.clone(),
            created_at: self.created_at.clone(),
            lat: self.lat.clone(),
            lon: self.lon.clone(),
            isp: self.isp.clone(),
            country: self.country.clone(),
            countrycode: self.countrycode.clone(),
            city: self.city.clone(),
            region: self.region.clone(),
            banned_times: self.banned_times,
            is_banned: self.is_banned,
            warnings: self.warnings,
        }
    }
}

impl Clone for ISP {
    fn clone(&self) -> (r: Self)
        ensures
            r == *self,
    {
        ISP { name: self.name.clone(), banned: self.banned, warnings: self.warnings }
    }
}

impl Clone for Country {
    fn clone(&self) -> (r: Self)
        ensures
            r == *self,
    {
        Country {
            name: self.name.clone(),
            code: self.code.clone(),
            banned: self.banned,
            warnings: self.warnings,
        }
    }
}

impl Clone for Region {
    fn clone(&self) -> (r: Self)
        ensures
            r == *self,
    {
        Region {
            name: self.name.clone(),
            country: self.country.clone(),
            banned: self.banned,
            warnings: self.warnings,
        }
    }
}

impl Clone for City {
    fn clone(&self) -> (r: Self)
        ensures
            r == *self,
    {
        City {
            name: self.name.clone(),
            country: self.country.clone(),
            region: self.region.clone(),
            banned: self.banned,
            warnings: self.warnings,
        }
    }
}

impl Clone for Message {
    fn clone(&self) -> (r: Self)
        ensures
            r == *self,
    {
        Message {
            created_at: self.created_at.clone(),
            text: self.text.clone(),
            ip: self.ip.clone(),
            is_jctl: self.is_jctl,
            is_ban: self.is_ban,
        }
    }
}

impl Clone for MiniMessage {
    fn clone(&self) -> (r: Self)
        ensures
            r == *self,
    {
        MiniMessage { created_at: self.created_at.clone(), text: self.text.clone() }
    }
}

/// A counter update that can never decrease and never panics: one more
/// than `c`, capped at the largest representable value.
pub open spec fn bump64(c: u64) -> u64 {
    if c < u64::MAX {
        (c + 1) as u64
    } else {
        c
    }
}

/// Increment a counter, saturating at the largest representable value.
pub fn bump(c: u64) -> (r: u64)
    ensures
        r == bump64(c),
{
    if c < u64::MAX {
        c + 1
    } else {
        c
    }
}

} // verus!
