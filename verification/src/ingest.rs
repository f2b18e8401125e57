//! The ingestion pipeline: extracting the first IPv4-shaped substring
//! from a raw log line, building an enriched record from a geolocation
//! response, and driving the multi-table counter update that a finished
//! enrichment causes.
//!
//! The counter rules are the core correctness property of the write
//! path: a never-before-seen address credits one warning (and, if it
//! arrives banned, one ban) to its record and to each dimension it
//! touches, exactly once; a re-observed address increments only its own
//! warning counter, and the dimension rows keep their prior values.
use vstd::prelude::*;

use crate::schema::{IP, ISP, Country, Region, City, Message, GeoResponse, bump, bump64};
use crate::storage::Db;
use crate::text::{is_substr, is_digit_char, str_contains};

verus! {

/// The number of consecutive decimal digits in `s` starting at `i`.
pub open spec fn digit_run(s: Seq<char>, i: int) -> nat
    decreases s.len() - i,
{
    if i < s.len() && is_digit_char(s[i]) {
        (1 + digit_run(s, i + 1)) as nat
    } else {
        0
    }
}

/// At `i` stands a group of one to three digits followed by a dot.
pub open spec fn group_ok(s: Seq<char>, i: int) -> bool {
    let r = digit_run(s, i) as int;
    1 <= r <= 3 && i + r < s.len() && s[i + r] == '.'
}

/// An IPv4-shaped substring starts at `i`: three groups of one to three
/// digits each followed by a dot, then at least one more digit.
pub open spec fn ip_match_at(s: Seq<char>, i: int) -> bool {
    let r1 = digit_run(s, i) as int;
    let p2 = i + r1 + 1;
    let r2 = digit_run(s, p2) as int;
    let p3 = p2 + r2 + 1;
    let r3 = digit_run(s, p3) as int;
    let p4 = p3 + r3 + 1;
    group_ok(s, i) && group_ok(s, p2) && group_ok(s, p3) && digit_run(s, p4) >= 1
}

/// Where the IPv4-shaped substring starting at `i` ends: the final digit
/// group takes at most three digits.
pub open spec fn ip_match_end(s: Seq<char>, i: int) -> int {
    let r1 = digit_run(s, i) as int;
    let p2 = i + r1 + 1;
    let r2 = digit_run(s, p2) as int;
    let p3 = p2 + r2 + 1;
    let r3 = digit_run(s, p3) as int;
    let p4 = p3 + r3 + 1;
    let r4 = digit_run(s, p4) as int;
    p4 + if r4 < 3 {
        r4
    } else {
        3
    }
}

proof fn lemma_digit_run_value(s: Seq<char>, i: int, j: int)
    requires
        0 <= i <= j <= s.len(),
        forall|t: int| i <= t < j ==> is_digit_char(s[t]),
        j == s.len() || !is_digit_char(s[j]),
    ensures
        digit_run(s, i) == j - i,
    decreases j - i,
{
    if i < j {
        lemma_digit_run_value(s, i + 1, j);
    }
}

fn digit_at(s: &str, i: usize) -> (r: bool)
    requires
        i < s@.len(),
    ensures
        r == is_digit_char(s@[i as int]),
{
    let c = s.get_char(i);
    '0' <= c && c <= '9'
}

fn digit_run_len(s: &str, i: usize) -> (r: usize)
    requires
        i <= s@.len(),
    ensures
        r == digit_run(s@, i as int),
        i + r <= s@.len(),
{
    let n = s.unicode_len();
    let mut j: usize = i;
    while j < n && digit_at(s, j)
        invariant
            n == s@.len(),
            i <= j <= n,
            forall|t: int| i <= t < j ==> is_digit_char(s@[t]),
        decreases n - j,
    {
        j = j + 1;
    }
    proof {
        lemma_digit_run_value(s@, i as int, j as int);
    }
    j - i
}

fn ip_match_len(s: &str, i: usize) -> (r: Option<usize>)
    requires
        i <= s@.len(),
    ensures
        match r {
            Some(e) => ip_match_at(s@, i as int) && e == ip_match_end(s@, i as int) && i <= e
                <= s@.len(),
            None => !ip_match_at(s@, i as int),
        },
{
    let n = s.unicode_len();
    let r1 = digit_run_len(s, i);
    if r1 < 1 || r1 > 3 {
        return None;
    }
    let d1 = i + r1;
    if d1 >= n || s.get_char(d1) != '.' {
        return None;
    }
    let p2 = d1 + 1;
    let r2 = digit_run_len(s, p2);
    if r2 < 1 || r2 > 3 {
        return None;
    }
    let d2 = p2 + r2;
    if d2 >= n || s.get_char(d2) != '.' {
        return None;
    }
    let p3 = d2 + 1;
    let r3 = digit_run_len(s, p3);
    if r3 < 1 || r3 > 3 {
        return None;
    }
    let d3 = p3 + r3;
    if d3 >= n || s.get_char(d3) != '.' {
        return None;
    }
    let p4 = d3 + 1;
    let r4 = digit_run_len(s, p4);
    if r4 < 1 {
        return None;
    }
    let l4 = if r4 > 3 {
        3
    } else {
        r4
    };
    Some(p4 + l4)
}

/// Extract the first IPv4-shaped substring of a raw log line, the way
/// the fixed pattern of one-to-three-digit groups separated by dots
/// reads it: the leftmost position where the shape matches wins, and
/// the final group takes at most three digits.  `None` exactly when no
/// position of the line matches, in which case the line is discarded
/// by the pipeline.
pub fn extract_first_ipv4(line: &str) -> (r: Option<String>)
    ensures
        match r {
            Some(ip) => exists|i: int|
                0 <= i < line@.len() && #[trigger] ip_match_at(line@, i) && (forall|j: int|
                    0 <= j < i ==> !ip_match_at(line@, j)) && ip@ == line@.subrange(
                    i,
                    ip_match_end(line@, i),
                ),
            None => forall|i: int| 0 <= i < line@.len() ==> !ip_match_at(line@, i),
        },
{
    let n = line.unicode_len();
    let mut i: usize = 0;
    while i < n
        invariant
            n == line@.len(),
            i <= n,
            forall|j: int| 0 <= j < i ==> !ip_match_at(line@, j),
        decreases n - i,
    {
        match ip_match_len(line, i) {
            Some(e) => {
                let sub = line.substring_char(i, e);
                return Some(String::from_str(sub));
            },
            None => {},
        }
        i = i + 1;
    }
    None
}

/// Build the enriched record for a fresh address from the geolocation
/// response: `Some` exactly when every required field of the response
/// is present; a missing field fails the whole enrichment rather than
/// persisting partial data.  A fresh record starts with one warning,
/// and with one counted ban when it arrives banned.
pub fn build_ip_record(resp: &GeoResponse, is_banned: bool, now: &String) -> (r: Option<IP>)
    ensures
        match r {
            Some(rec) => {
                &&& resp.query matches Some(v) && rec.ip == v
                &&& resp.lat matches Some(v) && rec.lat == v
                &&& resp.lon matches Some(v) && rec.lon == v
                &&& resp.isp matches Some(v) && rec.isp == v
                &&& resp.country matches Some(v) && rec.country == v
                &&& resp.city matches Some(v) && rec.city == v
                &&& resp.countrycode matches Some(v) && rec.countrycode == v
                &&& resp.regionname matches Some(v) && rec.region == v
                &&& rec.created_at == *now
                &&& rec.is_banned == is_banned
                &&& rec.banned_times == (if is_banned {
                    1u64
                } else {
                    0u64
                })
                &&& rec.warnings == 1
            },
            None => !(resp.query is Some && resp.lat is Some && resp.lon is Some && resp.isp
                is Some && resp.country is Some && resp.city is Some && resp.countrycode is Some
                && resp.regionname is Some),
        },
{
    match (
        &resp.query,
        &resp.lat,
        &resp.lon,
        &resp.isp,
        &resp.country,
        &resp.city,
        &resp.countrycode,
        &resp.regionname,
    ) {
        (
            Some(query),
            Some(lat),
            Some(lon),
            Some(isp),
            Some(country),
            Some(city),
            Some(countrycode),
            Some(regionname),
        ) => Some(
            IP {
                ip: query.clone(),
                created_at: now.clone(),
                lat: lat.clone(),
                lon: lon.clone(),
                isp: isp.clone(),
                country: country.clone(),
                countrycode: countrycode.clone(),
                city: city.clone(),
                region: regionname.clone(),
                banned_times: if is_banned {
                    1
                } else {
                    0
                },
                is_banned,
                warnings: 1,
            },
        ),
        _ => None,
    }
}

/// The record `r` with its warning counter replaced by `w`.
pub open spec fn ip_with_warnings(r: IP, w: u64) -> IP {
    IP {
        ip: r.ip,
        created_at: r.created_at,
        lat: r.lat,
        lon: r.lon,
        isp: r.isp,
        country: r.country,
        countrycode: r.countrycode,
        city: r.city,
        region: r.region,
        banned_times: r.banned_times,
        is_banned: r.is_banned,
        warnings: w,
    }
}

/// A dimension update on first sight of a banned-or-not address: one
/// more warning, and one more counted ban when the address arrived
/// banned.
pub open spec fn isp_bumped(r: ISP, b: bool) -> ISP {
    ISP {
        name: r.name,
        banned: if b {
            bump64(r.banned)
        } else {
            r.banned
        },
        warnings: bump64(r.warnings),
    }
}

/// As `isp_bumped`, for a country row.
pub open spec fn country_bumped(r: Country, b: bool) -> Country {
    Country {
        name: r.name,
        code: r.code,
        banned: if b {
            bump64(r.banned)
        } else {
            r.banned
        },
        warnings: bump64(r.warnings),
    }
}

/// As `isp_bumped`, for a region row.
pub open spec fn region_bumped(r: Region, b: bool) -> Region {
    Region {
        name: r.name,
        country: r.country,
        banned: if b {
            bump64(r.banned)
        } else {
            r.banned
        },
        warnings: bump64(r.warnings),
    }
}

/// As `isp_bumped`, for a city row.
pub open spec fn city_bumped(r: City, b: bool) -> City {
    City {
        name: r.name,
        country: r.country,
        region: r.region,
        banned: if b {
            bump64(r.banned)
        } else {
            r.banned
        },
        warnings: bump64(r.warnings),
    }
}

/// The audit entry appended for one processed line: the line is from
/// the journal unless it carries the intrusion-tool marker, and it is a
/// ban event when that marker encloses a ban keyword.
pub open spec fn expected_message(rec: IP, line: String, now: String) -> Message {
    Message {
        created_at: now,
        text: line,
        ip: rec.ip,
        is_jctl: !is_substr(line@, "++++"@),
        is_ban: is_substr(line@, "++++"@) && is_substr(line@, "Ban"@),
    }
}

/// How one finished enrichment changes the store: the whole contract
/// of `Db::process_geo`, as one relation between the store before
/// (`pre`) and after (`post`).
///
/// First sight of the address credits each dimension with one warning
/// (and one ban when the record arrived banned); a re-observed address
/// increments only its own warning counter and leaves every present
/// dimension row unchanged.  A dimension row that is absent is created
/// lazily with one warning either way.  One audit message is appended,
/// and nothing else changes.
pub open spec fn geo_step_ok(pre: Db, post: Db, rec: IP, line: String, now: String) -> bool {
    // the address row itself
    &&& post.has_ip(rec.ip@)
    &&& !pre.has_ip(rec.ip@) ==> post.ip_at(rec.ip@) == rec
    &&& pre.has_ip(rec.ip@) ==> post.ip_at(rec.ip@) == ip_with_warnings(
        rec,
        bump64(pre.ip_at(rec.ip@).warnings),
    )
    &&& forall|k: Seq<char>| k != rec.ip@ ==> post.has_ip(k) == pre.has_ip(k)
    &&& forall|k: Seq<char>| k != rec.ip@ && pre.has_ip(k) ==> post.ip_at(k) == pre.ip_at(k)
    // the ISP dimension
    &&& post.has_isp(rec.isp@)
    &&& !pre.has_isp(rec.isp@) ==> post.isp_at(rec.isp@) == (ISP {
        name: rec.isp,
        banned: if rec.is_banned {
            1
        } else {
            0
        },
        warnings: 1,
    })
    &&& pre.has_isp(rec.isp@) && !pre.has_ip(rec.ip@) ==> post.isp_at(rec.isp@) == isp_bumped(
        pre.isp_at(rec.isp@),
        rec.is_banned,
    )
    &&& pre.has_isp(rec.isp@) && pre.has_ip(rec.ip@) ==> post.isp_at(rec.isp@) == pre.isp_at(
        rec.isp@,
    )
    &&& forall|k: Seq<char>| k != rec.isp@ ==> post.has_isp(k) == pre.has_isp(k)
    &&& forall|k: Seq<char>| k != rec.isp@ && pre.has_isp(k) ==> post.isp_at(k) == pre.isp_at(k)
    // the country dimension
    &&& post.has_country(rec.country@)
    &&& !pre.has_country(rec.country@) ==> post.country_at(rec.country@) == (Country {
        name: rec.country,
        code: rec.countrycode,
        banned: if rec.is_banned {
            1
        } else {
            0
        },
        warnings: 1,
    })
    &&& pre.has_country(rec.country@) && !pre.has_ip(rec.ip@) ==> post.country_at(rec.country@)
        == country_bumped(pre.country_at(rec.country@), rec.is_banned)
    &&& pre.has_country(rec.country@) && pre.has_ip(rec.ip@) ==> post.country_at(rec.country@)
        == pre.country_at(rec.country@)
    &&& forall|k: Seq<char>| k != rec.country@ ==> post.has_country(k) == pre.has_country(k)
    &&& forall|k: Seq<char>|
        k != rec.country@ && pre.has_country(k) ==> post.country_at(k) == pre.country_at(k)
    // the region dimension, scoped by country
    &&& post.has_region(rec.region@, rec.country@)
    &&& !pre.has_region(rec.region@, rec.country@) ==> post.region_at(rec.region@, rec.country@)
        == (Region {
        name: rec.region,
        country: rec.country,
        banned: if rec.is_banned {
            1
        } else {
            0
        },
        warnings: 1,
    })
    &&& pre.has_region(rec.region@, rec.country@) && !pre.has_ip(rec.ip@) ==> post.region_at(
        rec.region@,
        rec.country@,
    ) == region_bumped(pre.region_at(rec.region@, rec.country@), rec.is_banned)
    &&& pre.has_region(rec.region@, rec.country@) && pre.has_ip(rec.ip@) ==> post.region_at(
        rec.region@,
        rec.country@,
    ) == pre.region_at(rec.region@, rec.country@)
    &&& forall|n: Seq<char>, c: Seq<char>|
        !(n == rec.region@ && c == rec.country@) ==> post.has_region(n, c) == pre.has_region(n, c)
    &&& forall|n: Seq<char>, c: Seq<char>|
        !(n == rec.region@ && c == rec.country@) && pre.has_region(n, c) ==> post.region_at(n, c)
            == pre.region_at(n, c)
    // the city dimension, scoped by country and region
    &&& post.has_city(rec.city@, rec.country@, rec.region@)
    &&& !pre.has_city(rec.city@, rec.country@, rec.region@) ==> post.city_at(
        rec.city@,
        rec.country@,
        rec.region@,
    ) == (City {
        name: rec.city,
        country: rec.country,
        region: rec.region,
        banned: if rec.is_banned {
            1
        } else {
            0
        },
        warnings: 1,
    })
    &&& pre.has_city(rec.city@, rec.country@, rec.region@) && !pre.has_ip(rec.ip@)
        ==> post.city_at(rec.city@, rec.country@, rec.region@) == city_bumped(
        pre.city_at(rec.city@, rec.country@, rec.region@),
        rec.is_banned,
    )
    &&& pre.has_city(rec.city@, rec.country@, rec.region@) && pre.has_ip(rec.ip@)
        ==> post.city_at(rec.city@, rec.country@, rec.region@) == pre.city_at(
        rec.city@,
        rec.country@,
        rec.region@,
    )
    &&& forall|n: Seq<char>, c: Seq<char>, rg: Seq<char>|
        !(n == rec.city@ && c == rec.country@ && rg == rec.region@) ==> post.has_city(n, c, rg)
            == pre.has_city(n, c, rg)
    &&& forall|n: Seq<char>, c: Seq<char>, rg: Seq<char>|
        !(n == rec.city@ && c == rec.country@ && rg == rec.region@) && pre.has_city(n, c, rg)
            ==> post.city_at(n, c, rg) == pre.city_at(n, c, rg)
    // the audit log
    &&& post.messages@ == pre.messages@.push(expected_message(rec, line, now))
}

impl Db {
    /// Apply one finished enrichment to the store, on the serialized
    /// dispatch step: upsert each dimension the record touches, upsert
    /// the record itself, and append one audit message.  The whole
    /// effect is pinned down by `geo_step_ok`.
    pub fn process_geo(&mut self, rec: &IP, line: &String, now: &String)
        requires
            old(self).wf(),
        ensures
            final(self).wf(),
            geo_step_ok(*old(self), *final(self), *rec, *line, *now),
    {
        let fresh = !self.contains_ip(&rec.ip);
        let is_intrusion = str_contains(line.as_str(), "++++");
        let is_ban = is_intrusion && str_contains(line.as_str(), "Ban");
        self.append_message(
            Message {
                created_at: now.clone(),
                text: line.clone(),
                ip: rec.ip.clone(),
                is_jctl: !is_intrusion,
                is_ban,
            },
        );
        let ghost s0 = *self;
        match self.get_isp(&rec.isp) {
            None => {
                self.put_isp(
                    ISP {
                        name: rec.isp.clone(),
                        banned: if rec.is_banned {
                            1
                        } else {
                            0
                        },
                        warnings: 1,
                    },
                );
            },
            Some(row) => {
                if fresh {
                    let banned = if rec.is_banned {
                        bump(row.banned)
                    } else {
                        row.banned
                    };
                    self.put_isp(ISP { name: row.name, banned, warnings: bump(row.warnings) });
                }
            },
        }
        let ghost s1 = *self;
        match self.get_country(&rec.country) {
            None => {
                self.put_country(
                    Country {
                        name: rec.country.clone(),
                        code: rec.countrycode.clone(),
                        banned: if rec.is_banned {
                            1
                        } else {
                            0
                        },
                        warnings: 1,
                    },
                );
            },
            Some(row) => {
                if fresh {
                    let banned = if rec.is_banned {
                        bump(row.banned)
                    } else {
                        row.banned
                    };
                    self.put_country(
                        Country { name: row.name, code: row.code, banned, warnings: bump(
                            row.warnings,
                        ) },
                    );
                }
            },
        }
        let ghost s2 = *self;
        match self.get_region(&rec.region, &rec.country) {
            None => {
                self.put_region(
                    Region {
                        name: rec.region.clone(),
                        country: rec.country.clone(),
                        banned: if rec.is_banned {
                            1
                        } else {
                            0
                        },
                        warnings: 1,
                    },
                );
            },
            Some(row) => {
                if fresh {
                    let banned = if rec.is_banned {
                        bump(row.banned)
                    } else {
                        row.banned
                    };
                    self.put_region(
                        Region {
                            name: row.name,
                            country: row.country,
                            banned,
                            warnings: bump(row.warnings),
                        },
                    );
                }
            },
        }
        let ghost s3 = *self;
        match self.get_city(&rec.city, &rec.country, &rec.region) {
            None => {
                self.put_city(
                    City {
                        name: rec.city.clone(),
                        country: rec.country.clone(),
                        region: rec.region.clone(),
                        banned: if rec.is_banned {
                            1
                        } else {
                            0
                        },
                        warnings: 1,
                    },
                );
            },
            Some(row) => {
                if fresh {
                    let banned = if rec.is_banned {
                        bump(row.banned)
                    } else {
                        row.banned
                    };
                    self.put_city(
                        City {
                            name: row.name,
                            country: row.country,
                            region: row.region,
                            banned,
                            warnings: bump(row.warnings),
                        },
                    );
                }
            },
        }
        let ghost s4 = *self;
        proof {
            crate::storage::lemma_ip_frame(*old(self), s4);
        }
        if fresh {
            self.put_ip(rec.clone());
        } else {
            match self.get_ip(&rec.ip) {
                Some(stored) => {
                    let mut updated = rec.clone();
                    updated.warnings = bump(stored.warnings);
                    self.put_ip(updated);
                },
                None => {
                    proof {
                        assert(false);
                    }
                },
            }
        }
        proof {
            crate::storage::lemma_isp_frame(*old(self), s0);
            crate::storage::lemma_isp_frame(s1, *self);
            crate::storage::lemma_country_frame(*old(self), s1);
            crate::storage::lemma_country_frame(s2, *self);
            crate::storage::lemma_region_frame(*old(self), s2);
            crate::storage::lemma_region_frame(s3, *self);
            crate::storage::lemma_city_frame(*old(self), s3);
            crate::storage::lemma_city_frame(s4, *self);
        }
    }
}


/// First sight of an address: after one finished enrichment whose
/// record starts its counters (one warning, and one counted ban
/// exactly when it arrived banned), the address row and each dimension
/// row it touches exist with one warning each, and with one counted
/// ban each when the record arrived banned.
pub proof fn lemma_first_seen_counts(pre: Db, post: Db, rec: IP, line: String, now: String)
    requires
        geo_step_ok(pre, post, rec, line, now),
        !pre.has_ip(rec.ip@),
        !pre.has_isp(rec.isp@),
        !pre.has_country(rec.country@),
        !pre.has_region(rec.region@, rec.country@),
        !pre.has_city(rec.city@, rec.country@, rec.region@),
        rec.warnings == 1,
        rec.banned_times == (if rec.is_banned {
            1u64
        } else {
            0u64
        }),
    ensures
        post.has_ip(rec.ip@) && post.ip_at(rec.ip@).warnings == 1,
        post.has_isp(rec.isp@) && post.isp_at(rec.isp@).warnings == 1,
        post.has_country(rec.country@) && post.country_at(rec.country@).warnings == 1,
        post.has_region(rec.region@, rec.country@) && post.region_at(
            rec.region@,
            rec.country@,
        ).warnings == 1,
        post.has_city(rec.city@, rec.country@, rec.region@) && post.city_at(
            rec.city@,
            rec.country@,
            rec.region@,
        ).warnings == 1,
        post.ip_at(rec.ip@).banned_times == (if rec.is_banned {
            1u64
        } else {
            0u64
        }),
        post.isp_at(rec.isp@).banned == (if rec.is_banned {
            1u64
        } else {
            0u64
        }),
        post.country_at(rec.country@).banned == (if rec.is_banned {
            1u64
        } else {
            0u64
        }),
        post.region_at(rec.region@, rec.country@).banned == (if rec.is_banned {
            1u64
        } else {
            0u64
        }),
        post.city_at(rec.city@, rec.country@, rec.region@).banned == (if rec.is_banned {
            1u64
        } else {
            0u64
        }),
{
}

/// Re-ingesting a line for an already known address increments only
/// that address's own warning counter; every dimension row that was
/// already present keeps exactly its prior value.
pub proof fn lemma_repeat_seen_counts(pre: Db, post: Db, rec: IP, line: String, now: String)
    requires
        geo_step_ok(pre, post, rec, line, now),
        pre.has_ip(rec.ip@),
        pre.ip_at(rec.ip@).warnings < u64::MAX,
    ensures
        post.has_ip(rec.ip@),
        post.ip_at(rec.ip@).warnings == pre.ip_at(rec.ip@).warnings + 1,
        pre.has_isp(rec.isp@) ==> post.isp_at(rec.isp@) == pre.isp_at(rec.isp@),
        pre.has_country(rec.country@) ==> post.country_at(rec.country@) == pre.country_at(
            rec.country@,
        ),
        pre.has_region(rec.region@, rec.country@) ==> post.region_at(rec.region@, rec.country@)
            == pre.region_at(rec.region@, rec.country@),
        pre.has_city(rec.city@, rec.country@, rec.region@) ==> post.city_at(
            rec.city@,
            rec.country@,
            rec.region@,
        ) == pre.city_at(rec.city@, rec.country@, rec.region@),
{
}

} // verus!
