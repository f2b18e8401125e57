//! The storage layer: one in-memory table per entity kind, each keyed by
//! a natural string key (a pair or triple of names for regions and
//! cities), plus the append-only message log.
//!
//! Rows are inserted or replaced in place and never deleted by normal
//! operation; only the administrative reset empties the tables.  Every
//! write goes through the single dispatch step, so the store never sees
//! two concurrent writers.
use vstd::prelude::*;
use vstd::pervasive::VecAdditionalExecFns;

use crate::schema::{IP, ISP, Country, Region, City, Message};

verus! {

/// The single local store: six tables, keys unique per table.
pub struct Db {
    pub ips: Vec<IP>,
    pub isps: Vec<ISP>,
    pub countries: Vec<Country>,
    pub regions: Vec<Region>,
    pub cities: Vec<City>,
    pub messages: Vec<Message>,
}

impl Db {
    /// Each IP row is the only one for its address.
    pub open spec fn ips_unique(self) -> bool {
        forall|i: int, j: int|
            0 <= i < j < self.ips@.len() ==> self.ips@[i].ip@ != self.ips@[j].ip@
    }

    /// Each ISP row is the only one for its name.
    pub open spec fn isps_unique(self) -> bool {
        forall|i: int, j: int|
            0 <= i < j < self.isps@.len() ==> self.isps@[i].name@ != self.isps@[j].name@
    }

    /// Each country row is the only one for its name.
    pub open spec fn countries_unique(self) -> bool {
        forall|i: int, j: int|
            0 <= i < j < self.countries@.len() ==> self.countries@[i].name@
                != self.countries@[j].name@
    }

    /// Each region row is the only one for its (name, country) pair.
    pub open spec fn regions_unique(self) -> bool {
        forall|i: int, j: int|
            0 <= i < j < self.regions@.len() ==> !(self.regions@[i].name@
                == self.regions@[j].name@ && self.regions@[i].country@
                == self.regions@[j].country@)
    }

    /// Each city row is the only one for its (name, country, region) triple.
    pub open spec fn cities_unique(self) -> bool {
        forall|i: int, j: int|
            0 <= i < j < self.cities@.len() ==> !(self.cities@[i].name@ == self.cities@[j].name@
                && self.cities@[i].country@ == self.cities@[j].country@ && self.cities@[i].region@
                == self.cities@[j].region@)
    }

    /// Well-formedness of the store: no table holds two rows with one key.
    pub open spec fn wf(self) -> bool {
        self.ips_unique() && self.isps_unique() && self.countries_unique()
            && self.regions_unique() && self.cities_unique()
    }

    /// All entity tables and the message log are empty.
    pub open spec fn is_empty(self) -> bool {
        self.ips@.len() == 0 && self.isps@.len() == 0 && self.countries@.len() == 0
            && self.regions@.len() == 0 && self.cities@.len() == 0 && self.messages@.len() == 0
    }

    /// Some IP row carries the address `k`.
    pub open spec fn has_ip(self, k: Seq<char>) -> bool {
        exists|i: int| 0 <= i < self.ips@.len() && self.ips@[i].ip@ == k
    }

    /// The IP row for address `k` (meaningful when `has_ip(k)`).
    pub open spec fn ip_at(self, k: Seq<char>) -> IP {
        self.ips@[choose|i: int| 0 <= i < self.ips@.len() && self.ips@[i].ip@ == k]
    }

    /// Some ISP row carries the name `k`.
    pub open spec fn has_isp(self, k: Seq<char>) -> bool {
        exists|i: int| 0 <= i < self.isps@.len() && self.isps@[i].name@ == k
    }

    /// The ISP row named `k` (meaningful when `has_isp(k)`).
    pub open spec fn isp_at(self, k: Seq<char>) -> ISP {
        self.isps@[choose|i: int| 0 <= i < self.isps@.len() && self.isps@[i].name@ == k]
    }

    /// Some country row carries the name `k`.
    pub open spec fn has_country(self, k: Seq<char>) -> bool {
        exists|i: int| 0 <= i < self.countries@.len() && self.countries@[i].name@ == k
    }

    /// The country row named `k` (meaningful when `has_country(k)`).
    pub open spec fn country_at(self, k: Seq<char>) -> Country {
        self.countries@[choose|i: int|
            0 <= i < self.countries@.len() && self.countries@[i].name@ == k]
    }

    /// Some region row carries the name `n` scoped by country `c`.
    pub open spec fn has_region(self, n: Seq<char>, c: Seq<char>) -> bool {
        exists|i: int|
            0 <= i < self.regions@.len() && self.regions@[i].name@ == n && self.regions@[i].country@
                == c
    }

    /// The region row named `n` in country `c` (meaningful when present).
    pub open spec fn region_at(self, n: Seq<char>, c: Seq<char>) -> Region {
        self.regions@[choose|i: int|
            0 <= i < self.regions@.len() && self.regions@[i].name@ == n
                && self.regions@[i].country@ == c]
    }

    /// Some city row carries the name `n` scoped by country `c` and region `rg`.
    pub open spec fn has_city(self, n: Seq<char>, c: Seq<char>, rg: Seq<char>) -> bool {
        exists|i: int|
            0 <= i < self.cities@.len() && self.cities@[i].name@ == n && self.cities@[i].country@
                == c && self.cities@[i].region@ == rg
    }

    /// The city row named `n` in country `c` and region `rg`.
    pub open spec fn city_at(self, n: Seq<char>, c: Seq<char>, rg: Seq<char>) -> City {
        self.cities@[choose|i: int|
            0 <= i < self.cities@.len() && self.cities@[i].name@ == n && self.cities@[i].country@
                == c && self.cities@[i].region@ == rg]
    }

    /// A fresh store with every table empty; safe to call against no
    /// pre-existing state, and the administrative reset restores it.
    pub fn new() -> (r: Db)
        ensures
            r.wf(),
            r.is_empty(),
    {
        Db {
            ips: Vec::new(),
            isps: Vec::new(),
            countries: Vec::new(),
            regions: Vec::new(),
            cities: Vec::new(),
            messages: Vec::new(),
        }
    }

    fn find_ip_index(&self, k: &String) -> (r: Option<usize>)
        ensures
            match r {
                Some(i) => i < self.ips@.len() && self.ips@[i as int].ip@ == k@,
                None => !self.has_ip(k@),
            },
    {
        let mut i: usize = 0;
        while i < self.ips.len()
            invariant
                i <= self.ips@.len(),
                forall|j: int| 0 <= j < i ==> self.ips@[j].ip@ != k@,
            decreases self.ips@.len() - i,
        {
            if self.ips[i].ip == *k {
                return Some(i);
            }
            i = i + 1;
        }
        None
    }

    /// Whether an IP row for address `k` is already stored.
    pub fn contains_ip(&self, k: &String) -> (r: bool)
        ensures
            r == self.has_ip(k@),
    {
        self.find_ip_index(k).is_some()
    }

    /// Look an address up; `None` exactly when no row carries it.
    pub fn get_ip(&self, k: &String) -> (r: Option<IP>)
        requires
            self.wf(),
        ensures
            match r {
                Some(row) => self.has_ip(k@) && row == self.ip_at(k@),
                None => !self.has_ip(k@),
            },
    {
        match self.find_ip_index(k) {
            Some(i) => Some(self.ips[i].clone()),
            None => None,
        }
    }

    /// Insert the row, or replace the row that carries the same address.
    /// Every other row, and every other table, is left as it was.
    pub fn put_ip(&mut self, row: IP)
        requires
            old(self).wf(),
        ensures
            final(self).wf(),
            final(self).has_ip(row.ip@),
            final(self).ip_at(row.ip@) == row,
            forall|k: Seq<char>|
                k != row.ip@ ==> final(self).has_ip(k) == old(self).has_ip(k),
            forall|k: Seq<char>|
                k != row.ip@ && old(self).has_ip(k) ==> final(self).ip_at(k) == old(self).ip_at(k),
            final(self).isps@ == old(self).isps@,
            final(self).countries@ == old(self).countries@,
            final(self).regions@ == old(self).regions@,
            final(self).cities@ == old(self).cities@,
            final(self).messages@ == old(self).messages@,
    {
        let ghost k = row.ip@;
        match self.find_ip_index(&row.ip) {
            Some(i) => {
                self.ips.set(i, row);
                proof {
                    assert(self.ips@[i as int].ip@ == k);
                    assert forall|a: int, b: int|
                        0 <= a < b < self.ips@.len() implies self.ips@[a].ip@
                        != self.ips@[b].ip@ by {
                        assert(old(self).ips@[a].ip@ != old(self).ips@[b].ip@);
                    };
                }
            },
            None => {
                self.ips.push(row);
                proof {
                    let n = self.ips@.len() - 1;
                    assert(self.ips@[n].ip@ == k);
                    assert forall|a: int, b: int|
                        0 <= a < b < self.ips@.len() implies self.ips@[a].ip@
                        != self.ips@[b].ip@ by {
                        if b < n {
                            assert(old(self).ips@[a].ip@ != old(self).ips@[b].ip@);
                        } else {
                            assert(!old(self).has_ip(self.ips@[a].ip@) || old(self).ips@[a].ip@
                                != k);
                        }
                    };
                }
            },
        }
        proof {
            let j = choose|j: int| 0 <= j < self.ips@.len() && self.ips@[j].ip@ == k;
            assert(self.ip_at(k) == self.ips@[j]);
            assert forall|k2: Seq<char>|
                k2 != k implies self.has_ip(k2) == old(self).has_ip(k2) by {
                if old(self).has_ip(k2) {
                    let a = choose|a: int|
                        0 <= a < old(self).ips@.len() && old(self).ips@[a].ip@ == k2;
                    assert(self.ips@[a].ip@ == k2);
                }
                if self.has_ip(k2) {
                    let a = choose|a: int| 0 <= a < self.ips@.len() && self.ips@[a].ip@ == k2;
                    assert(old(self).ips@[a].ip@ == k2);
                }
            };
            assert forall|k2: Seq<char>|
                k2 != k && old(self).has_ip(k2) implies self.ip_at(k2) == old(self).ip_at(
                k2,
            ) by {
                let a = choose|a: int| 0 <= a < self.ips@.len() && self.ips@[a].ip@ == k2;
                let b = choose|b: int| 0 <= b < old(self).ips@.len() && old(self).ips@[b].ip@ == k2;
                assert(self.ips@[b].ip@ == k2);
                assert(a == b);
            };
        }
    }

    fn find_isp_index(&self, k: &String) -> (r: Option<usize>)
        ensures
            match r {
                Some(i) => i < self.isps@.len() && self.isps@[i as int].name@ == k@,
                None => !self.has_isp(k@),
            },
    {
        let mut i: usize = 0;
        while i < self.isps.len()
            invariant
                i <= self.isps@.len(),
                forall|j: int| 0 <= j < i ==> self.isps@[j].name@ != k@,
            decreases self.isps@.len() - i,
        {
            if self.isps[i].name == *k {
                return Some(i);
            }
            i = i + 1;
        }
        None
    }

    /// Look an ISP up by name; `None` exactly when no row carries it.
    pub fn get_isp(&self, k: &String) -> (r: Option<ISP>)
        requires
            self.wf(),
        ensures
            match r {
                Some(row) => self.has_isp(k@) && row == self.isp_at(k@),
                None => !self.has_isp(k@),
            },
    {
        match self.find_isp_index(k) {
            Some(i) => Some(self.isps[i].clone()),
            None => None,
        }
    }

    /// Insert the row, or replace the row with the same name.
    pub fn put_isp(&mut self, row: ISP)
        requires
            old(self).wf(),
        ensures
            final(self).wf(),
            final(self).has_isp(row.name@),
            final(self).isp_at(row.name@) == row,
            forall|k: Seq<char>|
                k != row.name@ ==> final(self).has_isp(k) == old(self).has_isp(k),
            forall|k: Seq<char>|
                k != row.name@ && old(self).has_isp(k) ==> final(self).isp_at(k) == old(self).isp_at(k),
            final(self).ips@ == old(self).ips@,
            final(self).countries@ == old(self).countries@,
            final(self).regions@ == old(self).regions@,
            final(self).cities@ == old(self).cities@,
            final(self).messages@ == old(self).messages@,
    {
        let ghost k = row.name@;
        match self.find_isp_index(&row.name) {
            Some(i) => {
                self.isps.set(i, row);
                proof {
                    assert(self.isps@[i as int].name@ == k);
                    assert forall|a: int, b: int|
                        0 <= a < b < self.isps@.len() implies self.isps@[a].name@
                        != self.isps@[b].name@ by {
                        assert(old(self).isps@[a].name@ != old(self).isps@[b].name@);
                    };
                }
            },
            None => {
                self.isps.push(row);
                proof {
                    let n = self.isps@.len() - 1;
                    assert(self.isps@[n].name@ == k);
                    assert forall|a: int, b: int|
                        0 <= a < b < self.isps@.len() implies self.isps@[a].name@
                        != self.isps@[b].name@ by {
                        if b < n {
                            assert(old(self).isps@[a].name@ != old(self).isps@[b].name@);
                        } else {
                            assert(!old(self).has_isp(self.isps@[a].name@) || old(
                                self,
                            ).isps@[a].name@ != k);
                        }
                    };
                }
            },
        }
        proof {
            let j = choose|j: int| 0 <= j < self.isps@.len() && self.isps@[j].name@ == k;
            assert(self.isp_at(k) == self.isps@[j]);
            assert forall|k2: Seq<char>|
                k2 != k implies self.has_isp(k2) == old(self).has_isp(k2) by {
                if old(self).has_isp(k2) {
                    let a = choose|a: int|
                        0 <= a < old(self).isps@.len() && old(self).isps@[a].name@ == k2;
                    assert(self.isps@[a].name@ == k2);
                }
                if self.has_isp(k2) {
                    let a = choose|a: int| 0 <= a < self.isps@.len() && self.isps@[a].name@ == k2;
                    assert(old(self).isps@[a].name@ == k2);
                }
            };
            assert forall|k2: Seq<char>|
                k2 != k && old(self).has_isp(k2) implies self.isp_at(k2) == old(self).isp_at(
                k2,
            ) by {
                let a = choose|a: int| 0 <= a < self.isps@.len() && self.isps@[a].name@ == k2;
                let b = choose|b: int|
                    0 <= b < old(self).isps@.len() && old(self).isps@[b].name@ == k2;
                assert(self.isps@[b].name@ == k2);
                assert(a == b);
            };
        }
    }

    fn find_country_index(&self, k: &String) -> (r: Option<usize>)
        ensures
            match r {
                Some(i) => i < self.countries@.len() && self.countries@[i as int].name@ == k@,
                None => !self.has_country(k@),
            },
    {
        let mut i: usize = 0;
        while i < self.countries.len()
            invariant
                i <= self.countries@.len(),
                forall|j: int| 0 <= j < i ==> self.countries@[j].name@ != k@,
            decreases self.countries@.len() - i,
        {
            if self.countries[i].name == *k {
                return Some(i);
            }
            i = i + 1;
        }
        None
    }

    /// Look a country up by name; `None` exactly when no row carries it.
    pub fn get_country(&self, k: &String) -> (r: Option<Country>)
        requires
            self.wf(),
        ensures
            match r {
                Some(row) => self.has_country(k@) && row == self.country_at(k@),
                None => !self.has_country(k@),
            },
    {
        match self.find_country_index(k) {
            Some(i) => Some(self.countries[i].clone()),
            None => None,
        }
    }

    /// Insert the row, or replace the row with the same name.
    pub fn put_country(&mut self, row: Country)
        requires
            old(self).wf(),
        ensures
            final(self).wf(),
            final(self).has_country(row.name@),
            final(self).country_at(row.name@) == row,
            forall|k: Seq<char>|
                k != row.name@ ==> final(self).has_country(k) == old(self).has_country(k),
            forall|k: Seq<char>|
                k != row.name@ && old(self).has_country(k) ==> final(self).country_at(k) == old(self).country_at(k),
            final(self).ips@ == old(self).ips@,
            final(self).isps@ == old(self).isps@,
            final(self).regions@ == old(self).regions@,
            final(self).cities@ == old(self).cities@,
            final(self).messages@ == old(self).messages@,
    {
        let ghost k = row.name@;
        match self.find_country_index(&row.name) {
            Some(i) => {
                self.countries.set(i, row);
                proof {
                    assert(self.countries@[i as int].name@ == k);
                    assert forall|a: int, b: int|
                        0 <= a < b < self.countries@.len() implies self.countries@[a].name@
                        != self.countries@[b].name@ by {
                        assert(old(self).countries@[a].name@ != old(self).countries@[b].name@);
                    };
                }
            },
            None => {
                self.countries.push(row);
                proof {
                    let n = self.countries@.len() - 1;
                    assert(self.countries@[n].name@ == k);
                    assert forall|a: int, b: int|
                        0 <= a < b < self.countries@.len() implies self.countries@[a].name@
                        != self.countries@[b].name@ by {
                        if b < n {
                            assert(old(self).countries@[a].name@ != old(self).countries@[b].name@);
                        } else {
                            assert(!old(self).has_country(self.countries@[a].name@) || old(
                                self,
                            ).countries@[a].name@ != k);
                        }
                    };
                }
            },
        }
        proof {
            let j = choose|j: int| 0 <= j < self.countries@.len() && self.countries@[j].name@ == k;
            assert(self.country_at(k) == self.countries@[j]);
            assert forall|k2: Seq<char>|
                k2 != k implies self.has_country(k2) == old(self).has_country(k2) by {
                if old(self).has_country(k2) {
                    let a = choose|a: int|
                        0 <= a < old(self).countries@.len() && old(self).countries@[a].name@ == k2;
                    assert(self.countries@[a].name@ == k2);
                }
                if self.has_country(k2) {
                    let a = choose|a: int|
                        0 <= a < self.countries@.len() && self.countries@[a].name@ == k2;
                    assert(old(self).countries@[a].name@ == k2);
                }
            };
            assert forall|k2: Seq<char>|
                k2 != k && old(self).has_country(k2) implies self.country_at(k2) == old(
                self,
            ).country_at(k2) by {
                let a = choose|a: int|
                    0 <= a < self.countries@.len() && self.countries@[a].name@ == k2;
                let b = choose|b: int|
                    0 <= b < old(self).countries@.len() && old(self).countries@[b].name@ == k2;
                assert(self.countries@[b].name@ == k2);
                assert(a == b);
            };
        }
    }

    fn find_region_index(&self, n: &String, c: &String) -> (r: Option<usize>)
        ensures
            match r {
                Some(i) => i < self.regions@.len() && self.regions@[i as int].name@ == n@
                    && self.regions@[i as int].country@ == c@,
                None => !self.has_region(n@, c@),
            },
    {
        let mut i: usize = 0;
        while i < self.regions.len()
            invariant
                i <= self.regions@.len(),
                forall|j: int|
                    0 <= j < i ==> !(self.regions@[j].name@ == n@ && self.regions@[j].country@
                        == c@),
            decreases self.regions@.len() - i,
        {
            if self.regions[i].name == *n && self.regions[i].country == *c {
                return Some(i);
            }
            i = i + 1;
        }
        None
    }

    /// Look a region up by name within its country; the country scope is
    /// part of the key, so same-named regions of two countries are
    /// distinct rows.
    pub fn get_region(&self, n: &String, c: &String) -> (r: Option<Region>)
        requires
            self.wf(),
        ensures
            match r {
                Some(row) => self.has_region(n@, c@) && row == self.region_at(n@, c@),
                None => !self.has_region(n@, c@),
            },
    {
        match self.find_region_index(n, c) {
            Some(i) => Some(self.regions[i].clone()),
            None => None,
        }
    }

    /// Insert the row, or replace the row with the same (name, country).
    pub fn put_region(&mut self, row: Region)
        requires
            old(self).wf(),
        ensures
            final(self).wf(),
            final(self).has_region(row.name@, row.country@),
            final(self).region_at(row.name@, row.country@) == row,
            forall|n: Seq<char>, c: Seq<char>|
                !(n == row.name@ && c == row.country@) ==> final(self).has_region(n, c) == old(self).has_region(n, c),
            forall|n: Seq<char>, c: Seq<char>|
                !(n == row.name@ && c == row.country@) && old(self).has_region(n, c) ==> final(self).region_at(n, c) == old(self).region_at(n, c),
            final(self).ips@ == old(self).ips@,
            final(self).isps@ == old(self).isps@,
            final(self).countries@ == old(self).countries@,
            final(self).cities@ == old(self).cities@,
            final(self).messages@ == old(self).messages@,
    {
        let ghost kn = row.name@;
        let ghost kc = row.country@;
        match self.find_region_index(&row.name, &row.country) {
            Some(i) => {
                self.regions.set(i, row);
                proof {
                    assert(self.regions@[i as int].name@ == kn && self.regions@[i as int].country@
                        == kc);
                    assert forall|a: int, b: int|
                        0 <= a < b < self.regions@.len() implies !(self.regions@[a].name@
                        == self.regions@[b].name@ && self.regions@[a].country@
                        == self.regions@[b].country@) by {
                        assert(!(old(self).regions@[a].name@ == old(self).regions@[b].name@ && old(
                            self,
                        ).regions@[a].country@ == old(self).regions@[b].country@));
                    };
                }
            },
            None => {
                self.regions.push(row);
                proof {
                    let n = self.regions@.len() - 1;
                    assert(self.regions@[n].name@ == kn && self.regions@[n].country@ == kc);
                    assert forall|a: int, b: int|
                        0 <= a < b < self.regions@.len() implies !(self.regions@[a].name@
                        == self.regions@[b].name@ && self.regions@[a].country@
                        == self.regions@[b].country@) by {
                        if b < n {
                            assert(!(old(self).regions@[a].name@ == old(self).regions@[b].name@
                                && old(self).regions@[a].country@ == old(
                                self,
                            ).regions@[b].country@));
                        } else {
                            assert(!old(self).has_region(
                                self.regions@[a].name@,
                                self.regions@[a].country@,
                            ) || !(self.regions@[a].name@ == kn && self.regions@[a].country@
                                == kc));
                        }
                    };
                }
            },
        }
        proof {
            let j = choose|j: int|
                0 <= j < self.regions@.len() && self.regions@[j].name@ == kn
                    && self.regions@[j].country@ == kc;
            assert(self.region_at(kn, kc) == self.regions@[j]);
            assert forall|n2: Seq<char>, c2: Seq<char>|
                !(n2 == kn && c2 == kc) implies self.has_region(n2, c2) == old(self).has_region(
                n2,
                c2,
            ) by {
                if old(self).has_region(n2, c2) {
                    let a = choose|a: int|
                        0 <= a < old(self).regions@.len() && old(self).regions@[a].name@ == n2
                            && old(self).regions@[a].country@ == c2;
                    assert(self.regions@[a].name@ == n2 && self.regions@[a].country@ == c2);
                }
                if self.has_region(n2, c2) {
                    let a = choose|a: int|
                        0 <= a < self.regions@.len() && self.regions@[a].name@ == n2
                            && self.regions@[a].country@ == c2;
                    assert(old(self).regions@[a].name@ == n2 && old(self).regions@[a].country@
                        == c2);
                }
            };
            assert forall|n2: Seq<char>, c2: Seq<char>|
                !(n2 == kn && c2 == kc) && old(self).has_region(n2, c2) implies self.region_at(
                n2,
                c2,
            ) == old(self).region_at(n2, c2) by {
                let a = choose|a: int|
                    0 <= a < self.regions@.len() && self.regions@[a].name@ == n2
                        && self.regions@[a].country@ == c2;
                let b = choose|b: int|
                    0 <= b < old(self).regions@.len() && old(self).regions@[b].name@ == n2 && old(
                        self,
                    ).regions@[b].country@ == c2;
                assert(self.regions@[b].name@ == n2 && self.regions@[b].country@ == c2);
                assert(a == b);
            };
        }
    }

    fn find_city_index(&self, n: &String, c: &String, rg: &String) -> (r: Option<usize>)
        ensures
            match r {
                Some(i) => i < self.cities@.len() && self.cities@[i as int].name@ == n@
                    && self.cities@[i as int].country@ == c@ && self.cities@[i as int].region@
                    == rg@,
                None => !self.has_city(n@, c@, rg@),
            },
    {
        let mut i: usize = 0;
        while i < self.cities.len()
            invariant
                i <= self.cities@.len(),
                forall|j: int|
                    0 <= j < i ==> !(self.cities@[j].name@ == n@ && self.cities@[j].country@ == c@
                        && self.cities@[j].region@ == rg@),
            decreases self.cities@.len() - i,
        {
            if self.cities[i].name == *n && self.cities[i].country == *c && self.cities[i].region
                == *rg {
                return Some(i);
            }
            i = i + 1;
        }
        None
    }

    /// Look a city up by name within its country and region; both scopes
    /// are part of the key.
    pub fn get_city(&self, n: &String, c: &String, rg: &String) -> (r: Option<City>)
        requires
            self.wf(),
        ensures
            match r {
                Some(row) => self.has_city(n@, c@, rg@) && row == self.city_at(n@, c@, rg@),
                None => !self.has_city(n@, c@, rg@),
            },
    {
        match self.find_city_index(n, c, rg) {
            Some(i) => Some(self.cities[i].clone()),
            None => None,
        }
    }

    /// Insert the row, or replace the row with the same (name, country, region).
    pub fn put_city(&mut self, row: City)
        requires
            old(self).wf(),
        ensures
            final(self).wf(),
            final(self).has_city(row.name@, row.country@, row.region@),
            final(self).city_at(row.name@, row.country@, row.region@) == row,
            forall|n: Seq<char>, c: Seq<char>, rg: Seq<char>|
                !(n == row.name@ && c == row.country@ && rg == row.region@) ==> final(self).has_city(n, c, rg) == old(self).has_city(n, c, rg),
            forall|n: Seq<char>, c: Seq<char>, rg: Seq<char>|
                !(n == row.name@ && c == row.country@ && rg == row.region@) && old(self).has_city(n, c, rg) ==> final(self).city_at(n, c, rg) == old(self).city_at(
                    n,
                    c,
                    rg,
                ),
            final(self).ips@ == old(self).ips@,
            final(self).isps@ == old(self).isps@,
            final(self).countries@ == old(self).countries@,
            final(self).regions@ == old(self).regions@,
            final(self).messages@ == old(self).messages@,
    {
        let ghost kn = row.name@;
        let ghost kc = row.country@;
        let ghost kr = row.region@;
        match self.find_city_index(&row.name, &row.country, &row.region) {
            Some(i) => {
                self.cities.set(i, row);
                proof {
                    assert(self.cities@[i as int].name@ == kn && self.cities@[i as int].country@
                        == kc && self.cities@[i as int].region@ == kr);
                    assert forall|a: int, b: int|
                        0 <= a < b < self.cities@.len() implies !(self.cities@[a].name@
                        == self.cities@[b].name@ && self.cities@[a].country@
                        == self.cities@[b].country@ && self.cities@[a].region@
                        == self.cities@[b].region@) by {
                        assert(!(old(self).cities@[a].name@ == old(self).cities@[b].name@ && old(
                            self,
                        ).cities@[a].country@ == old(self).cities@[b].country@ && old(
                            self,
                        ).cities@[a].region@ == old(self).cities@[b].region@));
                    };
                }
            },
            None => {
                self.cities.push(row);
                proof {
                    let n = self.cities@.len() - 1;
                    assert(self.cities@[n].name@ == kn && self.cities@[n].country@ == kc
                        && self.cities@[n].region@ == kr);
                    assert forall|a: int, b: int|
                        0 <= a < b < self.cities@.len() implies !(self.cities@[a].name@
                        == self.cities@[b].name@ && self.cities@[a].country@
                        == self.cities@[b].country@ && self.cities@[a].region@
                        == self.cities@[b].region@) by {
                        if b < n {
                            assert(!(old(self).cities@[a].name@ == old(self).cities@[b].name@
                                && old(self).cities@[a].country@ == old(self).cities@[b].country@
                                && old(self).cities@[a].region@ == old(self).cities@[b].region@));
                        } else {
                            assert(!old(self).has_city(
                                self.cities@[a].name@,
                                self.cities@[a].country@,
                                self.cities@[a].region@,
                            ) || !(self.cities@[a].name@ == kn && self.cities@[a].country@ == kc
                                && self.cities@[a].region@ == kr));
                        }
                    };
                }
            },
        }
        proof {
            let j = choose|j: int|
                0 <= j < self.cities@.len() && self.cities@[j].name@ == kn
                    && self.cities@[j].country@ == kc && self.cities@[j].region@ == kr;
            assert(self.city_at(kn, kc, kr) == self.cities@[j]);
            assert forall|n2: Seq<char>, c2: Seq<char>, r2: Seq<char>|
                !(n2 == kn && c2 == kc && r2 == kr) implies self.has_city(n2, c2, r2) == old(
                self,
            ).has_city(n2, c2, r2) by {
                if old(self).has_city(n2, c2, r2) {
                    let a = choose|a: int|
                        0 <= a < old(self).cities@.len() && old(self).cities@[a].name@ == n2 && old(
                            self,
                        ).cities@[a].country@ == c2 && old(self).cities@[a].region@ == r2;
                    assert(self.cities@[a].name@ == n2 && self.cities@[a].country@ == c2
                        && self.cities@[a].region@ == r2);
                }
                if self.has_city(n2, c2, r2) {
                    let a = choose|a: int|
                        0 <= a < self.cities@.len() && self.cities@[a].name@ == n2
                            && self.cities@[a].country@ == c2 && self.cities@[a].region@ == r2;
                    assert(old(self).cities@[a].name@ == n2 && old(self).cities@[a].country@ == c2
                        && old(self).cities@[a].region@ == r2);
                }
            };
            assert forall|n2: Seq<char>, c2: Seq<char>, r2: Seq<char>|
                !(n2 == kn && c2 == kc && r2 == kr) && old(self).has_city(
                    n2,
                    c2,
                    r2,
                ) implies self.city_at(n2, c2, r2) == old(self).city_at(n2, c2, r2) by {
                let a = choose|a: int|
                    0 <= a < self.cities@.len() && self.cities@[a].name@ == n2
                        && self.cities@[a].country@ == c2 && self.cities@[a].region@ == r2;
                let b = choose|b: int|
                    0 <= b < old(self).cities@.len() && old(self).cities@[b].name@ == n2 && old(
                        self,
                    ).cities@[b].country@ == c2 && old(self).cities@[b].region@ == r2;
                assert(self.cities@[b].name@ == n2 && self.cities@[b].country@ == c2
                    && self.cities@[b].region@ == r2);
                assert(a == b);
            };
        }
    }

    /// Append one entry to the audit log; existing entries are never
    /// touched, so the log is append-only.
    pub fn append_message(&mut self, m: Message)
        ensures
            final(self).messages@ == old(self).messages@.push(m),
            final(self).ips@ == old(self).ips@,
            final(self).isps@ == old(self).isps@,
            final(self).countries@ == old(self).countries@,
            final(self).regions@ == old(self).regions@,
            final(self).cities@ == old(self).cities@,
    {
        self.messages.push(m);
    }

    /// The administrative reset: truncate every entity table and the
    /// message log, restoring the freshly-created state.
    pub fn clear_all(&mut self)
        ensures
            final(self).wf(),
            final(self).is_empty(),
    {
        self.ips = Vec::new();
        self.isps = Vec::new();
        self.countries = Vec::new();
        self.regions = Vec::new();
        self.cities = Vec::new();
        self.messages = Vec::new();
    }
}

/// Two stores with the same IP table agree on every address lookup.
pub proof fn lemma_ip_frame(a: Db, b: Db)
    requires
        a.ips@ == b.ips@,
        a.ips_unique(),
    ensures
        forall|k: Seq<char>| #[trigger] a.has_ip(k) == b.has_ip(k),
        forall|k: Seq<char>| #[trigger] a.has_ip(k) ==> a.ip_at(k) == b.ip_at(k),
{
    assert forall|k: Seq<char>| #[trigger] a.has_ip(k) == b.has_ip(k) by {
        if a.has_ip(k) {
            let i = choose|i: int| 0 <= i < a.ips@.len() && a.ips@[i].ip@ == k;
            assert(b.ips@[i].ip@ == k);
        }
        if b.has_ip(k) {
            let i = choose|i: int| 0 <= i < b.ips@.len() && b.ips@[i].ip@ == k;
            assert(a.ips@[i].ip@ == k);
        }
    };
    assert forall|k: Seq<char>| #[trigger] a.has_ip(k) implies a.ip_at(k) == b.ip_at(k) by {
        let i = choose|i: int| 0 <= i < a.ips@.len() && a.ips@[i].ip@ == k;
        let j = choose|j: int| 0 <= j < b.ips@.len() && b.ips@[j].ip@ == k;
        assert(a.ips@[j].ip@ == k);
        assert(i == j);
    };
}

/// Two stores with the same ISP table agree on every ISP lookup.
pub proof fn lemma_isp_frame(a: Db, b: Db)
    requires
        a.isps@ == b.isps@,
        a.isps_unique(),
    ensures
        forall|k: Seq<char>| #[trigger] a.has_isp(k) == b.has_isp(k),
        forall|k: Seq<char>| #[trigger] a.has_isp(k) ==> a.isp_at(k) == b.isp_at(k),
{
    assert forall|k: Seq<char>| #[trigger] a.has_isp(k) == b.has_isp(k) by {
        if a.has_isp(k) {
            let i = choose|i: int| 0 <= i < a.isps@.len() && a.isps@[i].name@ == k;
            assert(b.isps@[i].name@ == k);
        }
        if b.has_isp(k) {
            let i = choose|i: int| 0 <= i < b.isps@.len() && b.isps@[i].name@ == k;
            assert(a.isps@[i].name@ == k);
        }
    };
    assert forall|k: Seq<char>| #[trigger] a.has_isp(k) implies a.isp_at(k) == b.isp_at(k) by {
        let i = choose|i: int| 0 <= i < a.isps@.len() && a.isps@[i].name@ == k;
        let j = choose|j: int| 0 <= j < b.isps@.len() && b.isps@[j].name@ == k;
        assert(a.isps@[j].name@ == k);
        assert(i == j);
    };
}

/// Two stores with the same country table agree on every country lookup.
pub proof fn lemma_country_frame(a: Db, b: Db)
    requires
        a.countries@ == b.countries@,
        a.countries_unique(),
    ensures
        forall|k: Seq<char>| #[trigger] a.has_country(k) == b.has_country(k),
        forall|k: Seq<char>| #[trigger] a.has_country(k) ==> a.country_at(k) == b.country_at(k),
{
    assert forall|k: Seq<char>| #[trigger] a.has_country(k) == b.has_country(k) by {
        if a.has_country(k) {
            let i = choose|i: int| 0 <= i < a.countries@.len() && a.countries@[i].name@ == k;
            assert(b.countries@[i].name@ == k);
        }
        if b.has_country(k) {
            let i = choose|i: int| 0 <= i < b.countries@.len() && b.countries@[i].name@ == k;
            assert(a.countries@[i].name@ == k);
        }
    };
    assert forall|k: Seq<char>| #[trigger] a.has_country(k) implies a.country_at(k)
        == b.country_at(k) by {
        let i = choose|i: int| 0 <= i < a.countries@.len() && a.countries@[i].name@ == k;
        let j = choose|j: int| 0 <= j < b.countries@.len() && b.countries@[j].name@ == k;
        assert(a.countries@[j].name@ == k);
        assert(i == j);
    };
}

/// Two stores with the same region table agree on every region lookup.
pub proof fn lemma_region_frame(a: Db, b: Db)
    requires
        a.regions@ == b.regions@,
        a.regions_unique(),
    ensures
        forall|n: Seq<char>, c: Seq<char>| #[trigger] a.has_region(n, c) == b.has_region(n, c),
        forall|n: Seq<char>, c: Seq<char>| #[trigger] a.has_region(n, c) ==> a.region_at(n, c)
            == b.region_at(n, c),
{
    assert forall|n: Seq<char>, c: Seq<char>| #[trigger] a.has_region(n, c) == b.has_region(
        n,
        c,
    ) by {
        if a.has_region(n, c) {
            let i = choose|i: int|
                0 <= i < a.regions@.len() && a.regions@[i].name@ == n && a.regions@[i].country@
                    == c;
            assert(b.regions@[i].name@ == n && b.regions@[i].country@ == c);
        }
        if b.has_region(n, c) {
            let i = choose|i: int|
                0 <= i < b.regions@.len() && b.regions@[i].name@ == n && b.regions@[i].country@
                    == c;
            assert(a.regions@[i].name@ == n && a.regions@[i].country@ == c);
        }
    };
    assert forall|n: Seq<char>, c: Seq<char>| #[trigger] a.has_region(n, c) implies a.region_at(
        n,
        c,
    ) == b.region_at(n, c) by {
        let i = choose|i: int|
            0 <= i < a.regions@.len() && a.regions@[i].name@ == n && a.regions@[i].country@ == c;
        let j = choose|j: int|
            0 <= j < b.regions@.len() && b.regions@[j].name@ == n && b.regions@[j].country@ == c;
        assert(a.regions@[j].name@ == n && a.regions@[j].country@ == c);
        assert(i == j);
    };
}

/// Two stores with the same city table agree on every city lookup.
pub proof fn lemma_city_frame(a: Db, b: Db)
    requires
        a.cities@ == b.cities@,
        a.cities_unique(),
    ensures
        forall|n: Seq<char>, c: Seq<char>, rg: Seq<char>| #[trigger] a.has_city(n, c, rg)
            == b.has_city(n, c, rg),
        forall|n: Seq<char>, c: Seq<char>, rg: Seq<char>| #[trigger] a.has_city(n, c, rg)
            ==> a.city_at(n, c, rg) == b.city_at(n, c, rg),
{
    assert forall|n: Seq<char>, c: Seq<char>, rg: Seq<char>| #[trigger] a.has_city(n, c, rg)
        == b.has_city(n, c, rg) by {
        if a.has_city(n, c, rg) {
            let i = choose|i: int|
                0 <= i < a.cities@.len() && a.cities@[i].name@ == n && a.cities@[i].country@ == c
                    && a.cities@[i].region@ == rg;
            assert(b.cities@[i].name@ == n && b.cities@[i].country@ == c && b.cities@[i].region@
                == rg);
        }
        if b.has_city(n, c, rg) {
            let i = choose|i: int|
                0 <= i < b.cities@.len() && b.cities@[i].name@ == n && b.cities@[i].country@ == c
                    && b.cities@[i].region@ == rg;
            assert(a.cities@[i].name@ == n && a.cities@[i].country@ == c && a.cities@[i].region@
                == rg);
        }
    };
    assert forall|n: Seq<char>, c: Seq<char>, rg: Seq<char>| #[trigger] a.has_city(
        n,
        c,
        rg,
    ) implies a.city_at(n, c, rg) == b.city_at(n, c, rg) by {
        let i = choose|i: int|
            0 <= i < a.cities@.len() && a.cities@[i].name@ == n && a.cities@[i].country@ == c
                && a.cities@[i].region@ == rg;
        let j = choose|j: int|
            0 <= j < b.cities@.len() && b.cities@[j].name@ == n && b.cities@[j].country@ == c
                && b.cities@[j].region@ == rg;
        assert(a.cities@[j].name@ == n && a.cities@[j].country@ == c && a.cities@[j].region@
            == rg);
        assert(i == j);
    };
}

} // verus!
