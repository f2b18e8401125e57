//! Aggregate queries for the statistics views: the audit messages
//! grouped by the dimension of the address they mention, and the set
//! of addresses a dimension-wide block or unblock applies to.  Each
//! query is read-only and pins its result down as a filter of the
//! stored sequences.
use vstd::prelude::*;

use crate::schema::{IP, Message};
use crate::storage::Db;

verus! {

impl Db {
    /// The stored record for the address of `m` names this country.
    pub open spec fn msg_in_country(self, m: Message, name: Seq<char>) -> bool {
        self.has_ip(m.ip@) && self.ip_at(m.ip@).country@ == name
    }

    /// The stored record for the address of `m` names this ISP.
    pub open spec fn msg_in_isp(self, m: Message, name: Seq<char>) -> bool {
        self.has_ip(m.ip@) && self.ip_at(m.ip@).isp@ == name
    }

    /// The stored record for the address of `m` names this region of
    /// this country.
    pub open spec fn msg_in_region(self, m: Message, name: Seq<char>, country: Seq<char>) -> bool {
        self.has_ip(m.ip@) && self.ip_at(m.ip@).region@ == name && self.ip_at(m.ip@).country@
            == country
    }

    /// The stored record for the address of `m` names this city of this
    /// region and country.
    pub open spec fn msg_in_city(
        self,
        m: Message,
        name: Seq<char>,
        country: Seq<char>,
        region: Seq<char>,
    ) -> bool {
        self.has_ip(m.ip@) && self.ip_at(m.ip@).city@ == name && self.ip_at(m.ip@).country@
            == country && self.ip_at(m.ip@).region@ == region
    }

    /// All audit messages whose address resolves to this country, in
    /// the order they were appended.
    pub fn messages_for_country(&self, name: &String) -> (r: Vec<Message>)
        requires
            self.wf(),
        ensures
            r@ == self.messages@.filter(|m: Message| self.msg_in_country(m, name@)),
    {
        let ghost pred = |m: Message| self.msg_in_country(m, name@);
        let mut r: Vec<Message> = Vec::new();
        let mut i: usize = 0;
        proof {
            reveal(Seq::filter);
            assert(self.messages@.subrange(0, 0int).filter(pred) =~= Seq::<Message>::empty());
        }
        while i < self.messages.len()
            invariant
                self.wf(),
                i <= self.messages@.len(),
                r@ == self.messages@.subrange(0, i as int).filter(pred),
                pred == (|m: Message| self.msg_in_country(m, name@)),
            decreases self.messages@.len() - i,
        {
            let keep = match self.get_ip(&self.messages[i].ip) {
                Some(row) => row.country == *name,
                None => false,
            };
            if keep {
                r.push(self.messages[i].clone());
            }
            proof {
                reveal(Seq::filter);
                assert(self.messages@.subrange(0, i + 1).drop_last() =~= self.messages@.subrange(
                    0,
                    i as int,
                ));
                assert(self.messages@.subrange(0, i + 1).last() == self.messages@[i as int]);
            }
            i = i + 1;
        }
        proof {
            assert(self.messages@.subrange(0, self.messages@.len() as int) =~= self.messages@);
        }
        r
    }

    /// All audit messages whose address resolves to this ISP.
    pub fn messages_for_isp(&self, name: &String) -> (r: Vec<Message>)
        requires
            self.wf(),
        ensures
            r@ == self.messages@.filter(|m: Message| self.msg_in_isp(m, name@)),
    {
        let ghost pred = |m: Message| self.msg_in_isp(m, name@);
        let mut r: Vec<Message> = Vec::new();
        let mut i: usize = 0;
        proof {
            reveal(Seq::filter);
            assert(self.messages@.subrange(0, 0int).filter(pred) =~= Seq::<Message>::empty());
        }
        while i < self.messages.len()
            invariant
                self.wf(),
                i <= self.messages@.len(),
                r@ == self.messages@.subrange(0, i as int).filter(pred),
                pred == (|m: Message| self.msg_in_isp(m, name@)),
            decreases self.messages@.len() - i,
        {
            let keep = match self.get_ip(&self.messages[i].ip) {
                Some(row) => row.isp == *name,
                None => false,
            };
            if keep {
                r.push(self.messages[i].clone());
            }
            proof {
                reveal(Seq::filter);
                assert(self.messages@.subrange(0, i + 1).drop_last() =~= self.messages@.subrange(
                    0,
                    i as int,
                ));
                assert(self.messages@.subrange(0, i + 1).last() == self.messages@[i as int]);
            }
            i = i + 1;
        }
        proof {
            assert(self.messages@.subrange(0, self.messages@.len() as int) =~= self.messages@);
        }
        r
    }

    /// All audit messages whose address resolves to this region of this
    /// country; the country scope is part of the key.
    pub fn messages_for_region(&self, name: &String, country: &String) -> (r: Vec<Message>)
        requires
            self.wf(),
        ensures
            r@ == self.messages@.filter(|m: Message| self.msg_in_region(m, name@, country@)),
    {
        let ghost pred = |m: Message| self.msg_in_region(m, name@, country@);
        let mut r: Vec<Message> = Vec::new();
        let mut i: usize = 0;
        proof {
            reveal(Seq::filter);
            assert(self.messages@.subrange(0, 0int).filter(pred) =~= Seq::<Message>::empty());
        }
        while i < self.messages.len()
            invariant
                self.wf(),
                i <= self.messages@.len(),
                r@ == self.messages@.subrange(0, i as int).filter(pred),
                pred == (|m: Message| self.msg_in_region(m, name@, country@)),
            decreases self.messages@.len() - i,
        {
            let keep = match self.get_ip(&self.messages[i].ip) {
                Some(row) => row.region == *name && row.country == *country,
                None => false,
            };
            if keep {
                r.push(self.messages[i].clone());
            }
            proof {
                reveal(Seq::filter);
                assert(self.messages@.subrange(0, i + 1).drop_last() =~= self.messages@.subrange(
                    0,
                    i as int,
                ));
                assert(self.messages@.subrange(0, i + 1).last() == self.messages@[i as int]);
            }
            i = i + 1;
        }
        proof {
            assert(self.messages@.subrange(0, self.messages@.len() as int) =~= self.messages@);
        }
        r
    }

    /// All audit messages whose address resolves to this city of this
    /// country and region; both scopes are part of the key.
    pub fn messages_for_city(&self, name: &String, country: &String, region: &String) -> (r: Vec<
        Message,
    >)
        requires
            self.wf(),
        ensures
            r@ == self.messages@.filter(
                |m: Message| self.msg_in_city(m, name@, country@, region@),
            ),
    {
        let ghost pred = |m: Message| self.msg_in_city(m, name@, country@, region@);
        let mut r: Vec<Message> = Vec::new();
        let mut i: usize = 0;
        proof {
            reveal(Seq::filter);
            assert(self.messages@.subrange(0, 0int).filter(pred) =~= Seq::<Message>::empty());
        }
        while i < self.messages.len()
            invariant
                self.wf(),
                i <= self.messages@.len(),
                r@ == self.messages@.subrange(0, i as int).filter(pred),
                pred == (|m: Message| self.msg_in_city(m, name@, country@, region@)),
            decreases self.messages@.len() - i,
        {
            let keep = match self.get_ip(&self.messages[i].ip) {
                Some(row) => row.city == *name && row.country == *country && row.region == *region,
                None => false,
            };
            if keep {
                r.push(self.messages[i].clone());
            }
            proof {
                reveal(Seq::filter);
                assert(self.messages@.subrange(0, i + 1).drop_last() =~= self.messages@.subrange(
                    0,
                    i as int,
                ));
                assert(self.messages@.subrange(0, i + 1).last() == self.messages@[i as int]);
            }
            i = i + 1;
        }
        proof {
            assert(self.messages@.subrange(0, self.messages@.len() as int) =~= self.messages@);
        }
        r
    }

    /// The addresses a country-wide block or unblock applies to: every
    /// stored record naming this country, in storage order.
    pub fn ips_in_country(&self, name: &String) -> (r: Vec<IP>)
        ensures
            r@ == self.ips@.filter(|row: IP| row.country@ == name@),
    {
        let ghost pred = |row: IP| row.country@ == name@;
        let mut r: Vec<IP> = Vec::new();
        let mut i: usize = 0;
        proof {
            reveal(Seq::filter);
            assert(self.ips@.subrange(0, 0int).filter(pred) =~= Seq::<IP>::empty());
        }
        while i < self.ips.len()
            invariant
                i <= self.ips@.len(),
                r@ == self.ips@.subrange(0, i as int).filter(pred),
                pred == (|row: IP| row.country@ == name@),
            decreases self.ips@.len() - i,
        {
            if self.ips[i].country == *name {
                r.push(self.ips[i].clone());
            }
            proof {
                reveal(Seq::filter);
                assert(self.ips@.subrange(0, i + 1).drop_last() =~= self.ips@.subrange(
                    0,
                    i as int,
                ));
                assert(self.ips@.subrange(0, i + 1).last() == self.ips@[i as int]);
            }
            i = i + 1;
        }
        proof {
            assert(self.ips@.subrange(0, self.ips@.len() as int) =~= self.ips@);
        }
        r
    }

    /// The addresses an ISP-wide block or unblock applies to.
    pub fn ips_in_isp(&self, name: &String) -> (r: Vec<IP>)
        ensures
            r@ == self.ips@.filter(|row: IP| row.isp@ == name@),
    {
        let ghost pred = |row: IP| row.isp@ == name@;
        let mut r: Vec<IP> = Vec::new();
        let mut i: usize = 0;
        proof {
            reveal(Seq::filter);
            assert(self.ips@.subrange(0, 0int).filter(pred) =~= Seq::<IP>::empty());
        }
        while i < self.ips.len()
            invariant
                i <= self.ips@.len(),
                r@ == self.ips@.subrange(0, i as int).filter(pred),
                pred == (|row: IP| row.isp@ == name@),
            decreases self.ips@.len() - i,
        {
            if self.ips[i].isp == *name {
                r.push(self.ips[i].clone());
            }
            proof {
                reveal(Seq::filter);
                assert(self.ips@.subrange(0, i + 1).drop_last() =~= self.ips@.subrange(
                    0,
                    i as int,
                ));
                assert(self.ips@.subrange(0, i + 1).last() == self.ips@[i as int]);
            }
            i = i + 1;
        }
        proof {
            assert(self.ips@.subrange(0, self.ips@.len() as int) =~= self.ips@);
        }
        r
    }

    /// The addresses a region-wide block or unblock applies to, the
    /// region resolved through its country.
    pub fn ips_in_region(&self, name: &String, country: &String) -> (r: Vec<IP>)
        ensures
            r@ == self.ips@.filter(|row: IP| row.region@ == name@ && row.country@ == country@),
    {
        let ghost pred = |row: IP| row.region@ == name@ && row.country@ == country@;
        let mut r: Vec<IP> = Vec::new();
        let mut i: usize = 0;
        proof {
            reveal(Seq::filter);
            assert(self.ips@.subrange(0, 0int).filter(pred) =~= Seq::<IP>::empty());
        }
        while i < self.ips.len()
            invariant
                i <= self.ips@.len(),
                r@ == self.ips@.subrange(0, i as int).filter(pred),
                pred == (|row: IP| row.region@ == name@ && row.country@ == country@),
            decreases self.ips@.len() - i,
        {
            if self.ips[i].region == *name && self.ips[i].country == *country {
                r.push(self.ips[i].clone());
            }
            proof {
                reveal(Seq::filter);
                assert(self.ips@.subrange(0, i + 1).drop_last() =~= self.ips@.subrange(
                    0,
                    i as int,
                ));
                assert(self.ips@.subrange(0, i + 1).last() == self.ips@[i as int]);
            }
            i = i + 1;
        }
        proof {
            assert(self.ips@.subrange(0, self.ips@.len() as int) =~= self.ips@);
        }
        r
    }

    /// The addresses a city-wide block or unblock applies to, the city
    /// resolved through its country and region.
    pub fn ips_in_city(&self, name: &String, country: &String, region: &String) -> (r: Vec<IP>)
        ensures
            r@ == self.ips@.filter(
                |row: IP| row.city@ == name@ && row.country@ == country@ && row.region@ == region@,
            ),
    {
        let ghost pred = |row: IP|
            row.city@ == name@ && row.country@ == country@ && row.region@ == region@;
        let mut r: Vec<IP> = Vec::new();
        let mut i: usize = 0;
        proof {
            reveal(Seq::filter);
            assert(self.ips@.subrange(0, 0int).filter(pred) =~= Seq::<IP>::empty());
        }
        while i < self.ips.len()
            invariant
                i <= self.ips@.len(),
                r@ == self.ips@.subrange(0, i as int).filter(pred),
                pred == (|row: IP|
                    row.city@ == name@ && row.country@ == country@ && row.region@ == region@),
            decreases self.ips@.len() - i,
        {
            if self.ips[i].city == *name && self.ips[i].country == *country && self.ips[i].region
                == *region {
                r.push(self.ips[i].clone());
            }
            proof {
                reveal(Seq::filter);
                assert(self.ips@.subrange(0, i + 1).drop_last() =~= self.ips@.subrange(
                    0,
                    i as int,
                ));
                assert(self.ips@.subrange(0, i + 1).last() == self.ips@[i as int]);
            }
            i = i + 1;
        }
        proof {
            assert(self.ips@.subrange(0, self.ips@.len() as int) =~= self.ips@);
        }
        r
    }
}

} // verus!
