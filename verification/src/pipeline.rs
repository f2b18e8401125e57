//! The dispatch step and the state it drives: one action at a time is
//! routed to its handler, which mutates the store or the component
//! state and names at most one outside effect for the caller to
//! perform.  This single serialized consumer is what makes the counter
//! rules of the ingestion path hold without locks.
use vstd::prelude::*;

use crate::action::Action;
use crate::ingest::{extract_first_ipv4, ip_match_at, ip_match_end, geo_step_ok};
use crate::schema::{IP, bump, bump64};
use crate::storage::Db;

verus! {

/// The lifecycle of the startup component.
#[derive(Debug, Default, Copy, Clone, PartialEq, Eq)]
pub enum Mode {
    #[default]
    Init,
    Loading,
    Done,
    Confirmed,
}

/// An outside effect the dispatch step asks its caller to perform:
/// everything the serialized handler itself must not do (open the
/// backing store, probe the ban tool, fetch geolocation data, run a
/// ban or unban command), plus at most one follow-up action to push
/// back onto the bus.
#[derive(Debug, PartialEq, Eq)]
pub enum Effect {
    /// Nothing to do outside.
    Quiet,
    /// Push this follow-up action onto the bus (not executed inline).
    Emit(Action),
    /// Open the persistent store backing the in-memory tables.
    OpenStore,
    /// Ask the ban tool whether this address is currently banned, then
    /// hand the answer back through `after_probe`.
    Probe { ip: String, line: String },
    /// Fetch geolocation data for this address, then push the finished
    /// record as a `GotGeo` action.
    Enrich { ip: String, line: String, is_banned: bool },
    /// Run the ban tool against this address, then push `Banned(ok)`.
    ExecBan(String),
    /// Run the unban command against this address, then push `Unbanned(ok)`.
    ExecUnban(String),
}

/// The component that owns the store and handles the core actions.
pub struct Startup {
    pub show_help: bool,
    pub counter: usize,
    pub app_ticker: usize,
    pub render_ticker: usize,
    pub mode: Mode,
    pub text: Vec<String>,
    pub num_ticks: usize,
    pub elapsed_frames: usize,
    pub log_messages: Vec<String>,
    pub last_ip: String,
    pub pending_clear: bool,
    pub pending_ban: Option<String>,
    pub pending_unban: Option<String>,
    pub db: Db,
}

/// One more than `c`, capped at the largest representable value.
pub open spec fn bump_usize(c: usize) -> usize {
    if c < usize::MAX {
        (c + 1) as usize
    } else {
        c
    }
}

impl Startup {
    /// A fresh component: initial mode, zeroed tickers, empty store.
    pub fn new() -> (r: Startup)
        ensures
            r.mode == Mode::Init,
            r.show_help == false,
            r.counter == 0,
            r.app_ticker == 0,
            r.render_ticker == 0,
            r.num_ticks == 0,
            r.elapsed_frames == 0,
            r.text@.len() == 0,
            r.log_messages@.len() == 0,
            r.last_ip@.len() == 0,
            r.pending_clear == false,
            r.pending_ban is None,
            r.pending_unban is None,
            r.db.wf(),
            r.db.is_empty(),
    {
        Startup {
            show_help: false,
            counter: 0,
            app_ticker: 0,
            render_ticker: 0,
            mode: Mode::Init,
            text: Vec::new(),
            num_ticks: 0,
            elapsed_frames: 0,
            log_messages: Vec::new(),
            last_ip: String::new(),
            pending_clear: false,
            pending_ban: None,
            pending_unban: None,
            db: Db::new(),
        }
    }

    /// One application tick: count it, saturating rather than wrapping.
    pub fn tick(&mut self)
        ensures
            *final(self) == (Startup {
                num_ticks: bump_usize(old(self).num_ticks),
                app_ticker: bump_usize(old(self).app_ticker),
                ..*old(self)
            }),
    {
        self.num_ticks = if self.num_ticks < usize::MAX {
            self.num_ticks + 1
        } else {
            self.num_ticks
        };
        self.app_ticker = if self.app_ticker < usize::MAX {
            self.app_ticker + 1
        } else {
            self.app_ticker
        };
    }

    /// Append one line to the component's text buffer.
    pub fn add(&mut self, s: String)
        ensures
            final(self).text@ == old(self).text@.push(s),
            *final(self) == (Startup { text: final(self).text, ..*old(self) }),
    {
        self.text.push(s);
    }

    /// One render frame: count it, and once more than twelve frames
    /// have elapsed since the last reset, reset the frame counter and,
    /// if more than twelve application ticks have also passed, finish
    /// the startup phase and ask for `StartupDone` to be pushed.
    pub fn render_tick(&mut self) -> (r: Option<Action>)
        ensures
            ({
                let ef = bump_usize(old(self).elapsed_frames);
                &&& final(self).render_ticker == bump_usize(old(self).render_ticker)
                &&& final(self).elapsed_frames == (if ef > 12 {
                    0usize
                } else {
                    ef
                })
                &&& final(self).mode == (if ef > 12 && old(self).num_ticks > 12 {
                    Mode::Done
                } else {
                    old(self).mode
                })
                &&& r == (if ef > 12 && old(self).num_ticks > 12 {
                    Some(Action::StartupDone)
                } else {
                    Option::<Action>::None
                })
                &&& *final(self) == (Startup {
                    render_ticker: final(self).render_ticker,
                    elapsed_frames: final(self).elapsed_frames,
                    mode: final(self).mode,
                    ..*old(self)
                })
            }),
    {
        let mut r: Option<Action> = None;
        self.elapsed_frames = if self.elapsed_frames < usize::MAX {
            self.elapsed_frames + 1
        } else {
            self.elapsed_frames
        };
        if self.elapsed_frames > 12 {
            self.elapsed_frames = 0;
            if self.num_ticks > 12 {
                self.mode = Mode::Done;
                r = Some(Action::StartupDone);
            }
        }
        self.render_ticker = if self.render_ticker < usize::MAX {
            self.render_ticker + 1
        } else {
            self.render_ticker
        };
        r
    }

    /// Continue an ingestion after the ban-status probe answered: on a
    /// cache hit the stored record is replayed as a `GotGeo` follow-up
    /// action and the geolocation service is never asked; only a miss
    /// asks for an enrichment, remembering the address as the one in
    /// flight.
    pub fn after_probe(&mut self, ip: String, line: String, is_banned: bool) -> (e: Effect)
        requires
            old(self).db.wf(),
        ensures
            final(self).db == old(self).db,
            old(self).db.has_ip(ip@) ==> e == Effect::Emit(
                Action::GotGeo(old(self).db.ip_at(ip@), line, true),
            ) && *final(self) == *old(self),
            !old(self).db.has_ip(ip@) ==> (e matches Effect::Enrich {
                ip: i2,
                line: l2,
                is_banned: b2,
            } && i2 == ip && l2 == line && b2 == is_banned) && final(self).last_ip == ip && *final(self) == (Startup { last_ip: final(self).last_ip, ..*old(self) }),
    {
        match self.db.get_ip(&ip) {
            Some(stored) => Effect::Emit(Action::GotGeo(stored, line, true)),
            None => {
                self.last_ip = ip.clone();
                Effect::Enrich { ip, line, is_banned }
            },
        }
    }
}

/// The record `r` marked banned: a transition into the banned state
/// counts one more ban; re-banning an already banned address counts
/// nothing.
pub open spec fn banned_row(r: IP) -> IP {
    IP {
        is_banned: true,
        banned_times: if r.is_banned {
            r.banned_times
        } else {
            bump64(r.banned_times)
        },
        ..r
    }
}

/// The record `r` marked no longer banned; its ban count keeps the
/// history.
pub open spec fn unbanned_row(r: IP) -> IP {
    IP { is_banned: false, ..r }
}

/// How a successful ban changes the store: only the one record is
/// touched, and only its ban state.
pub open spec fn ban_step_ok(pre: Db, post: Db, k: Seq<char>) -> bool {
    &&& !pre.has_ip(k) ==> post == pre
    &&& pre.has_ip(k) ==> post.has_ip(k) && post.ip_at(k) == banned_row(pre.ip_at(k))
    &&& forall|k2: Seq<char>| k2 != k ==> post.has_ip(k2) == pre.has_ip(k2)
    &&& forall|k2: Seq<char>| k2 != k && pre.has_ip(k2) ==> post.ip_at(k2) == pre.ip_at(k2)
    &&& post.isps@ == pre.isps@
    &&& post.countries@ == pre.countries@
    &&& post.regions@ == pre.regions@
    &&& post.cities@ == pre.cities@
    &&& post.messages@ == pre.messages@
}

/// How a successful unban changes the store.
pub open spec fn unban_step_ok(pre: Db, post: Db, k: Seq<char>) -> bool {
    &&& !pre.has_ip(k) ==> post == pre
    &&& pre.has_ip(k) ==> post.has_ip(k) && post.ip_at(k) == unbanned_row(pre.ip_at(k))
    &&& forall|k2: Seq<char>| k2 != k ==> post.has_ip(k2) == pre.has_ip(k2)
    &&& forall|k2: Seq<char>| k2 != k && pre.has_ip(k2) ==> post.ip_at(k2) == pre.ip_at(k2)
    &&& post.isps@ == pre.isps@
    &&& post.countries@ == pre.countries@
    &&& post.regions@ == pre.regions@
    &&& post.cities@ == pre.cities@
    &&& post.messages@ == pre.messages@
}

impl Db {
    /// Record a successful ban of `ip`: set the record's ban flag, and
    /// count one more ban only on a transition into the banned state —
    /// banning an address that is already banned leaves its ban count
    /// alone.  An unknown address changes nothing.
    pub fn apply_ban(&mut self, ip: &String)
        requires
            old(self).wf(),
        ensures
            final(self).wf(),
            ban_step_ok(*old(self), *final(self), ip@),
            old(self).has_ip(ip@) && old(self).ip_at(ip@).is_banned ==> final(self).ip_at(
                ip@,
            ).banned_times == old(self).ip_at(ip@).banned_times,
    {
        match self.get_ip(ip) {
            Some(stored) => {
                let bt = if stored.is_banned {
                    stored.banned_times
                } else {
                    bump(stored.banned_times)
                };
                let mut updated = stored;
                updated.is_banned = true;
                updated.banned_times = bt;
                self.put_ip(updated);
            },
            None => {},
        }
    }

    /// Record a successful unban of `ip`: clear the record's ban flag;
    /// the ban count keeps the history.  An unknown address changes
    /// nothing.
    pub fn apply_unban(&mut self, ip: &String)
        requires
            old(self).wf(),
        ensures
            final(self).wf(),
            unban_step_ok(*old(self), *final(self), ip@),
    {
        match self.get_ip(ip) {
            Some(stored) => {
                let mut updated = stored;
                updated.is_banned = false;
                self.put_ip(updated);
            },
            None => {},
        }
    }
}

/// Some position of `line` carries an IPv4-shaped substring.
pub open spec fn line_has_ip(line: Seq<char>) -> bool {
    exists|i: int| 0 <= i < line.len() && ip_match_at(line, i)
}

/// `ip` is the first IPv4-shaped substring of `line`.
pub open spec fn first_ip_of(line: Seq<char>, ip: Seq<char>) -> bool {
    exists|i: int|
        0 <= i < line.len() && #[trigger] ip_match_at(line, i) && (forall|j: int|
            0 <= j < i ==> !ip_match_at(line, j)) && ip == line.subrange(i, ip_match_end(line, i))
}

/// The actions the dispatch step does not route anywhere: they are
/// deliberate no-ops, never errors.
pub open spec fn unrouted(action: Action) -> bool {
    match action {
        Action::Tick => false,
        Action::Render => false,
        Action::StartupConnect => false,
        Action::IONotify(_) => false,
        Action::GotGeo(_, _, _) => false,
        Action::ClearLists => false,
        Action::AbortClearLists => false,
        Action::ConfirmedClearLists => false,
        Action::RequestBan => false,
        Action::BanIP(_) => false,
        Action::Banned(_) => false,
        Action::RequestUnban => false,
        Action::UnbanIP(_) => false,
        Action::Unbanned(_) => false,
        _ => true,
    }
}

/// The whole contract of one dispatch step: how the component state
/// `pre` becomes `post` and which outside effect `e` is asked for,
/// given the consumed `action` and the timestamp `now` the step was
/// stamped with.
pub open spec fn update_rel(
    pre: Startup,
    post: Startup,
    action: Action,
    now: String,
    e: Effect,
) -> bool {
    &&& (action is Tick ==> post == (Startup {
        num_ticks: bump_usize(pre.num_ticks),
        app_ticker: bump_usize(pre.app_ticker),
        ..pre
    }) && e == Effect::Quiet)
    &&& (action is Render ==> ({
        let ef = bump_usize(pre.elapsed_frames);
        &&& post.render_ticker == bump_usize(pre.render_ticker)
        &&& post.elapsed_frames == (if ef > 12 {
            0usize
        } else {
            ef
        })
        &&& post.mode == (if ef > 12 && pre.num_ticks > 12 {
            Mode::Done
        } else {
            pre.mode
        })
        &&& e == (if ef > 12 && pre.num_ticks > 12 {
            Effect::Emit(Action::StartupDone)
        } else {
            Effect::Quiet
        })
        &&& post == (Startup {
            render_ticker: post.render_ticker,
            elapsed_frames: post.elapsed_frames,
            mode: post.mode,
            ..pre
        })
    }))
    &&& (action is StartupConnect ==> ({
        &&& e == Effect::OpenStore
        &&& post.log_messages@.len() == pre.log_messages@.len() + 1
        &&& post.log_messages@.subrange(0, pre.log_messages@.len() as int) == pre.log_messages@
        &&& post.log_messages@.last()@ == now@ + "            Connecting to db"@
        &&& post == (Startup { log_messages: post.log_messages, ..pre })
    }))
    &&& (action matches Action::IONotify(line) ==> ({
        &&& post == pre
        &&& !line_has_ip(line@) ==> e == Effect::Quiet
        &&& line_has_ip(line@) ==> (e matches Effect::Probe { ip, line: l2 } && l2 == line
            && first_ip_of(line@, ip@))
    }))
    &&& (action matches Action::GotGeo(x, line, from_store) ==> ({
        &&& post == (Startup { db: post.db, ..pre })
        &&& geo_step_ok(pre.db, post.db, x, line, now)
        &&& e == Effect::Quiet
    }))
    &&& (action is ClearLists ==> post == (Startup { pending_clear: true, ..pre }) && e
        == Effect::Quiet)
    &&& (action is AbortClearLists ==> post == (Startup { pending_clear: false, ..pre }) && e
        == Effect::Quiet)
    &&& (action is ConfirmedClearLists ==> ({
        &&& pre.pending_clear ==> post.db.is_empty() && post == (Startup {
            db: post.db,
            pending_clear: false,
            ..pre
        })
        &&& !pre.pending_clear ==> post == pre
        &&& e == Effect::Quiet
    }))
    &&& (action is RequestBan ==> ({
        &&& e matches Effect::ExecBan(t) && t == pre.last_ip
        &&& post.pending_ban matches Some(t2) && t2 == pre.last_ip
        &&& post == (Startup { pending_ban: post.pending_ban, ..pre })
    }))
    &&& (action matches Action::BanIP(x) ==> ({
        &&& e matches Effect::ExecBan(t) && t == x.ip
        &&& post.pending_ban matches Some(t2) && t2 == x.ip
        &&& post == (Startup { pending_ban: post.pending_ban, ..pre })
    }))
    &&& (action matches Action::Banned(ok) ==> ({
        &&& post.pending_ban is None
        &&& (pre.pending_ban matches Some(t) ==> (ok ==> ban_step_ok(pre.db, post.db, t@) && post
            == (Startup { db: post.db, pending_ban: None, ..pre })))
        &&& (!ok || pre.pending_ban is None) ==> post == (Startup { pending_ban: None, ..pre })
    }) && e == Effect::Quiet)
    &&& (action is RequestUnban ==> ({
        &&& e matches Effect::ExecUnban(t) && t == pre.last_ip
        &&& post.pending_unban matches Some(t2) && t2 == pre.last_ip
        &&& post == (Startup { pending_unban: post.pending_unban, ..pre })
    }))
    &&& (action matches Action::UnbanIP(x) ==> ({
        &&& e matches Effect::ExecUnban(t) && t == x.ip
        &&& post.pending_unban matches Some(t2) && t2 == x.ip
        &&& post == (Startup { pending_unban: post.pending_unban, ..pre })
    }))
    &&& (action matches Action::Unbanned(ok) ==> ({
        &&& post.pending_unban is None
        &&& (pre.pending_unban matches Some(t) ==> (ok ==> unban_step_ok(pre.db, post.db, t@)
            && post == (Startup { db: post.db, pending_unban: None, ..pre })))
        &&& (!ok || pre.pending_unban is None) ==> post == (Startup { pending_unban: None, ..pre })
    }) && e == Effect::Quiet)
    &&& (unrouted(action) ==> post == pre && e == Effect::Quiet)
}

impl Startup {
    /// Dispatch one action: the single serialized consumer's step.  The
    /// handler mutates the component and the store, and returns at most
    /// one outside effect; unroutable actions are no-ops.  `now` stamps
    /// whatever the step persists.
    pub fn update(&mut self, action: Action, now: &String) -> (e: Effect)
        requires
            old(self).db.wf(),
        ensures
            final(self).db.wf(),
            update_rel(*old(self), *final(self), action, *now, e),
    {
        match action {
            Action::Tick => {
                self.tick();
                Effect::Quiet
            },
            Action::Render => {
                match self.render_tick() {
                    Some(a) => Effect::Emit(a),
                    None => Effect::Quiet,
                }
            },
            Action::StartupConnect => {
                let m = now.clone().concat("            Connecting to db");
                self.log_messages.push(m);
                proof {
                    assert(self.log_messages@.subrange(
                        0,
                        old(self).log_messages@.len() as int,
                    ) =~= old(self).log_messages@);
                }
                Effect::OpenStore
            },
            Action::IONotify(line) => {
                match extract_first_ipv4(line.as_str()) {
                    Some(ip) => Effect::Probe { ip, line },
                    None => Effect::Quiet,
                }
            },
            Action::GotGeo(x, line, _from_store) => {
                self.db.process_geo(&x, &line, now);
                Effect::Quiet
            },
            Action::ClearLists => {
                self.pending_clear = true;
                Effect::Quiet
            },
            Action::AbortClearLists => {
                self.pending_clear = false;
                Effect::Quiet
            },
            Action::ConfirmedClearLists => {
                if self.pending_clear {
                    self.db.clear_all();
                    self.pending_clear = false;
                }
                Effect::Quiet
            },
            Action::RequestBan => {
                self.pending_ban = Some(self.last_ip.clone());
                Effect::ExecBan(self.last_ip.clone())
            },
            Action::BanIP(x) => {
                self.pending_ban = Some(x.ip.clone());
                Effect::ExecBan(x.ip)
            },
            Action::Banned(ok) => {
                if ok {
                    let target: Option<String> = match &self.pending_ban {
                        Some(ip) => Some(ip.clone()),
                        None => None,
                    };
                    match target {
                        Some(ip) => self.db.apply_ban(&ip),
                        None => {},
                    }
                }
                self.pending_ban = None;
                Effect::Quiet
            },
            Action::RequestUnban => {
                self.pending_unban = Some(self.last_ip.clone());
                Effect::ExecUnban(self.last_ip.clone())
            },
            Action::UnbanIP(x) => {
                self.pending_unban = Some(x.ip.clone());
                Effect::ExecUnban(x.ip)
            },
            Action::Unbanned(ok) => {
                if ok {
                    let target: Option<String> = match &self.pending_unban {
                        Some(ip) => Some(ip.clone()),
                        None => None,
                    };
                    match target {
                        Some(ip) => self.db.apply_unban(&ip),
                        None => {},
                    }
                }
                self.pending_unban = None;
                Effect::Quiet
            },
            _ => Effect::Quiet,
        }
    }

    /// Dispatch one action, stamping the step with the machine clock.
    pub fn update_now(&mut self, action: Action) -> (e: Effect)
        requires
            old(self).db.wf(),
        ensures
            final(self).db.wf(),
            exists|now: String| update_rel(*old(self), *final(self), action, now, e),
    {
        let now = now_local_string();
        let ghost stamp = now;
        let e = self.update(action, &now);
        proof {
            assert(update_rel(*old(self), *self, action, stamp, e));
        }
        e
    }
}

/// Relies on chrono's `Local::now`, rendered with its default
/// `to_string` format, for the timestamps stored with records and
/// audit messages; nothing is promised of the clock's value.
#[verifier::external_body]
fn now_local_string() -> String {
    chrono::offset::Local::now().to_string()
}

/// Banning an address that is already banned counts nothing: after a
/// successful ban of a record whose flag was already set, the ban
/// counter is exactly what it was.
pub proof fn lemma_ban_idempotent(pre: Db, post: Db, k: Seq<char>)
    requires
        ban_step_ok(pre, post, k),
        pre.has_ip(k),
        pre.ip_at(k).is_banned,
    ensures
        post.has_ip(k),
        post.ip_at(k).is_banned,
        post.ip_at(k).banned_times == pre.ip_at(k).banned_times,
{
}

/// The administrative reset is confirmation-gated: dispatching
/// `ClearLists` and then `ConfirmedClearLists` leaves every entity
/// table and the message log empty.
pub proof fn lemma_clear_confirmed(
    s0: Startup,
    s1: Startup,
    s2: Startup,
    now1: String,
    now2: String,
    e1: Effect,
    e2: Effect,
)
    requires
        update_rel(s0, s1, Action::ClearLists, now1, e1),
        update_rel(s1, s2, Action::ConfirmedClearLists, now2, e2),
    ensures
        s2.db.is_empty(),
{
}

/// Aborting the reset leaves all data untouched: dispatching
/// `ClearLists` and then `AbortClearLists` keeps the store exactly as
/// it was, with the pending confirmation dropped.
pub proof fn lemma_clear_aborted(
    s0: Startup,
    s1: Startup,
    s2: Startup,
    now1: String,
    now2: String,
    e1: Effect,
    e2: Effect,
)
    requires
        update_rel(s0, s1, Action::ClearLists, now1, e1),
        update_rel(s1, s2, Action::AbortClearLists, now2, e2),
    ensures
        s2.db == s0.db,
        s2 == (Startup { pending_clear: false, ..s0 }),
{
}

} // verus!
