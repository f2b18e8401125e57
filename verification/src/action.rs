//! The action vocabulary: every event the dispatch loop can consume,
//! as one tagged value, together with the textual codec that reads a
//! stable tag (and, for a few variants, a payload) back into an action.
use vstd::prelude::*;

use crate::schema::{IP, ISP, Country, Region, City, MiniMessage};
use crate::text::{has_prefix, all_digits, digits_val, str_eq, str_starts_with, parse_u16};

verus! {

/// Input-mode toggles the UI layer maps key presses to.
#[derive(Debug, Clone, PartialEq, Eq)]
pub enum InputAction {
    ToggleMap,
    ToggleStats,
    ToggleHelp,
    ToggleQuery,
    ToggleBan,
    ToggleLogs,
    SetIOCapacity,
}

/// A tagged event value: the single currency of the action bus.  Every
/// producer pushes these, and the dispatch loop consumes them one at a
/// time, in order.
#[derive(Debug, PartialEq, Eq)]
pub enum Action {
    Tick,
    Render,
    Resize(u16, u16),
    Suspend,
    Resume,
    Quit,
    Refresh,
    Error(String),
    Help,
    EnterNormal,
    EnterTakeAction,
    EnterProcessing,
    ExitProcessing,
    Blank,
    ConfirmClearLists,
    AbortClearLists,
    ConfirmedClearLists,
    ClearLists,
    SetCapacity,
    SubmittedCapacity,
    LogsNext,
    LogsPrevious,
    LogsFirst,
    LogsLast,
    IPsScheduleNext,
    IPsSchedulePrevious,
    IPsNext,
    IPsPrevious,
    IPsUnselect,
    ActionsScheduleNext,
    ActionsSchedulePrevious,
    ActionsNext,
    ActionsPrevious,
    EnterQuery,
    ExitQuery,
    SubmitQuery(String),
    InvalidQuery,
    QueryNotFound(String),
    IONotify(String),
    /// A finished enrichment: the record, the raw line it came from, and
    /// whether the record was read back from the store rather than
    /// freshly fetched.
    GotGeo(IP, String, bool),
    PassGeo(IP, String, bool),
    InternalLog(String),
    EnterBan,
    ExitBan,
    RequestBan,
    BanIP(IP),
    Banned(bool),
    EnterUnban,
    ExitUnban,
    RequestUnban,
    UnbanIP(IP),
    Unbanned(bool),
    Block(IP),
    StartF2BWatcher,
    StopF2BWatcher,
    StartJCtlWatcher,
    StopJCtlWatcher,
    StoppedJCtlWatcher,
    StartupConnect,
    StartupConnected,
    StartupConnectedDB,
    StartupCreateDB,
    StartupDone,
    StartupGotHome(IP),
    SelectTheme(String),
    StatsShow,
    StatsHide,
    StatsGetCountries,
    StatsGetISPs,
    StatsGetRegions,
    StatsGetCities,
    StatsGotCountry(Country, Vec<MiniMessage>),
    StatsGotISP(ISP, Vec<MiniMessage>),
    StatsGotRegion(Region, Vec<MiniMessage>),
    StatsGotCity(City, Vec<MiniMessage>),
    StatsBlockCountry(Country),
    StatsBlockRegion(Region),
    StatsBlockCity(City),
    StatsBlockISP(ISP),
    StatsUnblockCountry(Country),
    StatsUnblockRegion(Region),
    StatsUnblockCity(City),
    StatsUnblockISP(ISP),
    StatsGetIP(String),
    StatsGotIP(IP),
}

/// The payload-free actions the textual codec reads, each under its
/// stable tag.
pub open spec fn simple_action_of(t: Seq<char>) -> Option<Action> {
    if t == "Tick"@ {
        Some(Action::Tick)
    } else if t == "Render"@ {
        Some(Action::Render)
    } else if t == "Suspend"@ {
        Some(Action::Suspend)
    } else if t == "Resume"@ {
        Some(Action::Resume)
    } else if t == "Quit"@ {
        Some(Action::Quit)
    } else if t == "Refresh"@ {
        Some(Action::Refresh)
    } else if t == "Help"@ {
        Some(Action::Help)
    } else if t == "EnterNormal"@ {
        Some(Action::EnterNormal)
    } else if t == "EnterTakeAction"@ {
        Some(Action::EnterTakeAction)
    } else if t == "StartupDone"@ {
        Some(Action::StartupDone)
    } else {
        None
    }
}

/// `t` is an error tag with a payload: `Error(` ... `)`.
pub open spec fn is_error_form(t: Seq<char>) -> bool {
    t.len() >= 7 && has_prefix(t, "Error("@) && t.last() == ')'
}

/// The payload between the parentheses of an error tag.
pub open spec fn error_msg(t: Seq<char>) -> Seq<char> {
    t.subrange(6, t.len() - 1)
}

/// `t` is a raw-line tag with a payload: `IONotify(` ... `)`.
pub open spec fn is_ionotify_form(t: Seq<char>) -> bool {
    t.len() >= 10 && has_prefix(t, "IONotify("@) && t.last() == ')'
}

/// The payload between the parentheses of a raw-line tag.
pub open spec fn ionotify_msg(t: Seq<char>) -> Seq<char> {
    t.subrange(9, t.len() - 1)
}

/// A non-empty run of decimal digits whose value fits a `u16`.
pub open spec fn u16_digits(d: Seq<char>) -> bool {
    d.len() >= 1 && all_digits(d) && digits_val(d) <= u16::MAX as nat
}

/// The comma at `k` splits the resize payload into two such runs.
pub open spec fn resize_split_at(t: Seq<char>, k: int) -> bool {
    7 <= k < t.len() - 1 && t[k] == ',' && u16_digits(t.subrange(7, k)) && u16_digits(
        t.subrange(k + 1, t.len() - 1),
    )
}

/// `t` is a resize tag: `Resize(` width `,` height `)` with both
/// numbers fitting a `u16`.
pub open spec fn is_resize_form(t: Seq<char>) -> bool {
    t.len() >= 9 && has_prefix(t, "Resize("@) && t.last() == ')' && exists|k: int|
        resize_split_at(t, k)
}

/// The width of a resize tag.
pub open spec fn resize_w(t: Seq<char>) -> nat {
    digits_val(t.subrange(7, choose|k: int| resize_split_at(t, k)))
}

/// The height of a resize tag.
pub open spec fn resize_h(t: Seq<char>) -> nat {
    digits_val(t.subrange((choose|k: int| resize_split_at(t, k)) + 1, t.len() - 1))
}

/// `a` is what the text `t` denotes under the codec.
pub open spec fn parses_to(t: Seq<char>, a: Action) -> bool {
    ||| simple_action_of(t) == Some(a)
    ||| is_error_form(t) && (a matches Action::Error(m) && m@ == error_msg(t))
    ||| is_ionotify_form(t) && (a matches Action::IONotify(m) && m@ == ionotify_msg(t))
    ||| is_resize_form(t) && (a matches Action::Resize(w, h) && w as nat == resize_w(t) && h as nat
        == resize_h(t))
}

/// `t` denotes some action under the codec.
pub open spec fn parsable(t: Seq<char>) -> bool {
    ||| simple_action_of(t) is Some
    ||| is_error_form(t)
    ||| is_ionotify_form(t)
    ||| is_resize_form(t)
}

/// Read an action back from its textual representation: the ten
/// payload-free tags by name, and the `Error(reason)`, `IONotify(line)`
/// and `Resize(w,h)` forms with their payloads.  `None` exactly when
/// the text denotes no action; a malformed text is rejected, never
/// guessed at.
pub fn parse_action(s: &str) -> (r: Option<Action>)
    ensures
        match r {
            Some(a) => parses_to(s@, a),
            None => !parsable(s@),
        },
{
    if str_eq(s, "Tick") {
        return Some(Action::Tick);
    }
    if str_eq(s, "Render") {
        return Some(Action::Render);
    }
    if str_eq(s, "Suspend") {
        return Some(Action::Suspend);
    }
    if str_eq(s, "Resume") {
        return Some(Action::Resume);
    }
    if str_eq(s, "Quit") {
        return Some(Action::Quit);
    }
    if str_eq(s, "Refresh") {
        return Some(Action::Refresh);
    }
    if str_eq(s, "Help") {
        return Some(Action::Help);
    }
    if str_eq(s, "EnterNormal") {
        return Some(Action::EnterNormal);
    }
    if str_eq(s, "EnterTakeAction") {
        return Some(Action::EnterTakeAction);
    }
    if str_eq(s, "StartupDone") {
        return Some(Action::StartupDone);
    }
    let n = s.unicode_len();
    if str_starts_with(s, "Error(") && n >= 7 {
        if s.get_char(n - 1) == ')' {
            let m = s.substring_char(6, n - 1);
            return Some(Action::Error(String::from_str(m)));
        }
    }
    if str_starts_with(s, "IONotify(") && n >= 10 {
        if s.get_char(n - 1) == ')' {
            let m = s.substring_char(9, n - 1);
            return Some(Action::IONotify(String::from_str(m)));
        }
    }
    if str_starts_with(s, "Resize(") && n >= 9 {
        if s.get_char(n - 1) == ')' {
            let mut k: usize = 7;
            let mut found = false;
            while k < n - 1 && !found
                invariant
                    n == s@.len(),
                    9 <= n,
                    7 <= k <= n - 1,
                    found ==> k < n - 1 && s@[k as int] == ',',
                    forall|j: int| 7 <= j < k ==> s@[j] != ',',
                decreases n - 1 - k, (if found { 0int } else { 1int }),
            {
                if s.get_char(k) == ',' {
                    found = true;
                } else {
                    k = k + 1;
                }
            }
            if found {
                let left = s.substring_char(7, k);
                let right = s.substring_char(k + 1, n - 1);
                match (parse_u16(left), parse_u16(right)) {
                    (Some(w), Some(h)) => {
                        proof {
                            assert(resize_split_at(s@, k as int));
                            let k0 = choose|k0: int| resize_split_at(s@, k0);
                            if k0 < k {
                                assert(s@[k0] != ',');
                            } else if k0 > k {
                                assert(all_digits(s@.subrange(7, k0)));
                                assert(s@.subrange(7, k0)[k - 7] == s@[k as int]);
                            }
                            assert(k0 == k);
                        }
                        return Some(Action::Resize(w, h));
                    },
                    _ => {
                        proof {
                            assert forall|k0: int| !resize_split_at(s@, k0) by {
                                if 7 <= k0 < s@.len() - 1 {
                                    if k0 < k {
                                        assert(s@[k0] != ',');
                                    } else if k0 == k {
                                        assert(!(u16_digits(s@.subrange(7, k as int))
                                            && u16_digits(
                                            s@.subrange(k + 1, s@.len() - 1),
                                        )));
                                    } else {
                                        if resize_split_at(s@, k0) {
                                            assert(all_digits(s@.subrange(7, k0)));
                                            assert(s@.subrange(7, k0)[k - 7] == s@[k as int]);
                                            assert(false);
                                        }
                                    }
                                }
                            };
                        }
                    },
                }
            } else {
                proof {
                    assert forall|k0: int| !resize_split_at(s@, k0) by {
                        if 7 <= k0 < s@.len() - 1 {
                            assert(s@[k0] != ',');
                        }
                    };
                }
            }
        }
    }
    None
}

} // verus!
