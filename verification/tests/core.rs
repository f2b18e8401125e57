use ipwatch::action::Action;
use ipwatch::ingest::{build_ip_record, extract_first_ipv4};
use ipwatch::pipeline::{Effect, Mode, Startup};
use ipwatch::schema::{GeoResponse, IP};
use ipwatch::sched::{
    schedule_first_loglist, schedule_generic_action, schedule_last_loglist, schedule_next_iplist,
    schedule_next_loglist, schedule_previous_iplist, schedule_previous_loglist,
};
use ipwatch::text::{parse_u16, str_contains, str_eq, str_starts_with};

fn example_response() -> GeoResponse {
    GeoResponse {
        query: Some(String::from("203.0.113.7")),
        lat: Some(String::from("1.0")),
        lon: Some(String::from("2.0")),
        isp: Some(String::from("ExampleISP")),
        country: Some(String::from("Exampleland")),
        city: Some(String::from("Exampletown")),
        countrycode: Some(String::from("EX")),
        regionname: Some(String::from("ExRegion")),
    }
}

fn journal_line() -> String {
    String::from("Mar 1 00:00:01 host sshd: Failed password for root from 203.0.113.7 port 22 ssh2")
}

/// Run one full first-sight ingestion of the example journal line and
/// return the component afterwards.
fn ingest_example_line(is_banned: bool) -> Startup {
    let now = String::from("2024-03-01 00:00:01");
    let mut s = Startup::new();
    let e = s.update(Action::IONotify(journal_line()), &now);
    let (ip, line) = match e {
        Effect::Probe { ip, line } => (ip, line),
        other => panic!("expected a probe effect, got {:?}", other),
    };
    assert_eq!(ip, "203.0.113.7");
    let e = s.after_probe(ip, line, is_banned);
    let (ip, line, is_banned) = match e {
        Effect::Enrich { ip, line, is_banned } => (ip, line, is_banned),
        other => panic!("expected an enrichment effect, got {:?}", other),
    };
    assert_eq!(ip, "203.0.113.7");
    let rec = build_ip_record(&example_response(), is_banned, &now).expect("complete response");
    let e = s.update(Action::GotGeo(rec, line, false), &now);
    assert_eq!(e, Effect::Quiet);
    s
}

#[test]
fn no_ip_line_is_discarded() {
    let now = String::from("2024-03-01 00:00:01");
    let mut s = Startup::new();
    let e = s.update(
        Action::IONotify(String::from("Mar 1 00:00:01 host sshd: something harmless")),
        &now,
    );
    assert_eq!(e, Effect::Quiet);
    assert!(s.db.messages.is_empty());
    assert!(s.db.ips.is_empty());
}

#[test]
fn first_sight_creates_all_rows() {
    let s = ingest_example_line(false);
    let key = String::from("203.0.113.7");
    let row = s.db.get_ip(&key).expect("address row");
    assert_eq!(row.warnings, 1);
    assert_eq!(row.banned_times, 0);
    assert!(!row.is_banned);
    assert_eq!(row.lat, "1.0");
    assert_eq!(row.lon, "2.0");
    let isp = s.db.get_isp(&String::from("ExampleISP")).expect("isp row");
    assert_eq!(isp.warnings, 1);
    assert_eq!(isp.banned, 0);
    let country = s.db.get_country(&String::from("Exampleland")).expect("country row");
    assert_eq!(country.warnings, 1);
    assert_eq!(country.banned, 0);
    assert_eq!(country.code, "EX");
    let region = s
        .db
        .get_region(&String::from("ExRegion"), &String::from("Exampleland"))
        .expect("region row");
    assert_eq!(region.warnings, 1);
    assert_eq!(region.banned, 0);
    let city = s
        .db
        .get_city(
            &String::from("Exampletown"),
            &String::from("Exampleland"),
            &String::from("ExRegion"),
        )
        .expect("city row");
    assert_eq!(city.warnings, 1);
    assert_eq!(city.banned, 0);
    assert_eq!(s.db.messages.len(), 1);
    let msg = &s.db.messages[0];
    assert!(msg.is_jctl);
    assert!(!msg.is_ban);
    assert_eq!(msg.ip, "203.0.113.7");
    assert_eq!(msg.text, journal_line());
}

#[test]
fn first_sight_banned_counts_one_ban_everywhere() {
    let s = ingest_example_line(true);
    let row = s.db.get_ip(&String::from("203.0.113.7")).expect("address row");
    assert_eq!(row.banned_times, 1);
    assert!(row.is_banned);
    assert_eq!(s.db.get_isp(&String::from("ExampleISP")).unwrap().banned, 1);
    assert_eq!(s.db.get_country(&String::from("Exampleland")).unwrap().banned, 1);
    assert_eq!(
        s.db.get_region(&String::from("ExRegion"), &String::from("Exampleland")).unwrap().banned,
        1
    );
    assert_eq!(
        s.db
            .get_city(
                &String::from("Exampletown"),
                &String::from("Exampleland"),
                &String::from("ExRegion"),
            )
            .unwrap()
            .banned,
        1
    );
}

#[test]
fn repeat_sight_bumps_only_the_address_warnings() {
    let now = String::from("2024-03-01 00:00:02");
    let mut s = ingest_example_line(false);
    let e = s.update(Action::IONotify(journal_line()), &now);
    let (ip, line) = match e {
        Effect::Probe { ip, line } => (ip, line),
        other => panic!("expected a probe effect, got {:?}", other),
    };
    let e = s.after_probe(ip, line, false);
    let (rec, line, from_store) = match e {
        Effect::Emit(Action::GotGeo(rec, line, from_store)) => (rec, line, from_store),
        other => panic!("expected a replayed record, got {:?}", other),
    };
    assert!(from_store);
    let e = s.update(Action::GotGeo(rec, line, from_store), &now);
    assert_eq!(e, Effect::Quiet);
    let row = s.db.get_ip(&String::from("203.0.113.7")).expect("address row");
    assert_eq!(row.warnings, 2);
    assert_eq!(s.db.get_isp(&String::from("ExampleISP")).unwrap().warnings, 1);
    assert_eq!(s.db.get_country(&String::from("Exampleland")).unwrap().warnings, 1);
    assert_eq!(
        s.db.get_region(&String::from("ExRegion"), &String::from("Exampleland")).unwrap().warnings,
        1
    );
    assert_eq!(
        s.db
            .get_city(
                &String::from("Exampletown"),
                &String::from("Exampleland"),
                &String::from("ExRegion"),
            )
            .unwrap()
            .warnings,
        1
    );
    assert_eq!(s.db.messages.len(), 2);
}

#[test]
fn cache_hit_never_asks_for_enrichment() {
    let mut s = ingest_example_line(false);
    let e = s.after_probe(String::from("203.0.113.7"), journal_line(), false);
    assert!(!matches!(e, Effect::Enrich { .. }));
    match e {
        Effect::Emit(Action::GotGeo(rec, _, from_store)) => {
            assert!(from_store);
            assert_eq!(rec.isp, "ExampleISP");
        },
        other => panic!("a stored address must replay its record, got {:?}", other),
    }
}

#[test]
fn intrusion_tool_line_is_classified() {
    let now = String::from("2024-03-01 00:00:03");
    let mut s = Startup::new();
    let line = String::from("++++ 2024-03-01 Ban 198.51.100.9 ++++");
    let e = s.update(Action::IONotify(line.clone()), &now);
    let (ip, line) = match e {
        Effect::Probe { ip, line } => (ip, line),
        other => panic!("expected a probe effect, got {:?}", other),
    };
    assert_eq!(ip, "198.51.100.9");
    let e = s.after_probe(ip, line, true);
    let (ip, line, is_banned) = match e {
        Effect::Enrich { ip, line, is_banned } => (ip, line, is_banned),
        other => panic!("expected an enrichment effect, got {:?}", other),
    };
    assert!(is_banned);
    let resp = GeoResponse { query: Some(ip.clone()), ..example_response() };
    let rec = build_ip_record(&resp, is_banned, &now).unwrap();
    s.update(Action::GotGeo(rec, line, false), &now);
    assert_eq!(s.db.messages.len(), 1);
    let msg = &s.db.messages[0];
    assert!(!msg.is_jctl);
    assert!(msg.is_ban);
}

#[test]
fn clear_needs_confirmation_and_then_empties_everything() {
    let now = String::from("2024-03-01 00:00:04");
    let mut s = ingest_example_line(false);
    assert!(!s.db.ips.is_empty());
    let e = s.update(Action::ClearLists, &now);
    assert_eq!(e, Effect::Quiet);
    assert!(!s.db.ips.is_empty());
    let e = s.update(Action::ConfirmedClearLists, &now);
    assert_eq!(e, Effect::Quiet);
    assert!(s.db.ips.is_empty());
    assert!(s.db.isps.is_empty());
    assert!(s.db.countries.is_empty());
    assert!(s.db.regions.is_empty());
    assert!(s.db.cities.is_empty());
    assert!(s.db.messages.is_empty());
}

#[test]
fn aborted_clear_changes_nothing() {
    let now = String::from("2024-03-01 00:00:05");
    let mut s = ingest_example_line(false);
    s.update(Action::ClearLists, &now);
    let e = s.update(Action::AbortClearLists, &now);
    assert_eq!(e, Effect::Quiet);
    assert_eq!(s.db.ips.len(), 1);
    assert_eq!(s.db.messages.len(), 1);
    let e = s.update(Action::ConfirmedClearLists, &now);
    assert_eq!(e, Effect::Quiet);
    assert_eq!(s.db.ips.len(), 1, "an aborted reset must stay aborted");
}

#[test]
fn ban_transition_counts_once() {
    let now = String::from("2024-03-01 00:00:06");
    let mut s = ingest_example_line(false);
    let row = s.db.get_ip(&String::from("203.0.113.7")).unwrap();
    let e = s.update(Action::BanIP(row), &now);
    assert_eq!(e, Effect::ExecBan(String::from("203.0.113.7")));
    s.update(Action::Banned(true), &now);
    let row = s.db.get_ip(&String::from("203.0.113.7")).unwrap();
    assert!(row.is_banned);
    assert_eq!(row.banned_times, 1);
    // a second request for the same, already banned address
    let row2 = s.db.get_ip(&String::from("203.0.113.7")).unwrap();
    s.update(Action::BanIP(row2), &now);
    s.update(Action::Banned(true), &now);
    let row = s.db.get_ip(&String::from("203.0.113.7")).unwrap();
    assert!(row.is_banned);
    assert_eq!(row.banned_times, 1, "re-banning a banned address counts nothing");
}

#[test]
fn failed_ban_changes_nothing() {
    let now = String::from("2024-03-01 00:00:07");
    let mut s = ingest_example_line(false);
    let row = s.db.get_ip(&String::from("203.0.113.7")).unwrap();
    s.update(Action::BanIP(row), &now);
    s.update(Action::Banned(false), &now);
    let row = s.db.get_ip(&String::from("203.0.113.7")).unwrap();
    assert!(!row.is_banned);
    assert_eq!(row.banned_times, 0);
}

#[test]
fn unban_keeps_the_ban_history() {
    let now = String::from("2024-03-01 00:00:08");
    let mut s = ingest_example_line(false);
    let row = s.db.get_ip(&String::from("203.0.113.7")).unwrap();
    s.update(Action::BanIP(row), &now);
    s.update(Action::Banned(true), &now);
    let row = s.db.get_ip(&String::from("203.0.113.7")).unwrap();
    let e = s.update(Action::UnbanIP(row), &now);
    assert_eq!(e, Effect::ExecUnban(String::from("203.0.113.7")));
    s.update(Action::Unbanned(true), &now);
    let row = s.db.get_ip(&String::from("203.0.113.7")).unwrap();
    assert!(!row.is_banned);
    assert_eq!(row.banned_times, 1);
}

#[test]
fn unrouted_actions_are_no_ops() {
    let now = String::from("2024-03-01 00:00:09");
    let mut s = ingest_example_line(false);
    for a in [Action::Help, Action::Quit, Action::StatsShow, Action::IPsNext] {
        let e = s.update(a, &now);
        assert_eq!(e, Effect::Quiet);
    }
    assert_eq!(s.db.ips.len(), 1);
    assert_eq!(s.db.messages.len(), 1);
}

#[test]
fn scheduled_actions_are_bracketed() {
    let v = schedule_generic_action(Action::LogsNext);
    assert_eq!(
        v,
        vec![Action::EnterProcessing, Action::LogsNext, Action::ExitProcessing]
    );
    assert_eq!(schedule_next_loglist()[1], Action::LogsNext);
    assert_eq!(schedule_previous_loglist()[1], Action::LogsPrevious);
    assert_eq!(schedule_first_loglist()[1], Action::LogsFirst);
    assert_eq!(schedule_last_loglist()[1], Action::LogsLast);
    assert_eq!(schedule_next_iplist()[1], Action::IPsNext);
    assert_eq!(schedule_previous_iplist()[1], Action::IPsPrevious);
    for v in [
        schedule_next_loglist(),
        schedule_previous_loglist(),
        schedule_first_loglist(),
        schedule_last_loglist(),
        schedule_next_iplist(),
        schedule_previous_iplist(),
    ] {
        assert_eq!(v.len(), 3);
        assert_eq!(v[0], Action::EnterProcessing);
        assert_eq!(v[2], Action::ExitProcessing);
    }
}

#[test]
fn startup_finishes_after_enough_ticks_and_frames() {
    let mut s = Startup::new();
    for _ in 0..13 {
        s.tick();
    }
    assert_eq!(s.num_ticks, 13);
    let mut done = None;
    for _ in 0..13 {
        done = s.render_tick();
    }
    assert_eq!(done, Some(Action::StartupDone));
    assert_eq!(s.mode, Mode::Done);
    assert_eq!(s.elapsed_frames, 0);
    assert_eq!(s.render_ticker, 13);
}

#[test]
fn connect_logs_and_asks_for_the_store() {
    let now = String::from("2024-03-01 00:00:10");
    let mut s = Startup::new();
    let e = s.update(Action::StartupConnect, &now);
    assert_eq!(e, Effect::OpenStore);
    assert_eq!(s.log_messages.len(), 1);
    assert_eq!(
        s.log_messages[0],
        "2024-03-01 00:00:10            Connecting to db"
    );
}

#[test]
fn extraction_finds_the_first_address_shape() {
    assert_eq!(
        extract_first_ipv4("Failed password from 203.0.113.7 port 22"),
        Some(String::from("203.0.113.7"))
    );
    assert_eq!(extract_first_ipv4("no address in here"), None);
    assert_eq!(extract_first_ipv4("empty"), None);
    assert_eq!(
        extract_first_ipv4("two 10.0.0.1 and 10.0.0.2"),
        Some(String::from("10.0.0.1"))
    );
    // a too-long first group shifts the match one position right
    assert_eq!(
        extract_first_ipv4("x 1234.5.6.7 y"),
        Some(String::from("234.5.6.7"))
    );
    // the final group takes at most three digits
    assert_eq!(
        extract_first_ipv4("1.2.3.45678"),
        Some(String::from("1.2.3.456"))
    );
    assert_eq!(extract_first_ipv4("1.2.3"), None);
    assert_eq!(extract_first_ipv4("1..2.3.4"), None);
}

#[test]
fn record_building_requires_every_field() {
    let now = String::from("2024-03-01 00:00:11");
    let rec = build_ip_record(&example_response(), false, &now).unwrap();
    assert_eq!(rec.ip, "203.0.113.7");
    assert_eq!(rec.created_at, now);
    assert_eq!(rec.isp, "ExampleISP");
    assert_eq!(rec.country, "Exampleland");
    assert_eq!(rec.countrycode, "EX");
    assert_eq!(rec.city, "Exampletown");
    assert_eq!(rec.region, "ExRegion");
    assert_eq!(rec.warnings, 1);
    assert_eq!(rec.banned_times, 0);
    let incomplete = GeoResponse { lat: None, ..example_response() };
    assert!(build_ip_record(&incomplete, false, &now).is_none());
    let incomplete = GeoResponse { regionname: None, ..example_response() };
    assert!(build_ip_record(&incomplete, true, &now).is_none());
}

#[test]
fn parse_reads_the_simple_tags() {
    assert_eq!(ipwatch::action::parse_action("Tick"), Some(Action::Tick));
    assert_eq!(ipwatch::action::parse_action("Render"), Some(Action::Render));
    assert_eq!(ipwatch::action::parse_action("Suspend"), Some(Action::Suspend));
    assert_eq!(ipwatch::action::parse_action("Resume"), Some(Action::Resume));
    assert_eq!(ipwatch::action::parse_action("Quit"), Some(Action::Quit));
    assert_eq!(ipwatch::action::parse_action("Refresh"), Some(Action::Refresh));
    assert_eq!(ipwatch::action::parse_action("Help"), Some(Action::Help));
    assert_eq!(ipwatch::action::parse_action("EnterNormal"), Some(Action::EnterNormal));
    assert_eq!(
        ipwatch::action::parse_action("EnterTakeAction"),
        Some(Action::EnterTakeAction)
    );
    assert_eq!(ipwatch::action::parse_action("StartupDone"), Some(Action::StartupDone));
    assert_eq!(ipwatch::action::parse_action("Bogus"), None);
    assert_eq!(ipwatch::action::parse_action(""), None);
}

#[test]
fn parse_reads_the_payload_forms() {
    assert_eq!(
        ipwatch::action::parse_action("Error(something broke)"),
        Some(Action::Error(String::from("something broke")))
    );
    assert_eq!(
        ipwatch::action::parse_action("Error()"),
        Some(Action::Error(String::from("")))
    );
    assert_eq!(
        ipwatch::action::parse_action("IONotify(a raw line)"),
        Some(Action::IONotify(String::from("a raw line")))
    );
    assert_eq!(
        ipwatch::action::parse_action("Resize(100,50)"),
        Some(Action::Resize(100, 50))
    );
    assert_eq!(
        ipwatch::action::parse_action("Resize(65535,0)"),
        Some(Action::Resize(65535, 0))
    );
    assert_eq!(ipwatch::action::parse_action("Resize(65536,0)"), None);
    assert_eq!(ipwatch::action::parse_action("Resize(1,2,3)"), None);
    assert_eq!(ipwatch::action::parse_action("Resize(,2)"), None);
    assert_eq!(ipwatch::action::parse_action("Resize(1,)"), None);
    assert_eq!(ipwatch::action::parse_action("Resize(12)"), None);
    assert_eq!(ipwatch::action::parse_action("Error(unclosed"), None);
}

#[test]
fn text_helpers_behave() {
    assert!(str_eq("abc", "abc"));
    assert!(!str_eq("abc", "abd"));
    assert!(!str_eq("abc", "ab"));
    assert!(str_starts_with("Error(x)", "Error("));
    assert!(!str_starts_with("Err", "Error("));
    assert!(str_contains("a ++++ b", "++++"));
    assert!(!str_contains("a +++ b", "++++"));
    assert!(str_contains("Ban", "Ban"));
    assert_eq!(parse_u16("0"), Some(0));
    assert_eq!(parse_u16("65535"), Some(65535));
    assert_eq!(parse_u16("65536"), None);
    assert_eq!(parse_u16(""), None);
    assert_eq!(parse_u16("12a"), None);
}

#[test]
fn stats_group_messages_by_dimension() {
    let now = String::from("2024-03-01 00:00:12");
    let mut s = ingest_example_line(false);
    // a second address in another country
    let line = String::from("Failed password from 198.51.100.9");
    let resp = GeoResponse {
        query: Some(String::from("198.51.100.9")),
        isp: Some(String::from("OtherISP")),
        country: Some(String::from("Otherland")),
        city: Some(String::from("Othertown")),
        countrycode: Some(String::from("OT")),
        regionname: Some(String::from("OtherRegion")),
        ..example_response()
    };
    let rec = build_ip_record(&resp, false, &now).unwrap();
    s.update(Action::GotGeo(rec, line, false), &now);
    let in_example = s.db.messages_for_country(&String::from("Exampleland"));
    assert_eq!(in_example.len(), 1);
    assert_eq!(in_example[0].ip, "203.0.113.7");
    let in_other = s.db.messages_for_country(&String::from("Otherland"));
    assert_eq!(in_other.len(), 1);
    assert_eq!(in_other[0].ip, "198.51.100.9");
    assert_eq!(s.db.messages_for_isp(&String::from("ExampleISP")).len(), 1);
    assert_eq!(
        s.db
            .messages_for_region(&String::from("ExRegion"), &String::from("Exampleland"))
            .len(),
        1
    );
    assert_eq!(
        s.db
            .messages_for_city(
                &String::from("Exampletown"),
                &String::from("Exampleland"),
                &String::from("ExRegion"),
            )
            .len(),
        1
    );
    let blocked: Vec<IP> = s.db.ips_in_country(&String::from("Otherland"));
    assert_eq!(blocked.len(), 1);
    assert_eq!(blocked[0].ip, "198.51.100.9");
    assert_eq!(s.db.ips_in_isp(&String::from("ExampleISP")).len(), 1);
    assert_eq!(
        s.db.ips_in_region(&String::from("OtherRegion"), &String::from("Otherland")).len(),
        1
    );
    assert_eq!(
        s.db
            .ips_in_city(
                &String::from("Othertown"),
                &String::from("Otherland"),
                &String::from("OtherRegion"),
            )
            .len(),
        1
    );
}

#[test]
fn same_named_regions_of_two_countries_stay_distinct() {
    let now = String::from("2024-03-01 00:00:13");
    let mut s = Startup::new();
    let resp_a = GeoResponse {
        query: Some(String::from("203.0.113.1")),
        country: Some(String::from("Aland")),
        regionname: Some(String::from("Central")),
        ..example_response()
    };
    let resp_b = GeoResponse {
        query: Some(String::from("203.0.113.2")),
        country: Some(String::from("Bland")),
        regionname: Some(String::from("Central")),
        ..example_response()
    };
    let rec = build_ip_record(&resp_a, false, &now).unwrap();
    s.update(Action::GotGeo(rec, String::from("from 203.0.113.1"), false), &now);
    let rec = build_ip_record(&resp_b, false, &now).unwrap();
    s.update(Action::GotGeo(rec, String::from("from 203.0.113.2"), false), &now);
    let a = s.db.get_region(&String::from("Central"), &String::from("Aland")).unwrap();
    let b = s.db.get_region(&String::from("Central"), &String::from("Bland")).unwrap();
    assert_eq!(a.warnings, 1);
    assert_eq!(b.warnings, 1);
    assert_eq!(s.db.regions.len(), 2);
}
