use reportas::{
    single_report, Error, NewReport, QueryPlan, QueryType, Report, ReportDeactivateRequest,
    ReportHandler, ReportQuery, ReportRequest, StoreError, Transporter,
};

/// A table of reports standing in for the store: ids are handed out in order.
struct Table {
    rows: Vec<Report>,
    next_id: i64,
}

impl Table {
    fn new() -> Table {
        Table { rows: Vec::new(), next_id: 1 }
    }

    fn insert(&mut self, new: &NewReport) -> i64 {
        let id = self.next_id;
        self.next_id += 1;
        self.rows.push(Report {
            id,
            active: new.active,
            timestamp: new.timestamp,
            reporter: new.reporter.clone(),
            reported: new.reported.clone(),
            handler: None,
            handle_ts: None,
            comment: None,
            description: new.description.clone(),
            tags: new.tags.clone(),
        });
        id
    }

    fn update(&mut self, r: &Report) {
        for row in self.rows.iter_mut() {
            if row.id == r.id {
                *row = r.clone();
            }
        }
    }

    fn select(&self, q: &QueryType) -> Vec<Report> {
        self.rows.iter().filter(|r| q.accepts(r)).cloned().collect()
    }
}

fn request(reporter: &str, reported: &str, desc: &str, tags: &str) -> ReportRequest {
    ReportRequest {
        reporter: reporter.to_string(),
        reported: reported.to_string(),
        desc: desc.to_string(),
        tags: tags.to_string(),
    }
}

fn report(id: i64, active: bool, timestamp: i64, reporter: &str) -> Report {
    Report {
        id,
        active,
        timestamp,
        reporter: reporter.to_string(),
        reported: "target".to_string(),
        handler: if active { None } else { Some("op".to_string()) },
        handle_ts: if active { None } else { Some(timestamp + 10) },
        comment: None,
        description: "text".to_string(),
        tags: None,
    }
}

fn by_id(id: i64) -> ReportQuery {
    ReportQuery { query: String::new(), id }
}

fn text(q: &str) -> ReportQuery {
    ReportQuery { query: q.to_string(), id: 0 }
}

/// Runs a query as a server would: from the cache, else from the table.
fn run_query(h: &mut ReportHandler, table: &Table, plan: QueryPlan) -> Vec<Report> {
    match plan {
        QueryPlan::Served(rows) => rows,
        QueryPlan::AskStore(q) => h.store_answer(Ok(table.select(&q))).unwrap(),
    }
}

#[test]
fn submit_query_deactivate_scenario() {
    let mut h = ReportHandler::new();
    let mut table = Table::new();

    let new = ReportHandler::new_report(&request("u1", "u2", "spam", "abuse"));
    let id = table.insert(&new);
    let rep = h.submit_report(new, Ok(id)).unwrap();
    let next = Transporter::new(Vec::new()).start();
    let rep = ReportHandler::conclude(rep, next).unwrap();
    assert!(rep.active);
    assert_eq!(rep.id, id);
    assert_eq!(rep.tags, Some("abuse".to_string()));

    let plan = h.query_reports_by_id(by_id(id));
    assert_eq!(plan, QueryPlan::Served(vec![rep.clone()]));
    let found = single_report(run_query(&mut h, &table, plan)).unwrap();
    assert_eq!(found, rep);

    let req = ReportDeactivateRequest {
        id,
        operator: "mod1".to_string(),
        comment: Some("resolved".to_string()),
    };
    let updated = ReportHandler::deactivation(Some(found), &req).unwrap();
    table.update(&updated);
    let done = h.deactivate_report(updated, Ok(())).unwrap();
    assert!(!done.active);
    assert_eq!(done.handler, Some("mod1".to_string()));
    assert_eq!(done.comment, Some("resolved".to_string()));
    assert!(done.handle_ts.unwrap() >= done.timestamp);

    let plan = h.query_reports_by_id(by_id(id));
    let again = single_report(run_query(&mut h, &table, plan)).unwrap();
    assert_eq!(again, done);
    assert_eq!(
        ReportHandler::deactivation(Some(again), &req),
        Err(Error::AlreadyDeactivated)
    );
}

#[test]
fn new_report_is_active_and_untagged_when_tags_empty() {
    let n = ReportHandler::new_report_at(&request("a", "b", "d", ""), 100);
    assert_eq!(
        n,
        NewReport {
            active: true,
            timestamp: 100,
            reporter: "a".to_string(),
            reported: "b".to_string(),
            description: "d".to_string(),
            tags: None,
        }
    );
}

#[test]
fn new_report_takes_the_current_time() {
    let n = ReportHandler::new_report(&request("a", "b", "d", "x"));
    assert!(n.timestamp > 1_600_000_000);
    assert_eq!(n.tags, Some("x".to_string()));
}

#[test]
fn submitted_report_has_no_deactivation_fields() {
    let mut h = ReportHandler::new();
    let new = ReportHandler::new_report_at(&request("a", "b", "d", ""), 5);
    let rep = h.submit_report(new, Ok(42)).unwrap();
    assert_eq!(rep.id, 42);
    assert!(rep.active);
    assert_eq!(rep.handler, None);
    assert_eq!(rep.handle_ts, None);
    assert_eq!(rep.comment, None);
    assert_eq!(h.cache().matching(&QueryType::ById(42)), vec![rep]);
}

#[test]
fn store_failure_on_submit_caches_nothing() {
    let mut h = ReportHandler::new();
    let new = ReportHandler::new_report_at(&request("a", "b", "d", ""), 5);
    assert_eq!(h.submit_report(new, Err(StoreError)), Err(Error::DatabaseFailed));
    assert!(h.cache().matching(&QueryType::ALL).is_empty());
}

#[test]
fn deactivate_twice_is_refused() {
    let current = report(3, true, 50, "r");
    let req = ReportDeactivateRequest { id: 3, operator: "op".to_string(), comment: None };
    let first = ReportHandler::deactivation_at(Some(current), &req, 80).unwrap();
    assert!(!first.active);
    assert_eq!(first.handle_ts, Some(80));
    assert_eq!(
        ReportHandler::deactivation_at(Some(first.clone()), &req, 90),
        Err(Error::AlreadyDeactivated)
    );
}

#[test]
fn deactivate_unknown_id_is_not_found() {
    let req = ReportDeactivateRequest { id: 9, operator: "op".to_string(), comment: None };
    assert_eq!(ReportHandler::deactivation_at(None, &req, 1), Err(Error::NotFound));
    let other = report(8, true, 1, "r");
    assert_eq!(ReportHandler::deactivation_at(Some(other), &req, 1), Err(Error::NotFound));
}

#[test]
fn deactivation_keeps_comment_when_none_given_and_never_precedes_creation() {
    let mut current = report(4, true, 500, "r");
    current.comment = Some("earlier".to_string());
    let req = ReportDeactivateRequest { id: 4, operator: "op".to_string(), comment: None };
    let r = ReportHandler::deactivation_at(Some(current), &req, 100).unwrap();
    assert_eq!(r.comment, Some("earlier".to_string()));
    assert_eq!(r.handle_ts, Some(500));
    assert_eq!(r.handler, Some("op".to_string()));
}

#[test]
fn store_failure_on_deactivate_keeps_cache() {
    let mut h = ReportHandler::new();
    let before = report(1, true, 10, "r");
    h.load_to_cache(&vec![before.clone()], true);
    let after = report(1, false, 10, "r");
    assert_eq!(h.deactivate_report(after, Err(StoreError)), Err(Error::DatabaseFailed));
    assert_eq!(h.cache().matching(&QueryType::ById(1)), vec![before]);
}

#[test]
fn empty_cache_match_falls_through_to_store() {
    let mut h = ReportHandler::new();
    let mut table = Table::new();
    let new = ReportHandler::new_report_at(&request("seed", "b", "d", ""), 7);
    let id = table.insert(&new);
    let plan = h.query_reports_by_reporter(text("seed"));
    assert_eq!(plan, QueryPlan::AskStore(QueryType::ByReporter("seed".to_string())));
    let rows = run_query(&mut h, &table, plan);
    assert_eq!(rows.len(), 1);
    assert_eq!(rows[0].id, id);
    // The store's rows are now cached.
    assert_eq!(h.query_reports_by_reporter(text("seed")), QueryPlan::Served(rows));
}

#[test]
fn store_error_on_query_is_database_failed() {
    let mut h = ReportHandler::new();
    assert_eq!(h.store_answer(Err(StoreError)), Err(Error::DatabaseFailed));
}

#[test]
fn timestamp_filter_is_at_or_before() {
    let mut h = ReportHandler::new();
    h.load_to_cache(
        &vec![report(1, true, 10, "a"), report(2, true, 20, "a"), report(3, true, 30, "a")],
        true,
    );
    match h.query_reports_by_timestamp(text("20")).unwrap() {
        QueryPlan::Served(rows) => {
            let ids: Vec<i64> = rows.iter().map(|r| r.id).collect();
            assert_eq!(ids, vec![1, 2]);
        }
        other => panic!("unexpected {:?}", other),
    }
    assert_eq!(
        h.query_reports_by_timestamp(text("5")).unwrap(),
        QueryPlan::AskStore(QueryType::ByTimestamp(5))
    );
    assert_eq!(
        h.query_reports_by_timestamp(text("-7")).unwrap(),
        QueryPlan::AskStore(QueryType::ByTimestamp(-7))
    );
}

#[test]
fn bad_timestamps_are_invalid() {
    let mut h = ReportHandler::new();
    assert_eq!(h.query_reports_by_timestamp(text("abc")), Err(Error::InvalidTimestamp));
    assert_eq!(h.query_reports_by_timestamp(text("")), Err(Error::InvalidTimestamp));
    assert_eq!(
        h.query_reports_by_handle_timestamp(text("99999999999999999999")),
        Err(Error::InvalidTimestamp)
    );
    assert_eq!(h.query_reports_by_handle_timestamp(text("1.5")), Err(Error::InvalidTimestamp));
}

#[test]
fn handle_timestamp_filter_skips_active_reports() {
    let mut h = ReportHandler::new();
    h.load_to_cache(&vec![report(1, true, 10, "a"), report(2, false, 10, "a")], true);
    match h.query_reports_by_handle_timestamp(text("+25")).unwrap() {
        QueryPlan::Served(rows) => {
            assert_eq!(rows.len(), 1);
            assert_eq!(rows[0].id, 2);
        }
        other => panic!("unexpected {:?}", other),
    }
}

#[test]
fn active_filter_and_active_only_load() {
    let mut h = ReportHandler::new();
    h.load_to_cache(&vec![report(1, true, 10, "a"), report(2, false, 10, "a")], false);
    assert_eq!(h.cache().matching(&QueryType::ALL), vec![report(1, true, 10, "a")]);
    match h.query_reports_by_active() {
        QueryPlan::Served(rows) => assert_eq!(rows, vec![report(1, true, 10, "a")]),
        other => panic!("unexpected {:?}", other),
    }
}

#[test]
fn lookup_by_id_gives_at_most_one() {
    let mut h = ReportHandler::new();
    h.load_to_cache(&vec![report(1, true, 10, "a"), report(2, true, 10, "a")], true);
    assert_eq!(h.query_reports_by_id(by_id(2)), QueryPlan::Served(vec![report(2, true, 10, "a")]));
    assert_eq!(h.query_reports_by_id(by_id(5)), QueryPlan::AskStore(QueryType::ById(5)));
    assert_eq!(single_report(Vec::new()), Err(Error::NotFound));
}

#[test]
fn insert_overwrites_same_id() {
    let mut h = ReportHandler::new();
    h.load_to_cache(&vec![report(1, true, 10, "a"), report(1, true, 10, "b")], true);
    assert_eq!(h.cache().matching(&QueryType::ALL), vec![report(1, true, 10, "b")]);
}

#[test]
fn handler_and_reported_filters() {
    let mut h = ReportHandler::new();
    h.load_to_cache(&vec![report(1, true, 10, "a"), report(2, false, 10, "a")], true);
    match h.query_reports_by_handler(text("op")) {
        QueryPlan::Served(rows) => assert_eq!(rows, vec![report(2, false, 10, "a")]),
        other => panic!("unexpected {:?}", other),
    }
    match h.query_reports_by_reported(text("target")) {
        QueryPlan::Served(rows) => assert_eq!(rows.len(), 2),
        other => panic!("unexpected {:?}", other),
    }
    assert_eq!(
        h.query_reports_by_handler(text("nobody")),
        QueryPlan::AskStore(QueryType::ByHandler("nobody".to_string()))
    );
    match h.query_all_reports() {
        QueryPlan::Served(rows) => assert_eq!(rows.len(), 2),
        other => panic!("unexpected {:?}", other),
    }
}

#[test]
fn read_after_write_from_cache_or_store() {
    let mut h = ReportHandler::new();
    let mut table = Table::new();
    let new = ReportHandler::new_report_at(&request("u1", "u2", "spam", ""), 40);
    let id = table.insert(&new);
    let rep = h.submit_report(new, Ok(id)).unwrap();
    let req = ReportDeactivateRequest { id, operator: "op".to_string(), comment: None };
    let updated = ReportHandler::deactivation_at(Some(rep), &req, 60).unwrap();
    table.update(&updated);
    let done = h.deactivate_report(updated, Ok(())).unwrap();

    // Served by the cache.
    let plan = h.query_reports_by_id(by_id(id));
    assert_eq!(plan, QueryPlan::Served(vec![done.clone()]));

    // Served by the store, to a handler whose cache was dropped.
    let mut fresh = ReportHandler::new();
    let plan = fresh.query_reports_by_id(by_id(id));
    assert_eq!(plan, QueryPlan::AskStore(QueryType::ById(id)));
    assert_eq!(run_query(&mut fresh, &table, plan), vec![done]);
}
