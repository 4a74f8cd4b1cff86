use hnw::app::{App, Key, KeyCode};
use hnw::deletion::DeleteBatch;
use hnw::keys::{AfterRefresh, Command};
use hnw::model::{Analytics, AnalyticsTotals, Drive, DriveFile, ManifestEntry, Profile, Site};

fn site(slug: &str) -> Site {
    Site { slug: slug.into(), ..Default::default() }
}

fn drive(id: &str) -> Drive {
    Drive {
        id: id.into(),
        name: id.to_uppercase(),
        is_default: false,
        description: None,
        status: "ready".into(),
        head_version_id: None,
        dashboard_url: None,
        updated_at: None,
    }
}

fn profile() -> Profile {
    Profile {
        username: "ann".into(),
        enabled: true,
        add_new_sites_to_profile: false,
        url: "https://here.now/@ann".into(),
        feed_url: "https://here.now/@ann/feed".into(),
    }
}

#[test]
fn refresh_reselects_the_previous_site_and_drops_vanished_marks() {
    let mut app = App::new();
    app.sites = vec![site("a"), site("b"), site("c")];
    app.site_selection = Some(1);
    app.selected_sites.insert("a".into());
    app.selected_sites.insert("c".into());
    let previous = app.begin_refresh();
    assert_eq!(previous.as_deref(), Some("b"));
    assert_eq!(app.status, "Refreshing…");
    let next = app.apply_listings(
        previous,
        Ok(vec![site("new"), site("c"), site("b")]),
        Ok(vec![drive("d1")]),
        Ok(profile()),
    );
    assert_eq!(next.as_deref(), Some("b"));
    assert_eq!(app.site_selection, Some(2));
    assert_eq!(app.selected_sites.len(), 1);
    assert!(app.selected_sites.contains(&"c".to_owned()));
    assert_eq!(app.drive_selection, Some(0));
    assert!(app.error.is_none());
    let detail = Site { manifest: vec![ManifestEntry::default(), ManifestEntry::default()], ..site("b") };
    app.apply_refreshed_detail(&"b".to_owned(), Ok(detail));
    assert_eq!(app.status, "3 Sites · 1 Drives · 2 files in b");
    assert_eq!(app.site_detail.as_ref().map(|s| s.slug.as_str()), Some("b"));
}

#[test]
fn refresh_keeps_parts_that_failed_and_reports_the_last_error() {
    let mut app = App::new();
    app.sites = vec![site("a")];
    app.drives = vec![drive("d1"), drive("d2")];
    app.drive_selection = Some(1);
    app.begin_refresh();
    let next = app.apply_listings(None, Err("sites down".into()), Ok(vec![drive("d1")]), Err("no profile".into()));
    assert_eq!(app.sites.len(), 1);
    assert_eq!(app.drive_selection, Some(0));
    assert_eq!(app.error.as_deref(), Some("no profile"));
    assert_eq!(next.as_deref(), Some("a"));
    app.apply_refreshed_detail(&"a".to_owned(), Err("gone".into()));
    assert_eq!(app.status, "1 Sites · 1 Drives");
    assert_eq!(app.error.as_deref(), Some("gone"));
    assert!(app.site_detail.is_none());
}

#[test]
fn refresh_with_nothing_selected_shows_counts() {
    let mut app = App::new();
    let next = app.apply_listings(None, Ok(vec![]), Ok(vec![]), Ok(profile()));
    assert!(next.is_none());
    assert_eq!(app.site_selection, None);
    assert_eq!(app.status, "0 Sites · 0 Drives");
    assert_eq!(app.profile.as_ref().map(|p| p.username.as_str()), Some("ann"));
}

#[test]
fn search_results_replace_the_list() {
    let mut app = App::new();
    app.sites = vec![site("a")];
    app.selected_sites.insert("a".into());
    app.finish_search(&"blog".to_owned(), Ok(vec![site("x"), site("y")]));
    assert_eq!(app.status, "2 matches for “blog” · r clears");
    assert_eq!(app.site_selection, Some(0));
    assert!(app.selected_sites.is_empty());
    app.finish_search(&"none".to_owned(), Ok(vec![]));
    assert_eq!(app.site_selection, None);
    app.finish_search(&"err".to_owned(), Err("boom".into()));
    assert_eq!(app.error.as_deref(), Some("boom"));
}

#[test]
fn replies_set_their_status_or_error() {
    let mut app = App::new();
    match app.finish_rename(&"s".to_owned(), Ok(())) {
        Command::RefreshThen { then: AfterRefresh::LoadSiteDetail { slug } } => assert_eq!(slug, "s"),
        other => panic!("unexpected {other:?}"),
    }
    assert_eq!(app.status, "Renamed s");
    assert!(matches!(app.finish_rename(&"s".to_owned(), Err("denied".into())), Command::Nothing));
    assert_eq!(app.error.as_deref(), Some("denied"));
    app.begin_site_detail(&"s".to_owned());
    assert_eq!(app.status, "Loading s…");
    app.finish_site_detail(Ok(Site { manifest: vec![ManifestEntry::default()], ..site("s") }));
    assert_eq!(app.status, "1 files · Enter refreshes detail");
    app.finish_drive_files(&"Main".to_owned(), Ok(vec![DriveFile {
        path: "a.txt".into(),
        size: Some(3),
        etag: None,
        content_type: None,
        updated_at: None,
        last_modified_by: None,
        last_operation: None,
    }]));
    assert_eq!(app.status, "Main · 1 files");
    assert_eq!(app.drive_files.len(), 1);
    assert!(matches!(app.finish_duplicate(Ok(site("s-copy"))), Command::Refresh));
    assert_eq!(app.status, "Duplicated as s-copy");
    app.finish_analytics(Ok(Analytics {
        range: "30d".into(),
        last_event_at: None,
        totals: AnalyticsTotals { all_time_views: None, range_views: None, range_visitors: None },
        top_paths: vec![],
        top_referrers: vec![],
        top_countries: vec![],
    }));
    assert_eq!(app.status, "30-day analytics loaded");
    assert!(app.analytics.is_some());
    app.finish_open(&"https://x".to_owned(), Ok(()));
    assert_eq!(app.status, "Opened https://x");
    app.finish_open(&"https://x".to_owned(), Err("no browser".into()));
    assert_eq!(app.error.as_deref(), Some("could not open URL: no browser"));
}

#[test]
fn a_batch_deletes_in_order_and_reports() {
    let mut app = App::new();
    app.sites = vec![site("a"), site("b")];
    app.selected_sites.insert("a".into());
    app.selected_sites.insert("b".into());
    let mut batch = DeleteBatch::new(vec!["a".into(), "b".into()]);
    assert_eq!(app.next_deletion(&batch).as_deref(), Some("a"));
    assert_eq!(app.status, "Deleting a… (1/2)");
    app.record_deletion(&mut batch, Ok(()));
    assert!(!app.selected_sites.contains(&"a".to_owned()));
    assert_eq!(app.next_deletion(&batch).as_deref(), Some("b"));
    assert_eq!(app.status, "Deleting b… (2/2)");
    app.record_deletion(&mut batch, Err("locked".into()));
    assert!(app.next_deletion(&batch).is_none());
    assert_eq!(batch.deleted(), 1);
    assert_eq!(batch.failures(), &vec!["b: locked".to_owned()]);
    app.clear_details();
    app.report_deletions(&batch);
    assert_eq!(app.error.as_deref(), Some("Deleted 1/2; failed: b: locked"));
}

#[test]
fn a_clean_batch_reports_the_count() {
    let mut app = App::new();
    let mut batch = DeleteBatch::new(vec!["a".into()]);
    app.next_deletion(&batch);
    app.record_deletion(&mut batch, Ok(()));
    app.record_deletion(&mut batch, Ok(()));
    assert_eq!(batch.deleted(), 1);
    app.report_deletions(&batch);
    assert_eq!(app.status, "Deleted 1 Site(s)");
    assert!(app.error.is_none());
}

#[test]
fn confirmed_delete_hands_over_the_batch() {
    let mut app = App::new();
    app.sites = vec![site("a")];
    app.handle_key(Key { code: KeyCode::Char('x'), control: false, alt: false });
    let cmd = app.handle_key(Key { code: KeyCode::Char('y'), control: false, alt: false });
    let Command::Delete { batch } = cmd else { panic!("expected a delete") };
    assert_eq!(batch.total(), 1);
    assert!(batch.failures().is_empty());
}

#[test]
fn a_rename_reloads_the_detail_after_the_lists() {
    let mut app = App::new();
    let next = app.after_refresh(AfterRefresh::LoadSiteDetail { slug: "s".into() });
    assert!(matches!(next, Command::LoadSiteDetail { ref slug } if slug == "s"));
    assert_eq!(app.status, "Loading s…");
}

#[test]
fn a_finished_batch_reloads_then_reports() {
    let mut app = App::new();
    app.site_detail = Some(site("a"));
    let mut batch = DeleteBatch::new(vec!["a".into()]);
    app.next_deletion(&batch);
    app.record_deletion(&mut batch, Ok(()));
    let then = match app.finish_batch(batch) {
        Command::RefreshThen { then } => then,
        other => panic!("unexpected {other:?}"),
    };
    assert!(app.site_detail.is_none());
    assert!(matches!(app.after_refresh(then), Command::Nothing));
    assert_eq!(app.status, "Deleted 1 Site(s)");
}
