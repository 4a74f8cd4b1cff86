use hnw::app::{App, Prompt, Section};
use hnw::model::{Analytics, AnalyticsTotals, Drive, DriveFile, MetricRow, Profile, Site};
use hnw::view::{
    account_lines, account_panel, analytics_lines, detail_panel, files_notice, AccountPanel, DetailPanel, content_type_suffix, count_title, cursor_offset, detail_site,
    drive_detail_lines, drive_kind, etag_line, file_caption, manifest_title, prompt_text,
    prompt_title, shortcuts, site_detail_lines, site_is_active, site_status_text, status_message,
    Line, Tone,
};

fn texts(lines: &[Line]) -> Vec<(String, String, Tone)> {
    lines.iter().map(|l| (l.lead.clone(), l.text.clone(), l.tone)).collect()
}

fn row(label: &str, views: Option<u64>) -> MetricRow {
    MetricRow { path: Some(label.into()), referrer: None, country: Some(label.into()), views }
}

#[test]
fn site_detail_shows_known_fields() {
    let site = Site {
        slug: "blog".into(),
        site_url: "https://blog.here.now".into(),
        status: Some("active".into()),
        display_name: Some("My Blog".into()),
        pending_version_id: Some("v2".into()),
        ..Default::default()
    };
    let lines = texts(&site_detail_lines(&site));
    assert_eq!(lines.len(), 5);
    assert_eq!(lines[0], (String::new(), "My Blog".into(), Tone::Accent));
    assert_eq!(lines[3].1, "status  active");
    assert_eq!(lines[4], (String::new(), "pending  v2".into(), Tone::Warning));
    assert!(site_is_active(&site));
    assert_eq!(site_status_text(&site), "active");
    assert_eq!(manifest_title(&site), " Files · Enter to load ");
    let bare = Site { slug: "x".into(), ..Default::default() };
    assert_eq!(site_detail_lines(&bare)[3].text, "status  unknown");
    assert_eq!(site_status_text(&bare), "—");
    assert!(!site_is_active(&bare));
    assert_eq!(content_type_suffix(&Some("text/html".into())), "  text/html");
    assert_eq!(content_type_suffix(&None), "");
}

#[test]
fn detail_follows_the_selection() {
    let mut app = App::new();
    app.sites = vec![Site { slug: "a".into(), ..Default::default() }, Site { slug: "b".into(), ..Default::default() }];
    app.site_detail = Some(Site { slug: "a".into(), status: Some("loaded".into()), ..Default::default() });
    assert_eq!(detail_site(&app).unwrap().status.as_deref(), Some("loaded"));
    app.site_selection = Some(1);
    assert_eq!(detail_site(&app).unwrap().slug, "b");
    app.site_selection = None;
    assert!(detail_site(&app).is_none());
}

#[test]
fn analytics_panel_ranks_and_limits() {
    let analytics = Analytics {
        range: "30d".into(),
        last_event_at: Some("yesterday".into()),
        totals: AnalyticsTotals { all_time_views: Some(1234), range_views: Some(56), range_visitors: None },
        top_paths: (0..10).map(|i| row(&format!("/p{i}"), Some(i))).collect(),
        top_referrers: vec![MetricRow { path: None, referrer: None, country: None, views: Some(12345678) }],
        top_countries: (0..7).map(|i| row(&format!("C{i}"), None)).collect(),
    };
    let lines = texts(&analytics_lines(&analytics));
    assert_eq!(lines[0].1, "30d analytics");
    assert_eq!(lines[1].1, "56 views · 0 visitors · 1234 all time");
    assert_eq!(lines[2].1, "last event  yesterday");
    assert_eq!(lines[4].1, "Top paths");
    assert_eq!(lines[5].1, "      0  /p0");
    assert_eq!(lines[12].1, "      7  /p7");
    assert_eq!(lines[14].1, "Top referrers");
    assert_eq!(lines[15].1, "12345678  Direct");
    assert_eq!(lines[17], (String::new(), "C0 0 · C1 0 · C2 0 · C3 0 · C4 0".into(), Tone::Muted));
    assert_eq!(lines.len(), 18);
}

#[test]
fn drive_panel_texts() {
    let drive = Drive {
        id: "d".into(),
        name: "Main".into(),
        is_default: true,
        description: None,
        status: "ready".into(),
        head_version_id: None,
        dashboard_url: None,
        updated_at: None,
    };
    assert_eq!(drive_kind(&drive), "default");
    let lines = texts(&drive_detail_lines(&drive));
    assert_eq!(lines[1].1, "No description");
    assert_eq!(lines[2].1, "head — · updated —");
    let file = DriveFile {
        path: "a".into(),
        size: None,
        etag: Some("e1".into()),
        content_type: None,
        updated_at: Some("garbage".into()),
        last_modified_by: Some("ann".into()),
        last_operation: None,
    };
    assert_eq!(file_caption(&file), "file · garbage · updated · ann");
    assert_eq!(etag_line(&file), "etag e1");
    assert_eq!(count_title("Drives", 2), " Drives  2 ");
}

#[test]
fn account_panel_lines() {
    let profile = Profile {
        username: "ann".into(),
        enabled: false,
        add_new_sites_to_profile: true,
        url: "https://here.now/@ann".into(),
        feed_url: "https://here.now/@ann/feed".into(),
    };
    let lines = texts(&account_lines(&profile));
    assert_eq!(lines.len(), 8);
    assert_eq!(lines[0].1, "@ann");
    assert_eq!(lines[2], ("Profile     ".into(), "disabled".into(), Tone::Plain));
    assert_eq!(lines[3], ("New Sites   ".into(), "added automatically".into(), Tone::Plain));
}

#[test]
fn status_bar_and_prompts() {
    let mut app = App::new();
    assert_eq!(status_message(&app), "Connecting…");
    app.error = Some("bad".into());
    assert_eq!(status_message(&app), "bad");
    assert_eq!(shortcuts(Section::Drives), " Enter files  o dashboard  r refresh  ? help ");
    let input = "héllo".to_owned();
    assert_eq!(prompt_title(&Prompt::Search), " Search Sites ");
    assert_eq!(prompt_text(&Prompt::Search, &input), "/ héllo");
    assert_eq!(cursor_offset(&Prompt::Search, &input), 8);
    assert_eq!(cursor_offset(&Prompt::EditName, &input), 7);
    let confirm = Prompt::ConfirmDelete { slugs: vec!["a".into(), "b".into()] };
    assert_eq!(
        prompt_text(&confirm, &input),
        "a\nb\n\nThis deletes all stored files. Press y to delete or n/Esc to cancel."
    );
}

#[test]
fn panels_fall_back_to_notices() {
    let mut app = App::new();
    assert!(matches!(detail_panel(&app), DetailPanel::Notice("No Sites", "Publish something, then press r.")));
    app.sites = vec![Site { slug: "a".into(), ..Default::default() }];
    app.site_selection = Some(0);
    assert!(matches!(detail_panel(&app), DetailPanel::Site(site) if site.slug == "a"));
    app.analytics = Some(Analytics {
        range: "30d".into(),
        last_event_at: None,
        totals: AnalyticsTotals { all_time_views: None, range_views: None, range_visitors: None },
        top_paths: vec![],
        top_referrers: vec![],
        top_countries: vec![],
    });
    assert!(matches!(detail_panel(&app), DetailPanel::Analytics(a) if a.range == "30d"));
    assert!(matches!(account_panel(&app), AccountPanel::Notice("Account", "Profile unavailable.")));
    app.profile = Some(Profile {
        username: "me".into(),
        enabled: true,
        add_new_sites_to_profile: false,
        url: String::new(),
        feed_url: String::new(),
    });
    assert!(matches!(account_panel(&app), AccountPanel::Profile(p) if p.username == "me"));
    assert_eq!(files_notice(&vec![]), Some("No files. Enter loads the selected Drive."));
    let file = DriveFile {
        path: "a".into(),
        size: None,
        etag: None,
        content_type: None,
        updated_at: None,
        last_modified_by: None,
        last_operation: None,
    };
    assert_eq!(files_notice(&vec![file]), None);
}
