use hnw::app::{deletion_targets, App, Key, KeyCode, Prompt, Section};
use hnw::keys::Command;
use hnw::model::{Drive, Site};
use hnw::slug_set::SlugSet;

fn site(slug: &str) -> Site {
    Site { slug: slug.into(), site_url: format!("https://{slug}.here.now"), ..Default::default() }
}

fn key(code: KeyCode) -> Key {
    Key { code, control: false, alt: false }
}

fn ch(c: char) -> Key {
    key(KeyCode::Char(c))
}

fn app_with(slugs: &[&str]) -> App {
    let mut app = App::new();
    app.sites = slugs.iter().map(|s| site(s)).collect();
    app
}

#[test]
fn section_navigation_wraps() {
    let mut section = Section::Sites;
    section = match section {
        Section::Sites => Section::Drives,
        _ => unreachable!(),
    };
    assert_eq!(section, Section::Drives);
    assert_eq!(Section::ALL.len(), 3);
}

#[test]
fn site_selection_is_restored_by_slug() {
    let mut app = App::new();
    app.site_selection = Some(0);
    app.sites = vec![site("newer"), site("selected")];
    app.restore_site_selection(Some(&"selected".to_owned()));
    assert_eq!(app.site_selection, Some(1));
}

#[test]
fn batch_delete_targets_marked_sites_in_visible_order() {
    let sites = [site("first"), site("second"), site("third")];
    let mut selected = SlugSet::new();
    selected.insert("first".to_owned());
    selected.insert("third".to_owned());
    assert_eq!(deletion_targets(&sites, &selected, Some(1)), ["first", "third"]);
    assert_eq!(deletion_targets(&sites, &SlugSet::new(), Some(1)), ["second"]);
}

#[test]
fn deletion_targets_without_selection_or_marks_are_empty() {
    let sites = [site("only")];
    assert!(deletion_targets(&sites, &SlugSet::new(), None).is_empty());
    assert!(deletion_targets(&sites, &SlugSet::new(), Some(5)).is_empty());
}

#[test]
fn new_app_starts_connecting_on_sites() {
    let app = App::new();
    assert_eq!(app.section, Section::Sites);
    assert_eq!(app.status, "Connecting…");
    assert_eq!(app.site_selection, Some(0));
    assert!(app.selected_site().is_none());
}

#[test]
fn tab_and_backtab_cycle_sections() {
    let mut app = App::new();
    app.handle_key(key(KeyCode::Tab));
    assert_eq!(app.section, Section::Drives);
    app.handle_key(ch('l'));
    assert_eq!(app.section, Section::Account);
    app.handle_key(key(KeyCode::Right));
    assert_eq!(app.section, Section::Sites);
    app.handle_key(key(KeyCode::BackTab));
    assert_eq!(app.section, Section::Account);
    app.handle_key(ch('h'));
    assert_eq!(app.section, Section::Drives);
}

#[test]
fn moves_stay_inside_the_table() {
    let mut app = app_with(&["a", "b", "c"]);
    app.handle_key(ch('k'));
    assert_eq!(app.site_selection, Some(0));
    app.handle_key(ch('j'));
    app.handle_key(key(KeyCode::Down));
    app.handle_key(ch('j'));
    assert_eq!(app.site_selection, Some(2));
    app.handle_key(ch('g'));
    assert_eq!(app.site_selection, Some(0));
    app.handle_key(key(KeyCode::End));
    assert_eq!(app.site_selection, Some(2));
    let mut empty = App::new();
    empty.handle_key(ch('j'));
    assert_eq!(empty.site_selection, None);
}

#[test]
fn stale_selection_is_pulled_back_into_the_table() {
    let mut app = app_with(&["a", "b"]);
    app.site_selection = Some(7);
    app.move_selection(-1);
    assert_eq!(app.site_selection, Some(1));
    app.site_selection = None;
    app.move_selection(1);
    assert_eq!(app.site_selection, Some(1));
}

#[test]
fn help_swallows_the_next_key() {
    let mut app = App::new();
    app.handle_key(ch('?'));
    assert!(app.show_help);
    let cmd = app.handle_key(ch('q'));
    assert!(matches!(cmd, Command::Nothing));
    assert!(!app.show_help);
    assert!(!app.should_quit);
}

#[test]
fn q_and_ctrl_c_quit_but_plain_c_does_not() {
    let mut app = App::new();
    app.handle_key(ch('c'));
    assert!(!app.should_quit);
    app.handle_key(Key { code: KeyCode::Char('c'), control: true, alt: false });
    assert!(app.should_quit);
    let mut other = App::new();
    other.handle_key(ch('q'));
    assert!(other.should_quit);
}

#[test]
fn space_marks_and_unmarks_the_selected_site() {
    let mut app = app_with(&["a", "b"]);
    app.handle_key(ch(' '));
    assert_eq!(app.status, "1 Site(s) selected");
    assert!(app.selected_sites.contains(&"a".to_owned()));
    app.handle_key(ch(' '));
    assert_eq!(app.status, "0 Site(s) selected");
    assert!(app.selected_sites.is_empty());
}

#[test]
fn select_all_then_escape_clears() {
    let mut app = app_with(&["a", "b", "c"]);
    app.handle_key(ch('A'));
    assert_eq!(app.status, "3 Site(s) selected");
    assert_eq!(app.selected_sites.len(), 3);
    app.handle_key(key(KeyCode::Esc));
    assert_eq!(app.status, "Selection cleared");
    assert_eq!(app.selected_sites.len(), 0);
}

#[test]
fn marking_keys_do_nothing_outside_sites() {
    let mut app = app_with(&["a"]);
    app.section = Section::Drives;
    app.handle_key(ch(' '));
    app.handle_key(ch('A'));
    assert!(app.selected_sites.is_empty());
    assert!(matches!(app.handle_key(ch('d')), Command::Nothing));
    assert!(matches!(app.handle_key(ch('x')), Command::Nothing));
    assert!(app.prompt.is_none());
}

#[test]
fn delete_needs_a_y() {
    let mut app = app_with(&["a", "b"]);
    app.handle_key(ch('x'));
    assert_eq!(app.prompt, Some(Prompt::ConfirmDelete { slugs: vec!["a".to_owned()] }));
    assert!(matches!(app.handle_key(ch('q')), Command::Nothing));
    assert!(app.prompt.is_some());
    assert!(!app.should_quit);
    app.handle_key(ch('n'));
    assert!(app.prompt.is_none());
    app.handle_key(ch('x'));
    match app.handle_key(ch('y')) {
        Command::Delete { batch } => {
            assert_eq!(batch.total(), 1);
            assert_eq!(batch.deleted(), 0);
        },
        other => panic!("expected a delete, got {other:?}"),
    }
    assert!(app.prompt.is_none());
}

#[test]
fn delete_of_marked_sites_confirms_them_in_list_order() {
    let mut app = app_with(&["a", "b", "c"]);
    app.site_selection = Some(2);
    app.handle_key(ch(' '));
    app.site_selection = Some(0);
    app.handle_key(ch(' '));
    app.handle_key(ch('x'));
    assert_eq!(app.prompt, Some(Prompt::ConfirmDelete { slugs: vec!["a".to_owned(), "c".to_owned()] }));
}

#[test]
fn search_prompt_trims_and_submits() {
    let mut app = app_with(&["a"]);
    app.handle_key(ch('/'));
    assert_eq!(app.prompt, Some(Prompt::Search));
    for c in "  blog x".chars() {
        app.handle_key(ch(c));
    }
    app.handle_key(key(KeyCode::Backspace));
    app.handle_key(key(KeyCode::Backspace));
    app.handle_key(Key { code: KeyCode::Char('z'), control: true, alt: false });
    assert_eq!(app.input, "  blog");
    match app.handle_key(key(KeyCode::Enter)) {
        Command::Search { query } => assert_eq!(query, "blog"),
        other => panic!("expected a search, got {other:?}"),
    }
    assert_eq!(app.status, "Searching for blog…");
    assert!(app.prompt.is_none());
    assert_eq!(app.input, "");
}

#[test]
fn blank_prompt_input_does_nothing() {
    let mut app = app_with(&["a"]);
    app.handle_key(ch('/'));
    app.handle_key(ch(' '));
    let cmd = app.handle_key(key(KeyCode::Enter));
    assert!(matches!(cmd, Command::Nothing));
    assert!(app.prompt.is_none());
    assert_eq!(app.status, "Connecting…");
}

#[test]
fn rename_starts_from_the_current_name() {
    let mut app = App::new();
    app.sites = vec![Site { slug: "s1".into(), display_name: Some("Old".into()), ..Default::default() }];
    app.handle_key(ch('e'));
    assert_eq!(app.prompt, Some(Prompt::EditName));
    assert_eq!(app.input, "Old");
    app.handle_key(key(KeyCode::Backspace));
    app.handle_key(key(KeyCode::Backspace));
    app.handle_key(key(KeyCode::Backspace));
    for c in "New".chars() {
        app.handle_key(ch(c));
    }
    match app.handle_key(key(KeyCode::Enter)) {
        Command::Rename { slug, name } => {
            assert_eq!(slug, "s1");
            assert_eq!(name, "New");
        },
        other => panic!("expected a rename, got {other:?}"),
    }
    assert_eq!(app.status, "Updating s1…");
}

#[test]
fn enter_loads_what_is_selected() {
    let mut app = app_with(&["a"]);
    match app.handle_key(key(KeyCode::Enter)) {
        Command::LoadSiteDetail { slug } => assert_eq!(slug, "a"),
        other => panic!("unexpected {other:?}"),
    }
    assert_eq!(app.status, "Loading a…");
    app.section = Section::Drives;
    app.drives = vec![Drive {
        id: "d1".into(),
        name: "Main".into(),
        is_default: true,
        description: None,
        status: "ready".into(),
        head_version_id: None,
        dashboard_url: Some("https://here.now/d/d1".into()),
        updated_at: None,
    }];
    match app.handle_key(key(KeyCode::Enter)) {
        Command::LoadDriveFiles { id, name } => {
            assert_eq!(id, "d1");
            assert_eq!(name, "Main");
        },
        other => panic!("unexpected {other:?}"),
    }
    assert_eq!(app.status, "Loading Main…");
    match app.handle_key(ch('o')) {
        Command::Open { target } => assert_eq!(target, "https://here.now/d/d1"),
        other => panic!("unexpected {other:?}"),
    }
}

#[test]
fn duplicate_and_analytics_announce_themselves() {
    let mut app = app_with(&["a"]);
    assert!(matches!(app.handle_key(ch('d')), Command::Duplicate { .. }));
    assert_eq!(app.status, "Duplicating a…");
    assert!(matches!(app.handle_key(ch('a')), Command::LoadAnalytics { .. }));
    assert_eq!(app.status, "Loading 30-day analytics for a…");
    assert!(matches!(app.handle_key(ch('r')), Command::Refresh));
}

#[test]
fn analytics_cover_the_last_thirty_days() {
    let mut app = app_with(&["a"]);
    match app.handle_key(ch('a')) {
        Command::LoadAnalytics { slug, range } => {
            assert_eq!(slug, "a");
            assert_eq!(range, "30d");
        }
        other => panic!("unexpected {other:?}"),
    }
}
