//! What each key does to the application's state, and what it asks the
//! outside to do.
use vstd::prelude::*;
use crate::app::{
    after_edge, after_move, deletion_slugs, deletion_targets, section_after, section_before,
    selected_drive_of, selected_site_of, App, Key, KeyCode, Prompt, Section,
};
use crate::messages::{
    duplicating_text, join3, loading_analytics_text, loading_text, marked_count_text,
    searching_text, updating_text, number_then,
};
use crate::model::{Site, site_label};
use crate::deletion::DeleteBatch;
use crate::slug_set::{slugs_of, texts};
use crate::text::{pop_char, push_char, trim, trimmed};

verus! {

/// What the application asks the outside to do after a key or a reply.
#[derive(Debug)]
pub enum Command {
    Nothing,
    Refresh,
    /// Reload the lists, then hand `then` to `App::after_refresh`.
    RefreshThen { then: AfterRefresh },
    Search { query: String },
    Rename { slug: String, name: String },
    LoadSiteDetail { slug: String },
    LoadDriveFiles { id: String, name: String },
    OpenProfile { url: String },
    Open { target: String },
    Duplicate { slug: String },
    LoadAnalytics { slug: String, range: String },
    Delete { batch: DeleteBatch },
}

/// What follows a reload of the lists.
#[derive(Debug)]
pub enum AfterRefresh {
    /// Load the detail of the site with this slug again.
    LoadSiteDetail { slug: String },
    /// Report how a finished delete batch went.
    ReportDeletions { batch: DeleteBatch },
}

/// `new` is `old` with another status and nothing else changed.
pub open spec fn only_status_changed(old: App, new: App) -> bool {
    new == App { status: new.status, ..old }
}

/// The effect of marking or unmarking the selected site.
pub open spec fn toggled(old: App, new: App) -> bool {
    match selected_site_of(old) {
        None => new == old,
        Some(site) => {
            let marks = if old.selected_sites@.contains(site.slug@) {
                old.selected_sites@.remove(site.slug@)
            } else {
                old.selected_sites@.insert(site.slug@)
            };
            &&& new.selected_sites@ == marks
            &&& new.status@ == marked_count_text(marks.len())
            &&& new == App { selected_sites: new.selected_sites, status: new.status, ..old }
        },
    }
}

/// The effect of marking every listed site.
pub open spec fn all_marked(old: App, new: App) -> bool {
    let marks = old.selected_sites@.union(slugs_of(old.sites@).to_set());
    &&& new.selected_sites@ == marks
    &&& new.status@ == marked_count_text(marks.len())
    &&& new == App { selected_sites: new.selected_sites, status: new.status, ..old }
}

/// The effect of unmarking all sites.
pub open spec fn marks_cleared(old: App, new: App) -> bool {
    &&& new.selected_sites@ == Set::<Seq<char>>::empty()
    &&& new.status@ == "Selection cleared"@
    &&& new == App { selected_sites: new.selected_sites, status: new.status, ..old }
}

/// The effect of opening the search prompt.
pub open spec fn search_opened(old: App, new: App) -> bool {
    &&& new.prompt == Some(Prompt::Search)
    &&& new.input@ == Seq::<char>::empty()
    &&& new == App { prompt: new.prompt, input: new.input, ..old }
}

/// The effect of starting to rename the selected site: the prompt opens with
/// the site's current name.
pub open spec fn edit_begun(old: App, new: App) -> bool {
    match selected_site_of(old) {
        None => new == old,
        Some(site) => {
            &&& new.prompt == Some(Prompt::EditName)
            &&& new.input@ == site_label(site)
            &&& new == App { prompt: new.prompt, input: new.input, ..old }
        },
    }
}

/// The effect of asking for a delete: the confirmation opens over the
/// deletion targets, when there are any.
pub open spec fn delete_begun(old: App, new: App) -> bool {
    let targets = deletion_slugs(old.sites@, old.selected_sites@, old.site_selection);
    if targets.len() == 0 {
        new == old
    } else {
        &&& new.prompt matches Some(Prompt::ConfirmDelete { slugs }) && texts(slugs@) == targets
        &&& new == App { prompt: new.prompt, ..old }
    }
}

/// The effect of a key that starts loading something about the selected site:
/// the status is set by `text` and the command is made by `made`.
pub open spec fn site_action(old: App, new: App, cmd: Command, text: spec_fn(Seq<char>) -> Seq<char>, made: spec_fn(Command, Seq<char>) -> bool) -> bool {
    match selected_site_of(old) {
        None => new == old && cmd is Nothing,
        Some(site) => {
            &&& new.status@ == text(site.slug@)
            &&& only_status_changed(old, new)
            &&& made(cmd, site.slug@)
        },
    }
}

/// `cmd` loads the files of the site with slug `slug`.
pub open spec fn loads_detail(cmd: Command, slug: Seq<char>) -> bool {
    cmd matches Command::LoadSiteDetail { slug: s } && s@ == slug
}

/// `cmd` duplicates the site with slug `slug`.
pub open spec fn duplicates(cmd: Command, slug: Seq<char>) -> bool {
    cmd matches Command::Duplicate { slug: s } && s@ == slug
}

/// The range of the analytics that the Sites view loads: the last 30 days.
pub open spec fn analytics_range() -> Seq<char> {
    "30d"@
}

/// `cmd` loads the analytics of the site with slug `slug` over the last 30
/// days.
pub open spec fn loads_analytics(cmd: Command, slug: Seq<char>) -> bool {
    cmd matches Command::LoadAnalytics { slug: s, range: r } && s@ == slug && r@ == analytics_range()
}

/// The effect of Enter outside a prompt: load the selected site's files, the
/// selected Drive's files, or open the profile.
pub open spec fn inspected(old: App, new: App, cmd: Command) -> bool {
    match old.section {
        Section::Sites => site_action(old, new, cmd, |s: Seq<char>| loading_text(s), |c: Command, s: Seq<char>| loads_detail(c, s)),
        Section::Drives => match selected_drive_of(old) {
            None => new == old && cmd is Nothing,
            Some(drive) => {
                &&& new.status@ == loading_text(drive.name@)
                &&& only_status_changed(old, new)
                &&& cmd matches Command::LoadDriveFiles { id, name } && id@ == drive.id@ && name@ == drive.name@
            },
        },
        Section::Account => {
            &&& new == old
            &&& match old.profile {
                Some(profile) => cmd matches Command::OpenProfile { url } && url@ == profile.url@,
                None => cmd is Nothing,
            }
        },
    }
}

/// The effect of `o`: open the selected site, the selected Drive's dashboard,
/// or the profile.
pub open spec fn opened(old: App, new: App, cmd: Command) -> bool {
    &&& new == old
    &&& match old.section {
        Section::Sites => match selected_site_of(old) {
            Some(site) => cmd matches Command::Open { target } && target@ == site.site_url@,
            None => cmd is Nothing,
        },
        Section::Drives => match selected_drive_of(old) {
            Some(drive) => match drive.dashboard_url {
                Some(url) => cmd matches Command::Open { target } && target@ == url@,
                None => cmd is Nothing,
            },
            None => cmd is Nothing,
        },
        Section::Account => match old.profile {
            Some(profile) => cmd matches Command::Open { target } && target@ == profile.url@,
            None => cmd is Nothing,
        },
    }
}

/// The effect of Enter in a text prompt: the prompt closes and the trimmed
/// input, when not empty, is searched for or becomes the selected site's name.
pub open spec fn submitted(old: App, new: App, cmd: Command) -> bool {
    let text = trim(old.input@);
    &&& new.prompt is None
    &&& new.input@ == Seq::<char>::empty()
    &&& if text.len() == 0 {
        new == App { prompt: None, input: new.input, ..old } && cmd is Nothing
    } else {
        match old.prompt {
            Some(Prompt::Search) => {
                &&& new.status@ == searching_text(text)
                &&& new == App { prompt: None, input: new.input, status: new.status, ..old }
                &&& cmd matches Command::Search { query } && query@ == text
            },
            _ => match selected_site_of(old) {
                None => new == App { prompt: None, input: new.input, ..old } && cmd is Nothing,
                Some(site) => {
                    &&& new.status@ == updating_text(site.slug@)
                    &&& new == App { prompt: None, input: new.input, status: new.status, ..old }
                    &&& cmd matches Command::Rename { slug, name } && slug@ == site.slug@ && name@ == text
                },
            },
        }
    }
}

/// The effect of a key while a prompt is open.
pub open spec fn prompt_key_effect(old: App, key: Key, new: App, cmd: Command) -> bool {
    match old.prompt {
        Some(Prompt::ConfirmDelete { slugs }) => {
            if key.code == KeyCode::Char('y') {
                &&& new == App { prompt: None, ..old }
                &&& cmd matches Command::Delete { batch } && batch.targets() == texts(slugs@)
                    && batch.tried() == 0 && batch.succeeded() == 0
                    && batch.failure_lines().len() == 0
            } else if key.code == KeyCode::Esc || key.code == KeyCode::Char('n') {
                new == App { prompt: None, ..old } && cmd is Nothing
            } else {
                new == old && cmd is Nothing
            }
        },
        _ => {
            &&& !(cmd is Delete)
            &&& match key.code {
                KeyCode::Esc => new.prompt is None && new.input@ == Seq::<char>::empty()
                    && new == App { prompt: None, input: new.input, ..old } && cmd is Nothing,
                KeyCode::Enter => submitted(old, new, cmd),
                KeyCode::Backspace => {
                    &&& new.input@ == (if old.input@.len() > 0 { old.input@.drop_last() } else { old.input@ })
                    &&& new == App { input: new.input, ..old }
                    &&& cmd is Nothing
                },
                KeyCode::Char(c) => {
                    &&& cmd is Nothing
                    &&& if !key.control && !key.alt {
                        new.input@ == old.input@.push(c) && new == App { input: new.input, ..old }
                    } else {
                        new == old
                    }
                },
                _ => new == old && cmd is Nothing,
            }
        },
    }
}

/// Whether `key` is the character `c`.
pub open spec fn is_char(key: Key, c: char) -> bool {
    key.code == KeyCode::Char(c)
}

/// The effect of a key when neither help nor a prompt is open.
pub open spec fn main_key_effect(old: App, key: Key, new: App, cmd: Command) -> bool {
    let sites = old.section == Section::Sites;
    if is_char(key, 'q') || (is_char(key, 'c') && key.control) {
        new == App { should_quit: true, ..old } && cmd is Nothing
    } else if is_char(key, '?') {
        new == App { show_help: true, ..old } && cmd is Nothing
    } else if key.code == KeyCode::Tab || is_char(key, 'l') || key.code == KeyCode::Right {
        new == App { section: section_after(old.section), ..old } && cmd is Nothing
    } else if key.code == KeyCode::BackTab || is_char(key, 'h') || key.code == KeyCode::Left {
        new == App { section: section_before(old.section), ..old } && cmd is Nothing
    } else if is_char(key, 'j') || key.code == KeyCode::Down {
        new == after_move(old, 1) && cmd is Nothing
    } else if is_char(key, 'k') || key.code == KeyCode::Up {
        new == after_move(old, -1) && cmd is Nothing
    } else if is_char(key, 'g') || key.code == KeyCode::Home {
        new == after_edge(old, false) && cmd is Nothing
    } else if is_char(key, 'G') || key.code == KeyCode::End {
        new == after_edge(old, true) && cmd is Nothing
    } else if is_char(key, 'r') {
        new == old && cmd is Refresh
    } else if is_char(key, ' ') && sites {
        toggled(old, new) && cmd is Nothing
    } else if is_char(key, 'A') && sites {
        all_marked(old, new) && cmd is Nothing
    } else if key.code == KeyCode::Esc && sites {
        marks_cleared(old, new) && cmd is Nothing
    } else if is_char(key, '/') && sites {
        search_opened(old, new) && cmd is Nothing
    } else if key.code == KeyCode::Enter {
        inspected(old, new, cmd)
    } else if is_char(key, 'o') {
        opened(old, new, cmd)
    } else if is_char(key, 'e') && sites {
        edit_begun(old, new) && cmd is Nothing
    } else if is_char(key, 'd') && sites {
        site_action(old, new, cmd, |s: Seq<char>| duplicating_text(s), |c: Command, s: Seq<char>| duplicates(c, s))
    } else if is_char(key, 'x') && sites {
        delete_begun(old, new) && cmd is Nothing
    } else if is_char(key, 'a') && sites {
        site_action(old, new, cmd, |s: Seq<char>| loading_analytics_text(s), |c: Command, s: Seq<char>| loads_analytics(c, s))
    } else {
        new == old && cmd is Nothing
    }
}

/// The effect of any key: with help shown, the key only closes it; with a
/// prompt open, the prompt takes it; otherwise `main_key_effect`.
pub open spec fn key_effect(old: App, key: Key, new: App, cmd: Command) -> bool {
    if old.show_help {
        new == App { show_help: false, ..old } && cmd is Nothing
    } else if old.prompt is Some {
        prompt_key_effect(old, key, new, cmd)
    } else {
        main_key_effect(old, key, new, cmd)
    }
}

impl App {
    /// Marks the selected site, or unmarks it when it is marked.
    pub fn toggle_selected_site(&mut self)
        ensures
            toggled(*old(self), *final(self)),
    {
        let slug = match self.selected_site() {
            Some(site) => site.slug.clone(),
            None => {
                return;
            },
        };
        if !self.selected_sites.insert(slug.clone()) {
            self.selected_sites.remove(&slug);
            assert(old(self).selected_sites@.insert(slug@).remove(slug@) =~= old(self).selected_sites@.remove(slug@));
        }
        let n = self.selected_sites.len();
        self.status = number_then(n as u64, " Site(s) selected");
    }

    /// Marks every listed site.
    pub fn select_all_sites(&mut self)
        ensures
            all_marked(*old(self), *final(self)),
    {
        self.selected_sites.insert_all(&self.sites);
        let n = self.selected_sites.len();
        self.status = number_then(n as u64, " Site(s) selected");
    }

    /// Unmarks every site.
    pub fn clear_marks(&mut self)
        ensures
            marks_cleared(*old(self), *final(self)),
    {
        self.selected_sites.clear();
        self.status = String::from_str("Selection cleared");
    }

    /// Opens the search prompt with an empty input.
    pub fn open_search(&mut self)
        ensures
            search_opened(*old(self), *final(self)),
    {
        self.prompt = Some(Prompt::Search);
        self.input = String::new();
    }

    /// Opens the rename prompt over the selected site's current name.
    pub fn begin_edit(&mut self)
        ensures
            edit_begun(*old(self), *final(self)),
    {
        let label = match self.selected_site() {
            Some(site) => String::from_str(site.label()),
            None => {
                return;
            },
        };
        self.input = label;
        self.prompt = Some(Prompt::EditName);
    }

    /// Opens the delete confirmation over the deletion targets.
    pub fn begin_delete(&mut self)
        ensures
            delete_begun(*old(self), *final(self)),
    {
        let slugs = deletion_targets(self.sites.as_slice(), &self.selected_sites, self.site_selection);
        if slugs.len() > 0 {
            self.prompt = Some(Prompt::ConfirmDelete { slugs });
        }
    }

    /// The command that opens the selected resource.
    pub fn open_selected(&self) -> (cmd: Command)
        ensures
            opened(*self, *self, cmd),
    {
        match self.section {
            Section::Sites => match self.selected_site() {
                Some(site) => Command::Open { target: site.site_url.clone() },
                None => Command::Nothing,
            },
            Section::Drives => match self.selected_drive() {
                Some(drive) => match &drive.dashboard_url {
                    Some(url) => Command::Open { target: url.clone() },
                    None => Command::Nothing,
                },
                None => Command::Nothing,
            },
            Section::Account => match &self.profile {
                Some(profile) => Command::Open { target: profile.url.clone() },
                None => Command::Nothing,
            },
        }
    }

    /// Starts loading the selected site's files, the selected Drive's files,
    /// or opens the profile.
    pub fn inspect_selected(&mut self) -> (cmd: Command)
        ensures
            inspected(*old(self), *final(self), cmd),
    {
        match self.section {
            Section::Sites => {
                let slug = match self.selected_site() {
                    Some(site) => site.slug.clone(),
                    None => {
                        return Command::Nothing;
                    },
                };
                self.status = join3("Loading ", slug.as_str(), "\u{2026}");
                Command::LoadSiteDetail { slug }
            },
            Section::Drives => {
                let (id, name) = match self.selected_drive() {
                    Some(drive) => (drive.id.clone(), drive.name.clone()),
                    None => {
                        return Command::Nothing;
                    },
                };
                self.status = join3("Loading ", name.as_str(), "\u{2026}");
                Command::LoadDriveFiles { id, name }
            },
            Section::Account => match &self.profile {
                Some(profile) => Command::OpenProfile { url: profile.url.clone() },
                None => Command::Nothing,
            },
        }
    }

    /// Starts duplicating the selected site.
    pub fn duplicate_selected(&mut self) -> (cmd: Command)
        ensures
            site_action(*old(self), *final(self), cmd, |s: Seq<char>| duplicating_text(s), |c: Command, s: Seq<char>| duplicates(c, s)),
    {
        let slug = match self.selected_site() {
            Some(site) => site.slug.clone(),
            None => {
                return Command::Nothing;
            },
        };
        self.status = join3("Duplicating ", slug.as_str(), "\u{2026}");
        Command::Duplicate { slug }
    }

    /// Starts loading the selected site's 30-day analytics.
    pub fn load_analytics(&mut self) -> (cmd: Command)
        ensures
            site_action(*old(self), *final(self), cmd, |s: Seq<char>| loading_analytics_text(s), |c: Command, s: Seq<char>| loads_analytics(c, s)),
    {
        let slug = match self.selected_site() {
            Some(site) => site.slug.clone(),
            None => {
                return Command::Nothing;
            },
        };
        self.status = join3("Loading 30-day analytics for ", slug.as_str(), "\u{2026}");
        Command::LoadAnalytics { slug, range: String::from_str("30d") }
    }

    /// Submits the text prompt.
    fn submit_prompt(&mut self) -> (cmd: Command)
        requires
            old(self).prompt matches Some(p) && !(p is ConfirmDelete),
        ensures
            submitted(*old(self), *final(self), cmd),
    {
        let text = trimmed(self.input.as_str());
        let searching = match &self.prompt {
            Some(Prompt::Search) => true,
            _ => false,
        };
        self.prompt = None;
        self.input = String::new();
        if text.unicode_len() == 0 {
            return Command::Nothing;
        }
        if searching {
            self.status = join3("Searching for ", text.as_str(), "\u{2026}");
            Command::Search { query: text }
        } else {
            let slug = match self.selected_site() {
                Some(site) => site.slug.clone(),
                None => {
                    return Command::Nothing;
                },
            };
            self.status = join3("Updating ", slug.as_str(), "\u{2026}");
            Command::Rename { slug, name: text }
        }
    }

    /// Handles a key while a prompt is open.
    fn handle_prompt_key(&mut self, key: Key) -> (cmd: Command)
        requires
            old(self).prompt is Some,
        ensures
            prompt_key_effect(*old(self), key, *final(self), cmd),
    {
        let confirming = match &self.prompt {
            Some(Prompt::ConfirmDelete { .. }) => true,
            _ => false,
        };
        if confirming {
            match key.code {
                KeyCode::Char('y') => {
                    let prompt = self.prompt.take();
                    match prompt {
                        Some(Prompt::ConfirmDelete { slugs }) => Command::Delete { batch: DeleteBatch::new(slugs) },
                        _ => Command::Nothing,
                    }
                },
                KeyCode::Esc | KeyCode::Char('n') => {
                    self.prompt = None;
                    Command::Nothing
                },
                _ => Command::Nothing,
            }
        } else {
            match key.code {
                KeyCode::Esc => {
                    self.prompt = None;
                    self.input = String::new();
                    Command::Nothing
                },
                KeyCode::Enter => self.submit_prompt(),
                KeyCode::Backspace => {
                    pop_char(&mut self.input);
                    Command::Nothing
                },
                KeyCode::Char(c) => {
                    if !key.control && !key.alt {
                        push_char(&mut self.input, c);
                    }
                    Command::Nothing
                },
                _ => Command::Nothing,
            }
        }
    }

    /// Handles a key press: updates the state and returns what the outside
    /// has to do next (see `key_effect`).
    pub fn handle_key(&mut self, key: Key) -> (cmd: Command)
        ensures
            key_effect(*old(self), key, *final(self), cmd),
    {
        if self.show_help {
            self.show_help = false;
            return Command::Nothing;
        }
        if self.prompt.is_some() {
            return self.handle_prompt_key(key);
        }
        let sites = match self.section {
            Section::Sites => true,
            _ => false,
        };
        let code = key.code;
        if code == KeyCode::Char('q') || (code == KeyCode::Char('c') && key.control) {
            self.should_quit = true;
            Command::Nothing
        } else if code == KeyCode::Char('?') {
            self.show_help = true;
            Command::Nothing
        } else if code == KeyCode::Tab || code == KeyCode::Char('l') || code == KeyCode::Right {
            self.next_section();
            Command::Nothing
        } else if code == KeyCode::BackTab || code == KeyCode::Char('h') || code == KeyCode::Left {
            self.previous_section();
            Command::Nothing
        } else if code == KeyCode::Char('j') || code == KeyCode::Down {
            self.move_selection(1);
            Command::Nothing
        } else if code == KeyCode::Char('k') || code == KeyCode::Up {
            self.move_selection(-1);
            Command::Nothing
        } else if code == KeyCode::Char('g') || code == KeyCode::Home {
            self.select_edge(false);
            Command::Nothing
        } else if code == KeyCode::Char('G') || code == KeyCode::End {
            self.select_edge(true);
            Command::Nothing
        } else if code == KeyCode::Char('r') {
            Command::Refresh
        } else if code == KeyCode::Char(' ') && sites {
            self.toggle_selected_site();
            Command::Nothing
        } else if code == KeyCode::Char('A') && sites {
            self.select_all_sites();
            Command::Nothing
        } else if code == KeyCode::Esc && sites {
            self.clear_marks();
            Command::Nothing
        } else if code == KeyCode::Char('/') && sites {
            self.open_search();
            Command::Nothing
        } else if code == KeyCode::Enter {
            self.inspect_selected()
        } else if code == KeyCode::Char('o') {
            self.open_selected()
        } else if code == KeyCode::Char('e') && sites {
            self.begin_edit();
            Command::Nothing
        } else if code == KeyCode::Char('d') && sites {
            self.duplicate_selected()
        } else if code == KeyCode::Char('x') && sites {
            self.begin_delete();
            Command::Nothing
        } else if code == KeyCode::Char('a') && sites {
            self.load_analytics()
        } else {
            Command::Nothing
        }
    }
}

} // verus!
