//! The application's state and the decisions it takes on each key and on
//! each reply of the API. The terminal loop and the HTTP calls stand outside:
//! they hand keys and replies in, and perform the commands that come out.
use vstd::prelude::*;
use crate::model::{Analytics, Drive, DriveFile, Profile, Site};
use crate::slug_set::{SlugSet, slugs_of};

verus! {

/// The three sections of the application.
#[derive(Clone, Copy, Debug, PartialEq, Eq, Structural)]
pub enum Section {
    Sites,
    Drives,
    Account,
}

/// The tab label of a section.
pub open spec fn section_label(section: Section) -> Seq<char> {
    match section {
        Section::Sites => "Sites"@,
        Section::Drives => "Drives"@,
        Section::Account => "Account"@,
    }
}

/// The section after `section`, wrapping around.
pub open spec fn section_after(section: Section) -> Section {
    match section {
        Section::Sites => Section::Drives,
        Section::Drives => Section::Account,
        Section::Account => Section::Sites,
    }
}

/// The section before `section`, wrapping around.
pub open spec fn section_before(section: Section) -> Section {
    match section {
        Section::Sites => Section::Account,
        Section::Drives => Section::Sites,
        Section::Account => Section::Drives,
    }
}

impl Section {
    /// All sections, in tab order.
    pub const ALL: [Section; 3] = [Section::Sites, Section::Drives, Section::Account];

    /// The tab label.
    pub fn label(self) -> (r: &'static str)
        ensures
            r@ == section_label(self),
    {
        match self {
            Section::Sites => "Sites",
            Section::Drives => "Drives",
            Section::Account => "Account",
        }
    }

    /// The position of the section in `ALL`.
    pub fn index(self) -> (r: usize)
        ensures
            r < 3,
            Section::ALL@[r as int] == self,
    {
        match self {
            Section::Sites => 0,
            Section::Drives => 1,
            Section::Account => 2,
        }
    }
}

impl Default for Section {
    fn default() -> (r: Self)
        ensures
            r == Section::Sites,
    {
        Section::Sites
    }
}

/// An open text prompt or confirmation.
#[derive(Clone, Debug, PartialEq, Eq)]
pub enum Prompt {
    Search,
    EditName,
    ConfirmDelete { slugs: Vec<String> },
}

/// The key of a key press.
#[derive(Clone, Copy, Debug, PartialEq, Eq, Structural)]
pub enum KeyCode {
    Char(char),
    Tab,
    BackTab,
    Left,
    Right,
    Up,
    Down,
    Home,
    End,
    Enter,
    Esc,
    Backspace,
    Other,
}

/// A key press with the modifiers that the application reads.
#[derive(Clone, Copy, Debug, PartialEq, Eq, Structural)]
pub struct Key {
    pub code: KeyCode,
    pub control: bool,
    pub alt: bool,
}

/// The index that a table selection points at, when it points inside `len` rows.
pub open spec fn pointed(selection: Option<usize>, len: nat) -> Option<int> {
    match selection {
        Some(i) => if i < len { Some(i as int) } else { None },
        None => None,
    }
}

/// The selection after moving by `delta` rows in a table of `len` rows:
/// none in an empty table, otherwise the current row (the first when there is
/// none) plus `delta`, kept within the table.
pub open spec fn moved(selection: Option<usize>, len: nat, delta: int) -> Option<usize> {
    if len == 0 {
        None
    } else {
        let current: int = match selection {
            Some(i) => i as int,
            None => 0,
        };
        let target = current + delta;
        Some(
            (if target < 0 {
                0
            } else if target > len - 1 {
                len - 1
            } else {
                target
            }) as usize,
        )
    }
}

/// The selection at the first or last row, none in an empty table.
pub open spec fn edge(len: nat, end: bool) -> Option<usize> {
    if len == 0 {
        None
    } else if end {
        Some((len - 1) as usize)
    } else {
        Some(0)
    }
}

/// The selection kept within a table of `len` rows: the current row (the
/// first when there is none), at most the last row; none in an empty table.
pub open spec fn clamped(selection: Option<usize>, len: nat) -> Option<usize> {
    if len == 0 {
        None
    } else {
        let current: int = match selection {
            Some(i) => i as int,
            None => 0,
        };
        Some((if current > len - 1 { len - 1 } else { current }) as usize)
    }
}

/// The slugs that a delete acts on: the marked sites in the order they are
/// listed when any is marked, else the site at `active`, if there is one.
pub open spec fn deletion_slugs(sites: Seq<Site>, marked: Set<Seq<char>>, active: Option<usize>) -> Seq<Seq<char>> {
    if marked =~= Set::<Seq<char>>::empty() {
        match pointed(active, sites.len()) {
            Some(i) => seq![sites[i].slug@],
            None => Seq::empty(),
        }
    } else {
        slugs_of(sites).filter(|x: Seq<char>| marked.contains(x))
    }
}

/// The slugs that a delete acts on (see `deletion_slugs`).
pub fn deletion_targets(sites: &[Site], selected: &SlugSet, active_index: Option<usize>) -> (r: Vec<String>)
    ensures
        r@.map_values(|s: String| s@) == deletion_slugs(sites@, selected@, active_index),
{
    if selected.is_empty() {
        match active_index {
            Some(index) => {
                if index < sites.len() {
                    let mut r: Vec<String> = Vec::new();
                    r.push(sites[index].slug.clone());
                    assert(r@.map_values(|s: String| s@) =~= seq![sites@[index as int].slug@]);
                    r
                } else {
                    let r: Vec<String> = Vec::new();
                    assert(r@.map_values(|s: String| s@) =~= Seq::<Seq<char>>::empty());
                    r
                }
            },
            None => {
                let r: Vec<String> = Vec::new();
                assert(r@.map_values(|s: String| s@) =~= Seq::<Seq<char>>::empty());
                r
            },
        }
    } else {
        let ghost pred = |x: Seq<char>| selected@.contains(x);
        let ghost all = slugs_of(sites@);
        let mut r: Vec<String> = Vec::new();
        let n = sites.len();
        proof {
            reveal(Seq::filter);
            assert(all.take(0) =~= Seq::<Seq<char>>::empty());
            assert(r@.map_values(|s: String| s@) =~= all.take(0).filter(pred));
        }
        for i in 0..n
            invariant
                n == sites@.len(),
                all == slugs_of(sites@),
                pred == (|x: Seq<char>| selected@.contains(x)),
                r@.map_values(|s: String| s@) == all.take(i as int).filter(pred),
        {
            let ghost before = r@.map_values(|s: String| s@);
            if selected.contains(&sites[i].slug) {
                r.push(sites[i].slug.clone());
                assert(r@.map_values(|s: String| s@) =~= before.push(sites@[i as int].slug@));
            } else {
                assert(r@.map_values(|s: String| s@) =~= before);
            }
            proof {
                reveal(Seq::filter);
                assert(all.take(i + 1).drop_last() =~= all.take(i as int));
                assert(all.take(i + 1).last() == sites@[i as int].slug@);
            }
        }
        assert(all.take(n as int) =~= all);
        r
    }
}

/// The application's state.
#[derive(Debug)]
pub struct App {
    pub section: Section,
    pub sites: Vec<Site>,
    /// The row of the site table that is selected.
    pub site_selection: Option<usize>,
    /// The sites marked for a batch delete, by slug.
    pub selected_sites: SlugSet,
    pub site_detail: Option<Site>,
    pub analytics: Option<Analytics>,
    pub drives: Vec<Drive>,
    /// The row of the Drive table that is selected.
    pub drive_selection: Option<usize>,
    pub drive_files: Vec<DriveFile>,
    pub profile: Option<Profile>,
    pub prompt: Option<Prompt>,
    pub input: String,
    pub status: String,
    pub error: Option<String>,
    pub show_help: bool,
    pub should_quit: bool,
}

/// The site whose row is selected, if the selection points at one.
pub open spec fn selected_site_of(app: App) -> Option<Site> {
    match pointed(app.site_selection, app.sites@.len()) {
        Some(i) => Some(app.sites@[i]),
        None => None,
    }
}

/// The Drive whose row is selected, if the selection points at one.
pub open spec fn selected_drive_of(app: App) -> Option<Drive> {
    match pointed(app.drive_selection, app.drives@.len()) {
        Some(i) => Some(app.drives@[i]),
        None => None,
    }
}

/// Whether `i` is the first row of `sites` with slug `slug`.
pub open spec fn first_with_slug(sites: Seq<Site>, slug: Seq<char>, i: int) -> bool {
    &&& 0 <= i < sites.len()
    &&& sites[i].slug@ == slug
    &&& forall|j: int| 0 <= j < i ==> sites[j].slug@ != slug
}

/// Whether `after` is the site selection that points at the first site with
/// slug `slug` when there is one, and otherwise `before` kept within the table.
pub open spec fn restores(sites: Seq<Site>, slug: Option<Seq<char>>, before: Option<usize>, after: Option<usize>) -> bool {
    &&& forall|i: int| #![auto] slug is Some && first_with_slug(sites, slug->0, i) ==> after == Some(i as usize)
    &&& slug is None || !(exists|i: int| #![auto] first_with_slug(sites, slug->0, i)) ==> after == clamped(before, sites.len())
}

/// The state after moving the selection of the current section's table by
/// `delta` rows; the Account section has no table.
pub open spec fn after_move(app: App, delta: int) -> App {
    match app.section {
        Section::Sites => App { site_selection: moved(app.site_selection, app.sites@.len(), delta), ..app },
        Section::Drives => App { drive_selection: moved(app.drive_selection, app.drives@.len(), delta), ..app },
        Section::Account => app,
    }
}

/// The state after jumping to the first or last row of the current section's table.
pub open spec fn after_edge(app: App, end: bool) -> App {
    match app.section {
        Section::Sites => App { site_selection: edge(app.sites@.len(), end), ..app },
        Section::Drives => App { drive_selection: edge(app.drives@.len(), end), ..app },
        Section::Account => app,
    }
}

impl App {
    /// The state the application starts in: the Sites section, the first
    /// row of each table selected, nothing loaded, status "Connecting…".
    pub fn new() -> (app: Self)
        ensures
            app.section == Section::Sites,
            app.sites@.len() == 0,
            app.site_selection == Some(0usize),
            app.selected_sites@ == Set::<Seq<char>>::empty(),
            app.site_detail is None,
            app.analytics is None,
            app.drives@.len() == 0,
            app.drive_selection == Some(0usize),
            app.drive_files@.len() == 0,
            app.profile is None,
            app.prompt is None,
            app.input@ == Seq::<char>::empty(),
            app.status@ == "Connecting\u{2026}"@,
            app.error is None,
            !app.show_help,
            !app.should_quit,
    {
        App {
            section: Section::Sites,
            sites: Vec::new(),
            site_selection: Some(0),
            selected_sites: SlugSet::new(),
            site_detail: None,
            analytics: None,
            drives: Vec::new(),
            drive_selection: Some(0),
            drive_files: Vec::new(),
            profile: None,
            prompt: None,
            input: String::new(),
            status: String::from_str("Connecting\u{2026}"),
            error: None,
            show_help: false,
            should_quit: false,
        }
    }

    /// The site whose row is selected.
    pub fn selected_site(&self) -> (r: Option<&Site>)
        ensures
            r is Some == selected_site_of(*self) is Some,
            r is Some ==> *r->0 == selected_site_of(*self)->0,
    {
        match self.site_selection {
            Some(index) => {
                if index < self.sites.len() {
                    Some(&self.sites[index])
                } else {
                    None
                }
            },
            None => None,
        }
    }

    /// The Drive whose row is selected.
    pub fn selected_drive(&self) -> (r: Option<&Drive>)
        ensures
            r is Some == selected_drive_of(*self) is Some,
            r is Some ==> *r->0 == selected_drive_of(*self)->0,
    {
        match self.drive_selection {
            Some(index) => {
                if index < self.drives.len() {
                    Some(&self.drives[index])
                } else {
                    None
                }
            },
            None => None,
        }
    }

    /// Goes to the next section, from Account back to Sites.
    pub fn next_section(&mut self)
        ensures
            *final(self) == (App { section: section_after(old(self).section), ..*old(self) }),
    {
        self.section = match self.section {
            Section::Sites => Section::Drives,
            Section::Drives => Section::Account,
            Section::Account => Section::Sites,
        };
    }

    /// Goes to the previous section, from Sites back to Account.
    pub fn previous_section(&mut self)
        ensures
            *final(self) == (App { section: section_before(old(self).section), ..*old(self) }),
    {
        self.section = match self.section {
            Section::Sites => Section::Account,
            Section::Drives => Section::Sites,
            Section::Account => Section::Drives,
        };
    }

    /// Moves the selection of the current section's table by `delta` rows,
    /// within the table; the Account section has no table.
    pub fn move_selection(&mut self, delta: isize)
        ensures
            *final(self) == after_move(*old(self), delta as int),
    {
        match self.section {
            Section::Sites => {
                self.site_selection = moved_selection(self.site_selection, self.sites.len(), delta);
            },
            Section::Drives => {
                self.drive_selection = moved_selection(self.drive_selection, self.drives.len(), delta);
            },
            Section::Account => {},
        }
    }

    /// Selects the first (`end` false) or last row of the current section's table.
    pub fn select_edge(&mut self, end: bool)
        ensures
            *final(self) == after_edge(*old(self), end),
    {
        match self.section {
            Section::Sites => {
                let len = self.sites.len();
                self.site_selection = if len > 0 { Some(if end { len - 1 } else { 0 }) } else { None };
            },
            Section::Drives => {
                let len = self.drives.len();
                self.drive_selection = if len > 0 { Some(if end { len - 1 } else { 0 }) } else { None };
            },
            Section::Account => {},
        }
    }

    /// Keeps the site selection within the site table.
    pub fn clamp_site_selection(&mut self)
        ensures
            *final(self) == (App { site_selection: clamped(old(self).site_selection, old(self).sites@.len()), ..*old(self) }),
    {
        self.site_selection = clamped_selection(self.site_selection, self.sites.len());
    }

    /// Keeps the Drive selection within the Drive table.
    pub fn clamp_drive_selection(&mut self)
        ensures
            *final(self) == (App { drive_selection: clamped(old(self).drive_selection, old(self).drives@.len()), ..*old(self) }),
    {
        self.drive_selection = clamped_selection(self.drive_selection, self.drives.len());
    }

    /// Selects the first site with slug `slug` when there is one; otherwise
    /// keeps the selection within the table.
    pub fn restore_site_selection(&mut self, slug: Option<&String>)
        ensures
            restores(old(self).sites@, match slug { Some(t) => Some(t@), None => None }, old(self).site_selection, final(self).site_selection),
            *final(self) == (App { site_selection: final(self).site_selection, ..*old(self) }),
    {
        match slug {
            Some(s) => {
                let n = self.sites.len();
                let mut i: usize = 0;
                while i < n
                    invariant
                        n == self.sites@.len(),
                        i <= n,
                        *self == *old(self),
                        slug == Some(s),
                        forall|j: int| 0 <= j < i ==> self.sites@[j].slug@ != s@,
                    decreases n - i,
                {
                    if self.sites[i].slug == *s {
                        assert(first_with_slug(old(self).sites@, s@, i as int));
                        assert forall|c: int| #![auto] first_with_slug(old(self).sites@, s@, c) implies c == i as int by {
                            if c < i {
                                assert(old(self).sites@[c].slug@ != s@);
                            } else if c > i {
                                assert(old(self).sites@[i as int].slug@ == s@);
                            }
                        }
                        self.site_selection = Some(i);
                        let ghost key: Option<Seq<char>> = match slug { Some(t) => Some(t@), None => None };
                        assert(key->0 == s@);
                        assert(first_with_slug(old(self).sites@, key->0, i as int));
                        return;
                    }
                    i = i + 1;
                }
                assert(!exists|k: int| #![auto] first_with_slug(old(self).sites@, s@, k));
                self.clamp_site_selection();
            },
            None => {
                self.clamp_site_selection();
            },
        }
    }
}

/// `moved` on machine integers.
fn moved_selection(selection: Option<usize>, len: usize, delta: isize) -> (r: Option<usize>)
    ensures
        r == moved(selection, len as nat, delta as int),
{
    if len == 0 {
        return None;
    }
    let current: i128 = match selection {
        Some(i) => i as i128,
        None => 0,
    };
    let target: i128 = current + delta as i128;
    let last: i128 = (len - 1) as i128;
    let next: i128 = if target < 0 { 0 } else if target > last { last } else { target };
    Some(next as usize)
}

/// `clamped` on machine integers.
fn clamped_selection(selection: Option<usize>, len: usize) -> (r: Option<usize>)
    ensures
        r == clamped(selection, len as nat),
{
    if len == 0 {
        return None;
    }
    let current: usize = match selection {
        Some(i) => i,
        None => 0,
    };
    Some(if current > len - 1 { len - 1 } else { current })
}

} // verus!
