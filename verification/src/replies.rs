//! What the application does with the API's replies.
use vstd::prelude::*;
use crate::app::{clamped, restores, selected_site_of, App};
use crate::messages::{
    counts_text, detail_loaded_text, drive_loaded_text, join2, matches_text, number_then,
    refreshed_detail_text, };
use crate::model::{text_of, Analytics, Drive, DriveFile, Profile, Site};
use crate::slug_set::slugs_of;
use crate::deletion::deletions_reported;
use crate::keys::{AfterRefresh, Command};
use crate::text::push_decimal;

verus! {

/// The error that a list reload leaves: that of the last failed request, in
/// the order sites, Drives, profile; otherwise the error there was.
pub open spec fn reload_error(
    before: Option<String>,
    sites: Result<Vec<Site>, String>,
    drives: Result<Vec<Drive>, String>,
    profile: Result<Profile, String>,
) -> Option<String> {
    match profile {
        Err(e) => Some(e),
        Ok(_) => match drives {
            Err(e) => Some(e),
            Ok(_) => match sites {
                Err(e) => Some(e),
                Ok(_) => before,
            },
        },
    }
}

/// The counts text of `app`.
pub open spec fn app_counts(app: App) -> Seq<char> {
    counts_text(app.sites@.len(), app.drives@.len())
}

impl App {
    /// Starts a refresh: status "Refreshing…", no error; returns the slug of
    /// the selected site, to select it again once the list has reloaded.
    pub fn begin_refresh(&mut self) -> (r: Option<String>)
        ensures
            final(self).status@ == "Refreshing\u{2026}"@,
            *final(self) == (App { status: final(self).status, error: None, ..*old(self) }),
            text_of(r) == match selected_site_of(*old(self)) {
                Some(site) => Some(site.slug@),
                None => None,
            },
    {
        self.status = String::from_str("Refreshing\u{2026}");
        self.error = None;
        match self.selected_site() {
            Some(site) => Some(site.slug.clone()),
            None => None,
        }
    }

    /// The counts of sites and Drives ("N Sites · M Drives").
    pub fn counts(&self) -> (r: String)
        ensures
            r@ == app_counts(*self),
    {
        let mut r = number_then(self.sites.len() as u64, " Sites \u{b7} ");
        push_decimal(&mut r, self.drives.len() as u64);
        r.append(" Drives");
        r
    }

    /// Takes in the reloaded lists: sites (marks of vanished sites dropped,
    /// the previously selected slug selected again), Drives (selection kept
    /// in the table) and profile; a failed request leaves its part as it was
    /// and sets the error. Returns the slug of the selected site, whose files
    /// are to be loaded next; when none is selected the detail is cleared and
    /// the status shows the counts.
    pub fn apply_listings(
        &mut self,
        previous: Option<String>,
        sites: Result<Vec<Site>, String>,
        drives: Result<Vec<Drive>, String>,
        profile: Result<Profile, String>,
    ) -> (r: Option<String>)
        ensures
            match sites {
                Ok(v) => {
                    &&& final(self).sites == v
                    &&& final(self).selected_sites@ == old(self).selected_sites@.intersect(slugs_of(v@).to_set())
                    &&& restores(v@, text_of(previous), old(self).site_selection, final(self).site_selection)
                },
                Err(_) => {
                    &&& final(self).sites == old(self).sites
                    &&& final(self).selected_sites == old(self).selected_sites
                    &&& final(self).site_selection == old(self).site_selection
                },
            },
            match drives {
                Ok(v) => final(self).drives == v && final(self).drive_selection == clamped(old(self).drive_selection, v@.len()),
                Err(_) => final(self).drives == old(self).drives && final(self).drive_selection == old(self).drive_selection,
            },
            match profile {
                Ok(p) => final(self).profile == Some(p),
                Err(_) => final(self).profile == old(self).profile,
            },
            final(self).error == reload_error(old(self).error, sites, drives, profile),
            text_of(r) == match selected_site_of(*final(self)) {
                Some(site) => Some(site.slug@),
                None => None,
            },
            r is None ==> {
                &&& final(self).site_detail is None
                &&& final(self).analytics is None
                &&& final(self).status@ == app_counts(*final(self))
            },
            r is Some ==> {
                &&& final(self).site_detail == old(self).site_detail
                &&& final(self).analytics == old(self).analytics
                &&& final(self).status == old(self).status
            },
            final(self).section == old(self).section,
            final(self).drive_files == old(self).drive_files,
            final(self).prompt == old(self).prompt,
            final(self).input == old(self).input,
            final(self).show_help == old(self).show_help,
            final(self).should_quit == old(self).should_quit,
    {
        match sites {
            Ok(list) => {
                self.sites = list;
                self.selected_sites.retain_listed(&self.sites);
                let previous_slug = match &previous {
                    Some(s) => Some(s),
                    None => None,
                };
                self.restore_site_selection(previous_slug);
            },
            Err(error) => {
                self.error = Some(error);
            },
        }
        match drives {
            Ok(list) => {
                self.drives = list;
                self.clamp_drive_selection();
            },
            Err(error) => {
                self.error = Some(error);
            },
        }
        match profile {
            Ok(p) => {
                self.profile = Some(p);
            },
            Err(error) => {
                self.error = Some(error);
            },
        }
        match self.selected_site() {
            Some(site) => Some(site.slug.clone()),
            None => {
                self.site_detail = None;
                self.analytics = None;
                self.status = self.counts();
                None
            },
        }
    }

    /// Takes in the files of the selected site after a refresh.
    pub fn apply_refreshed_detail(&mut self, slug: &String, result: Result<Site, String>)
        ensures
            match result {
                Ok(site) => {
                    &&& final(self).status@ == refreshed_detail_text(old(self).sites@.len(), old(self).drives@.len(), site.manifest@.len(), slug@)
                    &&& *final(self) == (App { site_detail: Some(site), analytics: None, status: final(self).status, ..*old(self) })
                },
                Err(e) => {
                    &&& final(self).status@ == app_counts(*old(self))
                    &&& *final(self) == (App { site_detail: None, error: Some(e), status: final(self).status, ..*old(self) })
                },
            },
    {
        let counts = self.counts();
        match result {
            Ok(site) => {
                let mut status = counts;
                status.append(" \u{b7} ");
                push_decimal(&mut status, site.manifest.len() as u64);
                status.append(" files in ");
                status.append(slug.as_str());
                self.site_detail = Some(site);
                self.analytics = None;
                self.status = status;
            },
            Err(error) => {
                self.site_detail = None;
                self.error = Some(error);
                self.status = counts;
            },
        }
    }

    /// Takes in the hits of a search: they replace the site list, marks and
    /// detail are cleared and the first hit is selected.
    pub fn finish_search(&mut self, query: &String, result: Result<Vec<Site>, String>)
        ensures
            match result {
                Ok(v) => {
                    &&& final(self).sites == v
                    &&& final(self).selected_sites@ == Set::<Seq<char>>::empty()
                    &&& final(self).site_selection == (if v@.len() > 0 { Some(0usize) } else { None })
                    &&& final(self).status@ == matches_text(v@.len(), query@)
                    &&& *final(self) == (App {
                        sites: final(self).sites,
                        selected_sites: final(self).selected_sites,
                        site_selection: final(self).site_selection,
                        site_detail: None,
                        analytics: None,
                        status: final(self).status,
                        ..*old(self)
                    })
                },
                Err(e) => *final(self) == (App { error: Some(e), ..*old(self) }),
            },
    {
        match result {
            Ok(list) => {
                self.sites = list;
                self.selected_sites.clear();
                self.site_selection = if self.sites.len() > 0 { Some(0) } else { None };
                self.site_detail = None;
                self.analytics = None;
                let mut status = number_then(self.sites.len() as u64, " matches for \u{201c}");
                status.append(query.as_str());
                status.append("\u{201d} \u{b7} r clears");
                self.status = status;
            },
            Err(error) => {
                self.error = Some(error);
            },
        }
    }

    /// Takes in the outcome of a rename. On success the lists are reloaded
    /// and then the renamed site's detail.
    pub fn finish_rename(&mut self, slug: &String, result: Result<(), String>) -> (r: Command)
        ensures
            match result {
                Ok(_) => {
                    &&& r matches Command::RefreshThen { then: AfterRefresh::LoadSiteDetail { slug: s } } && s@ == slug@
                    &&& final(self).status@ == "Renamed "@ + slug@
                    &&& *final(self) == (App { status: final(self).status, ..*old(self) })
                },
                Err(e) => r is Nothing && *final(self) == (App { error: Some(e), ..*old(self) }),
            },
    {
        match result {
            Ok(()) => {
                self.status = join2("Renamed ", slug.as_str());
                Command::RefreshThen { then: AfterRefresh::LoadSiteDetail { slug: slug.clone() } }
            },
            Err(error) => {
                self.error = Some(error);
                Command::Nothing
            },
        }
    }

    /// Goes on after the lists were reloaded: announces the reload of a
    /// site's detail and asks for it, or reports a finished delete batch.
    pub fn after_refresh(&mut self, then: AfterRefresh) -> (r: Command)
        ensures
            match then {
                AfterRefresh::LoadSiteDetail { slug } => {
                    &&& r matches Command::LoadSiteDetail { slug: s } && s@ == slug@
                    &&& final(self).status@ == "Loading "@ + slug@ + "\u{2026}"@
                    &&& *final(self) == (App { status: final(self).status, ..*old(self) })
                },
                AfterRefresh::ReportDeletions { batch } => r is Nothing && deletions_reported(*old(self), *final(self), batch),
            },
    {
        match then {
            AfterRefresh::LoadSiteDetail { slug } => {
                self.begin_site_detail(&slug);
                Command::LoadSiteDetail { slug }
            },
            AfterRefresh::ReportDeletions { batch } => {
                self.report_deletions(&batch);
                Command::Nothing
            },
        }
    }

    /// Starts loading the files of the site `slug`.
    pub fn begin_site_detail(&mut self, slug: &String)
        ensures
            final(self).status@ == "Loading "@ + slug@ + "\u{2026}"@,
            *final(self) == (App { status: final(self).status, ..*old(self) }),
    {
        let mut status = String::from_str("Loading ");
        status.append(slug.as_str());
        status.append("\u{2026}");
        self.status = status;
    }

    /// Takes in the files of a site.
    pub fn finish_site_detail(&mut self, result: Result<Site, String>)
        ensures
            match result {
                Ok(site) => final(self).status@ == detail_loaded_text(site.manifest@.len())
                    && *final(self) == (App { site_detail: Some(site), analytics: None, status: final(self).status, ..*old(self) }),
                Err(e) => *final(self) == (App { error: Some(e), ..*old(self) }),
            },
    {
        match result {
            Ok(site) => {
                self.status = number_then(site.manifest.len() as u64, " files \u{b7} Enter refreshes detail");
                self.site_detail = Some(site);
                self.analytics = None;
            },
            Err(error) => {
                self.error = Some(error);
            },
        }
    }

    /// Takes in the files of the Drive named `name`.
    pub fn finish_drive_files(&mut self, name: &String, result: Result<Vec<DriveFile>, String>)
        ensures
            match result {
                Ok(v) => final(self).status@ == drive_loaded_text(name@, v@.len())
                    && *final(self) == (App { drive_files: v, status: final(self).status, ..*old(self) }),
                Err(e) => *final(self) == (App { error: Some(e), ..*old(self) }),
            },
    {
        match result {
            Ok(files) => {
                let mut status = join2(name.as_str(), " \u{b7} ");
                push_decimal(&mut status, files.len() as u64);
                status.append(" files");
                self.drive_files = files;
                self.status = status;
            },
            Err(error) => {
                self.error = Some(error);
            },
        }
    }

    /// Takes in the outcome of a duplicate. On success the lists are
    /// reloaded.
    pub fn finish_duplicate(&mut self, result: Result<Site, String>) -> (r: Command)
        ensures
            match result {
                Ok(site) => r is Refresh && final(self).status@ == "Duplicated as "@ + site.slug@
                    && *final(self) == (App { status: final(self).status, ..*old(self) }),
                Err(e) => r is Nothing && *final(self) == (App { error: Some(e), ..*old(self) }),
            },
    {
        match result {
            Ok(site) => {
                self.status = join2("Duplicated as ", site.slug.as_str());
                Command::Refresh
            },
            Err(error) => {
                self.error = Some(error);
                Command::Nothing
            },
        }
    }

    /// Takes in a site's 30-day analytics.
    pub fn finish_analytics(&mut self, result: Result<Analytics, String>)
        ensures
            match result {
                Ok(a) => final(self).status@ == "30-day analytics loaded"@
                    && *final(self) == (App { analytics: Some(a), status: final(self).status, ..*old(self) }),
                Err(e) => *final(self) == (App { error: Some(e), ..*old(self) }),
            },
    {
        match result {
            Ok(analytics) => {
                self.analytics = Some(analytics);
                self.status = String::from_str("30-day analytics loaded");
            },
            Err(error) => {
                self.error = Some(error);
            },
        }
    }

    /// Takes in the outcome of opening `target` in the browser.
    pub fn finish_open(&mut self, target: &String, result: Result<(), String>)
        ensures
            match result {
                Ok(_) => final(self).status@ == "Opened "@ + target@
                    && *final(self) == (App { status: final(self).status, ..*old(self) }),
                Err(e) => final(self).error matches Some(m) && m@ == "could not open URL: "@ + e@
                    && *final(self) == (App { error: final(self).error, ..*old(self) }),
            },
    {
        match result {
            Ok(()) => {
                self.status = join2("Opened ", target.as_str());
            },
            Err(error) => {
                self.error = Some(join2("could not open URL: ", error.as_str()));
            },
        }
    }
}

} // verus!
