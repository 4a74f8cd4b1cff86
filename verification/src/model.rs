//! The here.now API's data model, as plain values.
use vstd::prelude::*;

verus! {

/// A published site.
#[derive(Clone, Debug)]
pub struct Site {
    pub slug: String,
    pub site_url: String,
    pub updated_at: Option<String>,
    pub expires_at: Option<String>,
    pub status: Option<String>,
    pub current_version_id: Option<String>,
    pub pending_version_id: Option<String>,
    pub display_name: Option<String>,
    pub display_description: Option<String>,
    pub manifest: Vec<ManifestEntry>,
}

/// The name a site is shown under: its display name, else its slug.
pub open spec fn site_label(site: Site) -> Seq<char> {
    match site.display_name {
        Some(name) => name@,
        None => site.slug@,
    }
}

impl Site {
    /// The display name when there is one, else the slug.
    pub fn label(&self) -> (r: &str)
        ensures
            r@ == site_label(*self),
    {
        match &self.display_name {
            Some(name) => name.as_str(),
            None => self.slug.as_str(),
        }
    }
}

impl Default for Site {
    fn default() -> (r: Self)
        ensures
            r.slug@ == Seq::<char>::empty(),
            r.site_url@ == Seq::<char>::empty(),
            r.updated_at is None,
            r.expires_at is None,
            r.status is None,
            r.current_version_id is None,
            r.pending_version_id is None,
            r.display_name is None,
            r.display_description is None,
            r.manifest@ == Seq::<ManifestEntry>::empty(),
    {
        Site {
            slug: String::new(),
            site_url: String::new(),
            updated_at: None,
            expires_at: None,
            status: None,
            current_version_id: None,
            pending_version_id: None,
            display_name: None,
            display_description: None,
            manifest: Vec::new(),
        }
    }
}

/// One file of a site's manifest.
#[derive(Clone, Debug)]
pub struct ManifestEntry {
    pub path: String,
    pub size: u64,
    pub content_type: Option<String>,
}

impl Default for ManifestEntry {
    fn default() -> (r: Self)
        ensures
            r.path@ == Seq::<char>::empty(),
            r.size == 0,
            r.content_type is None,
    {
        ManifestEntry { path: String::new(), size: 0, content_type: None }
    }
}

/// The list of sites the API returns.
#[derive(Clone, Debug)]
pub struct SitesResponse {
    pub publishes: Vec<Site>,
}

/// One hit of a content search.
#[derive(Clone, Debug)]
pub struct SearchResult {
    pub slug: String,
    pub site_url: String,
    pub primary_url: Option<String>,
    pub display_name: Option<String>,
    pub updated_at: Option<String>,
    pub matched_paths: Vec<String>,
    pub snippet: Option<String>,
}

/// The hits of a content search.
#[derive(Clone, Debug)]
pub struct SearchResponse {
    pub results: Vec<SearchResult>,
}

/// A Drive.
#[derive(Clone, Debug)]
pub struct Drive {
    pub id: String,
    pub name: String,
    pub is_default: bool,
    pub description: Option<String>,
    pub status: String,
    pub head_version_id: Option<String>,
    pub dashboard_url: Option<String>,
    pub updated_at: Option<String>,
}

/// The list of Drives the API returns.
#[derive(Clone, Debug)]
pub struct DrivesResponse {
    pub drives: Vec<Drive>,
}

/// One file stored in a Drive.
#[derive(Clone, Debug)]
pub struct DriveFile {
    pub path: String,
    pub size: Option<u64>,
    pub etag: Option<String>,
    pub content_type: Option<String>,
    pub updated_at: Option<String>,
    pub last_modified_by: Option<String>,
    pub last_operation: Option<String>,
}

/// The files of a Drive.
#[derive(Clone, Debug)]
pub struct DriveFilesResponse {
    pub files: Vec<DriveFile>,
}

/// The account's public profile.
#[derive(Clone, Debug)]
pub struct Profile {
    pub username: String,
    pub enabled: bool,
    pub add_new_sites_to_profile: bool,
    pub url: String,
    pub feed_url: String,
}

/// Analytics of one site over a range of days.
#[derive(Clone, Debug)]
pub struct Analytics {
    pub range: String,
    pub last_event_at: Option<String>,
    pub totals: AnalyticsTotals,
    pub top_paths: Vec<MetricRow>,
    pub top_referrers: Vec<MetricRow>,
    pub top_countries: Vec<MetricRow>,
}

/// Totals of an analytics report.
#[derive(Clone, Debug)]
pub struct AnalyticsTotals {
    pub all_time_views: Option<u64>,
    pub range_views: Option<u64>,
    pub range_visitors: Option<u64>,
}

/// One row of an analytics ranking.
#[derive(Clone, Debug)]
pub struct MetricRow {
    pub path: Option<String>,
    pub referrer: Option<String>,
    pub country: Option<String>,
    pub views: Option<u64>,
}

/// The body of a metadata update: a field that is `None` is left out.
#[derive(Clone, Debug)]
pub struct MetadataPatch<'a> {
    pub display_name: Option<&'a str>,
    pub display_description: Option<&'a str>,
}

/// The view of an optional string.
pub open spec fn text_of(o: Option<String>) -> Option<Seq<char>> {
    match o {
        Some(s) => Some(s@),
        None => None,
    }
}

/// A copy of an optional string.
pub fn copy_text(o: &Option<String>) -> (r: Option<String>)
    ensures
        r == *o,
{
    match o {
        Some(s) => Some(s.clone()),
        None => None,
    }
}

/// The manifest entry that a search lists for a matched path.
pub open spec fn matched_entry(path: String) -> ManifestEntry {
    ManifestEntry { path, size: 0, content_type: None }
}

/// The URL a search hit is opened at: its primary URL when it has one.
pub open spec fn hit_url(hit: SearchResult) -> String {
    match hit.primary_url {
        Some(url) => url,
        None => hit.site_url,
    }
}

/// Whether `site` is the site that `hit` stands for: the hit's slug, URL,
/// update time and display name, its snippet as description, its matched
/// paths as manifest, and nothing else.
pub open spec fn is_site_of_hit(site: Site, hit: SearchResult) -> bool {
    &&& site.slug == hit.slug
    &&& site.site_url == hit_url(hit)
    &&& site.updated_at == hit.updated_at
    &&& site.expires_at is None
    &&& site.status is None
    &&& site.current_version_id is None
    &&& site.pending_version_id is None
    &&& site.display_name == hit.display_name
    &&& site.display_description == hit.snippet
    &&& site.manifest@.len() == hit.matched_paths@.len()
    &&& forall|i: int|
        0 <= i < site.manifest@.len() ==> #[trigger] site.manifest@[i] == matched_entry(
            hit.matched_paths@[i],
        )
}

/// The site that a search hit stands for.
pub fn site_from_hit(hit: &SearchResult) -> (site: Site)
    ensures
        is_site_of_hit(site, *hit),
{
    let mut manifest: Vec<ManifestEntry> = Vec::new();
    let n = hit.matched_paths.len();
    for i in 0..n
        invariant
            n == hit.matched_paths@.len(),
            manifest@.len() == i,
            forall|j: int|
                0 <= j < i ==> #[trigger] manifest@[j] == matched_entry(hit.matched_paths@[j]),
    {
        manifest.push(ManifestEntry { path: hit.matched_paths[i].clone(), size: 0, content_type: None });
    }
    let site_url = match &hit.primary_url {
        Some(url) => url.clone(),
        None => hit.site_url.clone(),
    };
    Site {
        slug: hit.slug.clone(),
        site_url,
        updated_at: copy_text(&hit.updated_at),
        expires_at: None,
        status: None,
        current_version_id: None,
        pending_version_id: None,
        display_name: copy_text(&hit.display_name),
        display_description: copy_text(&hit.snippet),
        manifest,
    }
}

/// The sites that a list of search hits stands for, in the same order.
pub fn sites_from_hits(hits: &Vec<SearchResult>) -> (sites: Vec<Site>)
    ensures
        sites@.len() == hits@.len(),
        forall|i: int| 0 <= i < sites@.len() ==> is_site_of_hit(#[trigger] sites@[i], hits@[i]),
{
    let mut sites: Vec<Site> = Vec::new();
    let n = hits.len();
    for i in 0..n
        invariant
            n == hits@.len(),
            sites@.len() == i,
            forall|j: int| 0 <= j < i ==> is_site_of_hit(#[trigger] sites@[j], hits@[j]),
    {
        sites.push(site_from_hit(&hits[i]));
    }
    sites
}

/// The body that renames a site: the new name, and the description only
/// where one is given.
pub fn metadata_patch<'a>(name: &'a str, description: Option<&'a str>) -> (p: MetadataPatch<'a>)
    ensures
        p.display_name == Some(name),
        p.display_description == description,
{
    MetadataPatch { display_name: Some(name), display_description: description }
}

} // verus!
