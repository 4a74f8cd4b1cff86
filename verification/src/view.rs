//! The text that each screen shows, line by line, with the tone each line is
//! drawn in. Drawing it stays with the terminal front end.
use vstd::prelude::*;
use crate::app::{selected_site_of, App, Prompt, Section};
use crate::messages::{join2, join3, joined};
use crate::model::{Analytics, Drive, DriveFile, MetricRow, Profile, Site, site_label};
use crate::model::text_of;
use crate::slug_set::texts;
use crate::time::{relative_of, relative_time};
use crate::text::{decimal, pad_left, pad_right, push_decimal, push_padded_left, push_padded_right};

verus! {

/// How a piece of text is drawn.
#[derive(Clone, Copy, Debug, PartialEq, Eq, Structural)]
pub enum Tone {
    Plain,
    Accent,
    Muted,
    Warning,
}

/// One line of a panel: a muted lead (often empty) followed by text in a tone.
#[derive(Clone, Debug)]
pub struct Line {
    pub lead: String,
    pub text: String,
    pub tone: Tone,
}

/// A line as plain values.
pub open spec fn line_view(l: Line) -> (Seq<char>, Seq<char>, Tone) {
    (l.lead@, l.text@, l.tone)
}

/// Lines as plain values.
pub open spec fn lines_view(v: Seq<Line>) -> Seq<(Seq<char>, Seq<char>, Tone)> {
    v.map_values(|l: Line| line_view(l))
}

/// A line without lead.
pub open spec fn plain(text: Seq<char>, tone: Tone) -> (Seq<char>, Seq<char>, Tone) {
    (Seq::empty(), text, tone)
}

fn line(text: String, tone: Tone) -> (r: Line)
    ensures
        line_view(r) == plain(text@, tone),
{
    Line { lead: String::new(), text, tone }
}

fn push_line(lines: &mut Vec<Line>, l: Line)
    ensures
        lines_view(final(lines)@) == lines_view(old(lines)@).push(line_view(l)),
{
    lines.push(l);
    assert(lines_view(lines@) =~= lines_view(old(lines)@).push(line_view(l)));
}

/// The site that the detail panel shows: the loaded detail when it is that
/// of the selected site, else the selected site.
pub open spec fn shown_site(app: App) -> Option<Site> {
    match app.site_detail {
        Some(detail) => match selected_site_of(app) {
            Some(site) => if site.slug@ == detail.slug@ { Some(detail) } else { Some(site) },
            None => None,
        },
        None => selected_site_of(app),
    }
}

/// The site that the detail panel shows.
pub fn detail_site(app: &App) -> (r: Option<&Site>)
    ensures
        r is Some == shown_site(*app) is Some,
        r is Some ==> *r->0 == shown_site(*app)->0,
{
    let selected = app.selected_site();
    match &app.site_detail {
        Some(detail) => match selected {
            Some(site) => if site.slug == detail.slug { Some(detail) } else { Some(site) },
            None => None,
        },
        None => selected,
    }
}

/// An optional field as a line `prefix` + value, or no line.
pub open spec fn optional_line(value: Option<String>, prefix: Seq<char>, tone: Tone) -> Seq<(Seq<char>, Seq<char>, Tone)> {
    match value {
        Some(v) => seq![plain(prefix + v@, tone)],
        None => Seq::empty(),
    }
}

/// The status of a site, "unknown" when it has none.
pub open spec fn status_or(site: Site, fallback: Seq<char>) -> Seq<char> {
    match site.status {
        Some(s) => s@,
        None => fallback,
    }
}

/// The lines of the detail panel of a site: name, slug, URL, status, then
/// description, version, pending version and expiry where they are known.
pub open spec fn site_detail_text(site: Site) -> Seq<(Seq<char>, Seq<char>, Tone)> {
    seq![
        plain(site_label(site), Tone::Accent),
        plain(site.slug@, Tone::Muted),
        plain(site.site_url@, Tone::Plain),
        plain("status  "@ + status_or(site, "unknown"@), Tone::Plain),
    ] + optional_line(site.display_description, Seq::empty(), Tone::Plain)
        + optional_line(site.current_version_id, "version  "@, Tone::Muted)
        + optional_line(site.pending_version_id, "pending  "@, Tone::Warning)
        + optional_line(site.expires_at, "expires  "@, Tone::Warning)
}

fn push_optional(lines: &mut Vec<Line>, value: &Option<String>, prefix: &str, tone: Tone)
    ensures
        lines_view(final(lines)@) == lines_view(old(lines)@) + optional_line(*value, prefix@, tone),
{
    match value {
        Some(v) => {
            push_line(lines, line(join2(prefix, v.as_str()), tone));
            assert(lines_view(lines@) =~= lines_view(old(lines)@) + optional_line(*value, prefix@, tone));
        },
        None => {
            assert(lines_view(lines@) =~= lines_view(old(lines)@) + optional_line(*value, prefix@, tone));
        },
    }
}

/// The lines of the detail panel of a site.
pub fn site_detail_lines(site: &Site) -> (r: Vec<Line>)
    ensures
        lines_view(r@) == site_detail_text(*site),
{
    let mut lines: Vec<Line> = Vec::new();
    push_line(&mut lines, line(String::from_str(site.label()), Tone::Accent));
    push_line(&mut lines, line(site.slug.clone(), Tone::Muted));
    push_line(&mut lines, line(site.site_url.clone(), Tone::Plain));
    let status = match &site.status {
        Some(s) => join2("status  ", s.as_str()),
        None => join2("status  ", "unknown"),
    };
    push_line(&mut lines, line(status, Tone::Plain));
    match &site.display_description {
        Some(d) => {
            push_line(&mut lines, line(d.clone(), Tone::Plain));
            assert(Seq::<char>::empty() + d@ =~= d@);
        },
        None => {},
    }
    let ghost head = lines_view(lines@);
    assert(head =~= seq![
        plain(site_label(*site), Tone::Accent),
        plain(site.slug@, Tone::Muted),
        plain(site.site_url@, Tone::Plain),
        plain("status  "@ + status_or(*site, "unknown"@), Tone::Plain),
    ] + optional_line(site.display_description, Seq::empty(), Tone::Plain));
    push_optional(&mut lines, &site.current_version_id, "version  ", Tone::Muted);
    push_optional(&mut lines, &site.pending_version_id, "pending  ", Tone::Warning);
    push_optional(&mut lines, &site.expires_at, "expires  ", Tone::Warning);
    assert(lines_view(lines@) =~= site_detail_text(*site));
    lines
}

/// The title of a site's file list.
pub fn manifest_title(site: &Site) -> (r: String)
    ensures
        site.manifest@.len() == 0 ==> r@ == " Files \u{b7} Enter to load "@,
        site.manifest@.len() > 0 ==> r@ == " Files  "@ + decimal(site.manifest@.len()) + " "@,
{
    if site.manifest.len() == 0 {
        String::from_str(" Files \u{b7} Enter to load ")
    } else {
        let mut r = String::from_str(" Files  ");
        push_decimal(&mut r, site.manifest.len() as u64);
        r.append(" ");
        r
    }
}

/// The content type after a file's size: two spaces and the type, or nothing.
pub fn content_type_suffix(kind: &Option<String>) -> (r: String)
    ensures
        match *kind {
            Some(k) => r@ == "  "@ + k@,
            None => r@ == Seq::<char>::empty(),
        },
{
    match kind {
        Some(k) => join2("  ", k.as_str()),
        None => String::new(),
    }
}

/// The status column of a site row: its status, or "—".
pub fn site_status_text(site: &Site) -> (r: &str)
    ensures
        r@ == status_or(*site, "\u{2014}"@),
{
    match &site.status {
        Some(s) => s.as_str(),
        None => "\u{2014}",
    }
}

/// Whether a site row is drawn as active (its status is "active").
pub fn site_is_active(site: &Site) -> (r: bool)
    ensures
        r == (site.status matches Some(s) && s@ == "active"@),
{
    match &site.status {
        Some(s) => *s == String::from_str("active"),
        None => false,
    }
}

/// A table title with a count: `" {name}  {n} "`.
pub fn count_title(name: &str, n: usize) -> (r: String)
    ensures
        r@ == " "@ + name@ + "  "@ + decimal(n as nat) + " "@,
{
    let mut r = join3(" ", name, "  ");
    push_decimal(&mut r, n as u64);
    r.append(" ");
    r
}

/// The message of the status bar: the error when there is one, else the status.
pub fn status_message(app: &App) -> (r: &str)
    ensures
        r@ == match app.error {
            Some(e) => e@,
            None => app.status@,
        },
{
    match &app.error {
        Some(e) => e.as_str(),
        None => app.status.as_str(),
    }
}

/// The key hints of a section.
pub open spec fn shortcut_text(section: Section) -> Seq<char> {
    match section {
        Section::Sites => " / search  Enter inspect  e rename  d duplicate  x delete  a stats  ? help "@,
        Section::Drives => " Enter files  o dashboard  r refresh  ? help "@,
        Section::Account => " Enter open  r refresh  ? help "@,
    }
}

/// The key hints of a section.
pub fn shortcuts(section: Section) -> (r: &'static str)
    ensures
        r@ == shortcut_text(section),
{
    match section {
        Section::Sites => " / search  Enter inspect  e rename  d duplicate  x delete  a stats  ? help ",
        Section::Drives => " Enter files  o dashboard  r refresh  ? help ",
        Section::Account => " Enter open  r refresh  ? help ",
    }
}

/// The title of a prompt's window.
pub fn prompt_title(prompt: &Prompt) -> (r: &'static str)
    ensures
        r@ == match *prompt {
            Prompt::Search => " Search Sites "@,
            Prompt::EditName => " Rename Site "@,
            Prompt::ConfirmDelete { .. } => " Permanently delete Site? "@,
        },
{
    match prompt {
        Prompt::Search => " Search Sites ",
        Prompt::EditName => " Rename Site ",
        Prompt::ConfirmDelete { .. } => " Permanently delete Site? ",
    }
}

/// The text of a prompt's window: the input after `/ ` for a search, the
/// input for a rename, and the slugs to delete, one per line, with the
/// warning for a confirmation.
pub fn prompt_text(prompt: &Prompt, input: &String) -> (r: String)
    ensures
        r@ == match *prompt {
            Prompt::Search => "/ "@ + input@,
            Prompt::EditName => input@,
            Prompt::ConfirmDelete { slugs } => joined(texts(slugs@), "\n"@)
                + "\n\nThis deletes all stored files. Press y to delete or n/Esc to cancel."@,
        },
{
    match prompt {
        Prompt::Search => join2("/ ", input.as_str()),
        Prompt::EditName => input.clone(),
        Prompt::ConfirmDelete { slugs } => {
            let mut r = crate::messages::join_all(slugs, "\n");
            r.append("\n\nThis deletes all stored files. Press y to delete or n/Esc to cancel.");
            r
        },
    }
}

/// Where the cursor stands in a text prompt, counted from the window's left
/// edge: past the border and padding, the `/ ` of a search and the input.
pub fn cursor_offset(prompt: &Prompt, input: &String) -> (r: usize)
    requires
        input@.len() + 3 <= usize::MAX,
    ensures
        r == 2 + input@.len() + (if *prompt == Prompt::Search { 1int } else { 0 }),
{
    let count = input.as_str().unicode_len();
    match prompt {
        Prompt::Search => 2 + count + 1,
        _ => 2 + count,
    }
}

/// A count that may be missing, as zero when it is.
pub open spec fn count_or_zero(v: Option<u64>) -> nat {
    match v {
        Some(n) => n as nat,
        None => 0,
    }
}

/// The first `n` items of `s`, or all of them when there are fewer.
pub open spec fn first_n<A>(s: Seq<A>, n: nat) -> Seq<A> {
    if s.len() <= n { s } else { s.take(n as int) }
}

/// A ranking row: the views right-aligned in seven columns, then the label.
pub open spec fn ranked_line(row: MetricRow, label: Option<String>, fallback: Seq<char>) -> Seq<char> {
    let name = match label {
        Some(l) => l@,
        None => fallback,
    };
    pad_left(decimal(count_or_zero(row.views)), 7) + "  "@ + name
}

/// A row of the top paths; "/" when the path is missing.
pub open spec fn path_line(row: MetricRow) -> Seq<char> {
    ranked_line(row, row.path, "/"@)
}

/// A row of the top referrers; "Direct" when the referrer is missing.
pub open spec fn referrer_line(row: MetricRow) -> Seq<char> {
    ranked_line(row, row.referrer, "Direct"@)
}

/// A country with its views; "—" when the country is missing.
pub open spec fn country_text(row: MetricRow) -> Seq<char> {
    let name = match row.country {
        Some(c) => c@,
        None => "\u{2014}"@,
    };
    name + " "@ + decimal(count_or_zero(row.views))
}

/// The totals line of an analytics report.
pub open spec fn totals_text(a: Analytics) -> Seq<char> {
    decimal(count_or_zero(a.totals.range_views)) + " views \u{b7} "@
        + decimal(count_or_zero(a.totals.range_visitors)) + " visitors \u{b7} "@
        + decimal(count_or_zero(a.totals.all_time_views)) + " all time"@
}

/// A ranking block: a blank line, a muted heading and the first `n` rows;
/// nothing when there are no rows.
pub open spec fn ranking_block(heading: Seq<char>, rows: Seq<MetricRow>, n: nat, paths: bool) -> Seq<(Seq<char>, Seq<char>, Tone)> {
    if rows.len() == 0 {
        Seq::empty()
    } else {
        seq![plain(Seq::empty(), Tone::Plain), plain(heading, Tone::Muted)]
            + first_n(rows, n).map_values(|r: MetricRow| plain(if paths { path_line(r) } else { referrer_line(r) }, Tone::Plain))
    }
}

/// The countries block: a blank line and the first 5 countries on one muted
/// line; nothing when there are none.
pub open spec fn country_block(rows: Seq<MetricRow>) -> Seq<(Seq<char>, Seq<char>, Tone)> {
    if rows.len() == 0 {
        Seq::empty()
    } else {
        seq![
            plain(Seq::empty(), Tone::Plain),
            plain(joined(first_n(rows, 5).map_values(|r: MetricRow| country_text(r)), " \u{b7} "@), Tone::Muted),
        ]
    }
}

/// The lines of the analytics panel: the range, the totals, the last event,
/// the top 8 paths, the top 4 referrers and the top 5 countries on one line.
pub open spec fn analytics_text(a: Analytics) -> Seq<(Seq<char>, Seq<char>, Tone)> {
    seq![plain(a.range@ + " analytics"@, Tone::Accent), plain(totals_text(a), Tone::Plain)]
        + optional_line(a.last_event_at, "last event  "@, Tone::Muted)
        + ranking_block("Top paths"@, a.top_paths@, 8, true)
        + ranking_block("Top referrers"@, a.top_referrers@, 4, false)
        + country_block(a.top_countries@)
}

fn count_text(v: Option<u64>) -> (r: String)
    ensures
        r@ == decimal(count_or_zero(v)),
{
    match v {
        Some(n) => crate::text::decimal_string(n),
        None => crate::text::decimal_string(0),
    }
}

fn ranked(row: &MetricRow, paths: bool) -> (r: String)
    ensures
        r@ == (if paths { path_line(*row) } else { referrer_line(*row) }),
{
    let mut r = String::new();
    let views = count_text(row.views);
    push_padded_left(&mut r, views.as_str(), 7);
    r.append("  ");
    let label = if paths { &row.path } else { &row.referrer };
    match label {
        Some(l) => r.append(l.as_str()),
        None => if paths { r.append("/") } else { r.append("Direct") },
    }
    assert(Seq::<char>::empty() + pad_left(decimal(count_or_zero(row.views)), 7) =~= pad_left(decimal(count_or_zero(row.views)), 7));
    r
}

fn push_ranking(lines: &mut Vec<Line>, heading: &str, rows: &Vec<MetricRow>, limit: usize, paths: bool)
    ensures
        lines_view(final(lines)@) == lines_view(old(lines)@) + ranking_block(heading@, rows@, limit as nat, paths),
{
    if rows.len() == 0 {
        assert(lines_view(lines@) =~= lines_view(old(lines)@) + ranking_block(heading@, rows@, limit as nat, paths));
        return;
    }
    push_line(lines, line(String::new(), Tone::Plain));
    push_line(lines, line(String::from_str(heading), Tone::Muted));
    let ghost start = lines_view(lines@);
    let n = if rows.len() <= limit { rows.len() } else { limit };
    let ghost f = |r: MetricRow| plain(if paths { path_line(r) } else { referrer_line(r) }, Tone::Plain);
    assert(rows@.take(0).map_values(f) =~= Seq::<(Seq<char>, Seq<char>, Tone)>::empty());
    for i in 0..n
        invariant
            n <= rows@.len(),
            n == (if rows@.len() <= limit { rows@.len() } else { limit as nat }),
            f == (|r: MetricRow| plain(if paths { path_line(r) } else { referrer_line(r) }, Tone::Plain)),
            lines_view(lines@) == start + rows@.take(i as int).map_values(f),
    {
        let text = ranked(&rows[i], paths);
        push_line(lines, line(text, Tone::Plain));
        assert(rows@.take(i + 1).map_values(f) =~= rows@.take(i as int).map_values(f).push(f(rows@[i as int])));
        assert(lines_view(lines@) =~= start + rows@.take(i + 1).map_values(f));
    }
    assert(rows@.take(n as int) =~= first_n(rows@, limit as nat));
    assert(lines_view(lines@) =~= lines_view(old(lines)@) + ranking_block(heading@, rows@, limit as nat, paths));
}

/// The lines of the analytics panel.
pub fn analytics_lines(a: &Analytics) -> (r: Vec<Line>)
    ensures
        lines_view(r@) == analytics_text(*a),
{
    let mut lines: Vec<Line> = Vec::new();
    push_line(&mut lines, line(join2(a.range.as_str(), " analytics"), Tone::Accent));
    let mut totals = count_text(a.totals.range_views);
    totals.append(" views \u{b7} ");
    totals.append(count_text(a.totals.range_visitors).as_str());
    totals.append(" visitors \u{b7} ");
    totals.append(count_text(a.totals.all_time_views).as_str());
    totals.append(" all time");
    push_line(&mut lines, line(totals, Tone::Plain));
    push_optional(&mut lines, &a.last_event_at, "last event  ", Tone::Muted);
    push_ranking(&mut lines, "Top paths", &a.top_paths, 8, true);
    push_ranking(&mut lines, "Top referrers", &a.top_referrers, 4, false);
    if a.top_countries.len() > 0 {
        let n = if a.top_countries.len() <= 5 { a.top_countries.len() } else { 5 };
        let mut countries: Vec<String> = Vec::new();
        assert(a.top_countries@.take(0).map_values(|r: MetricRow| country_text(r)) =~= Seq::<Seq<char>>::empty());
        assert(countries@.map_values(|s: String| s@) =~= Seq::<Seq<char>>::empty());
        for i in 0..n
            invariant
                n <= a.top_countries@.len(),
                n == (if a.top_countries@.len() <= 5 { a.top_countries@.len() } else { 5 }),
                countries@.map_values(|s: String| s@) == a.top_countries@.take(i as int).map_values(|r: MetricRow| country_text(r)),
        {
            let row = &a.top_countries[i];
            let mut text = match &row.country {
                Some(c) => c.clone(),
                None => String::from_str("\u{2014}"),
            };
            text.append(" ");
            text.append(count_text(row.views).as_str());
            assert(text@ == country_text(a.top_countries@[i as int]));
            let ghost prev = countries@.map_values(|s: String| s@);
            countries.push(text);
            assert(countries@.map_values(|s: String| s@) =~= prev.push(country_text(a.top_countries@[i as int])));
            assert(a.top_countries@.take(i + 1) =~= a.top_countries@.take(i as int).push(a.top_countries@[i as int]));
            assert(countries@.map_values(|s: String| s@) =~= a.top_countries@.take(i + 1).map_values(|r: MetricRow| country_text(r)));
        }
        assert(a.top_countries@.take(n as int) =~= first_n(a.top_countries@, 5));
        let joined_text = crate::messages::join_all(&countries, " \u{b7} ");
        push_line(&mut lines, line(String::new(), Tone::Plain));
        push_line(&mut lines, line(joined_text, Tone::Muted));
    }
    assert(lines_view(lines@) =~= analytics_text(*a));
    lines
}


fn relative_of_text(t: &Option<String>) -> (r: String)
    ensures
        relative_of(text_of(*t), r@),
{
    match t {
        Some(s) => relative_time(Some(s.as_str())),
        None => relative_time(None),
    }
}

/// The kind column of a Drive row: "default" for the default Drive.
pub fn drive_kind(drive: &Drive) -> (r: &'static str)
    ensures
        drive.is_default ==> r@ == "default"@,
        !drive.is_default ==> r@ == Seq::<char>::empty(),
{
    proof {
        reveal_strlit("");
    }
    if drive.is_default { "default" } else { "" }
}

/// The lines of a Drive's detail panel, given the text of its update time.
pub open spec fn drive_detail_text(drive: Drive, updated: Seq<char>) -> Seq<(Seq<char>, Seq<char>, Tone)> {
    let description = match drive.description {
        Some(d) => d@,
        None => "No description"@,
    };
    let head = match drive.head_version_id {
        Some(h) => h@,
        None => "\u{2014}"@,
    };
    seq![
        plain(drive.name@, Tone::Accent),
        plain(description, Tone::Plain),
        plain("head "@ + head + " \u{b7} updated "@ + updated, Tone::Muted),
    ]
}

/// The lines of a Drive's detail panel.
pub fn drive_detail_lines(drive: &Drive) -> (r: Vec<Line>)
    ensures
        exists|updated: Seq<char>| relative_of(text_of(drive.updated_at), updated)
            && lines_view(r@) == #[trigger] drive_detail_text(*drive, updated),
{
    let mut lines: Vec<Line> = Vec::new();
    push_line(&mut lines, line(drive.name.clone(), Tone::Accent));
    let description = match &drive.description {
        Some(d) => d.clone(),
        None => String::from_str("No description"),
    };
    push_line(&mut lines, line(description, Tone::Plain));
    let mut head = match &drive.head_version_id {
        Some(h) => join2("head ", h.as_str()),
        None => join2("head ", "\u{2014}"),
    };
    head.append(" \u{b7} updated ");
    let updated = relative_of_text(&drive.updated_at);
    head.append(updated.as_str());
    push_line(&mut lines, line(head, Tone::Muted));
    assert(lines_view(lines@) =~= drive_detail_text(*drive, updated@));
    lines
}

/// The caption under a Drive file, given the text of its update time: type,
/// update time, last operation and who made it.
pub open spec fn file_caption_text(file: DriveFile, updated: Seq<char>) -> Seq<char> {
    let kind = match file.content_type {
        Some(k) => k@,
        None => "file"@,
    };
    let operation = match file.last_operation {
        Some(o) => o@,
        None => "updated"@,
    };
    let attribution = match file.last_modified_by {
        Some(a) => " \u{b7} "@ + a@,
        None => Seq::empty(),
    };
    kind + " \u{b7} "@ + updated + " \u{b7} "@ + operation + attribution
}

/// The caption under a Drive file.
pub fn file_caption(file: &DriveFile) -> (r: String)
    ensures
        exists|updated: Seq<char>| relative_of(text_of(file.updated_at), updated)
            && r@ == #[trigger] file_caption_text(*file, updated),
{
    let mut r = match &file.content_type {
        Some(k) => k.clone(),
        None => String::from_str("file"),
    };
    r.append(" \u{b7} ");
    let updated = relative_of_text(&file.updated_at);
    r.append(updated.as_str());
    r.append(" \u{b7} ");
    match &file.last_operation {
        Some(o) => r.append(o.as_str()),
        None => r.append("updated"),
    }
    match &file.last_modified_by {
        Some(a) => {
            r.append(" \u{b7} ");
            r.append(a.as_str());
        },
        None => {
            assert(r@ + Seq::<char>::empty() =~= r@);
        },
    }
    assert(r@ =~= file_caption_text(*file, updated@));
    r
}

/// The etag line under a Drive file, empty when it has none.
pub fn etag_line(file: &DriveFile) -> (r: String)
    ensures
        match file.etag {
            Some(e) => r@ == "etag "@ + e@,
            None => r@ == Seq::<char>::empty(),
        },
{
    match &file.etag {
        Some(e) => join2("etag ", e.as_str()),
        None => String::new(),
    }
}

/// A labelled line of the account panel: the label in twelve columns.
pub open spec fn labelled(label: Seq<char>, value: Seq<char>) -> (Seq<char>, Seq<char>, Tone) {
    (pad_right(label, 12), value, Tone::Plain)
}

/// The lines of the account panel.
pub open spec fn account_text(p: Profile) -> Seq<(Seq<char>, Seq<char>, Tone)> {
    seq![
        plain("@"@ + p.username@, Tone::Accent),
        plain(Seq::empty(), Tone::Plain),
        labelled("Profile"@, if p.enabled { "public"@ } else { "disabled"@ }),
        labelled("New Sites"@, if p.add_new_sites_to_profile { "added automatically"@ } else { "private by default"@ }),
        labelled("URL"@, p.url@),
        labelled("Feed"@, p.feed_url@),
        plain(Seq::empty(), Tone::Plain),
        plain("Enter or o opens your profile."@, Tone::Muted),
    ]
}

fn labelled_line(label: &str, value: String) -> (r: Line)
    ensures
        line_view(r) == labelled(label@, value@),
{
    let mut lead = String::new();
    push_padded_right(&mut lead, label, 12);
    assert(Seq::<char>::empty() + pad_right(label@, 12) =~= pad_right(label@, 12));
    Line { lead, text: value, tone: Tone::Plain }
}

/// The lines of the account panel.
pub fn account_lines(p: &Profile) -> (r: Vec<Line>)
    ensures
        lines_view(r@) == account_text(*p),
{
    let mut lines: Vec<Line> = Vec::new();
    push_line(&mut lines, line(join2("@", p.username.as_str()), Tone::Accent));
    push_line(&mut lines, line(String::new(), Tone::Plain));
    let visibility = if p.enabled { "public" } else { "disabled" };
    push_line(&mut lines, labelled_line("Profile", String::from_str(visibility)));
    let default = if p.add_new_sites_to_profile { "added automatically" } else { "private by default" };
    push_line(&mut lines, labelled_line("New Sites", String::from_str(default)));
    push_line(&mut lines, labelled_line("URL", p.url.clone()));
    push_line(&mut lines, labelled_line("Feed", p.feed_url.clone()));
    push_line(&mut lines, line(String::new(), Tone::Plain));
    push_line(&mut lines, line(String::from_str("Enter or o opens your profile."), Tone::Muted));
    assert(lines_view(lines@) =~= account_text(*p));
    lines
}

/// What the detail column of the Sites view shows.
pub enum DetailPanel<'a> {
    /// The loaded analytics of the selected site.
    Analytics(&'a Analytics),
    /// The detail of a site.
    Site(&'a Site),
    /// A notice in place of a detail: its title and message.
    Notice(&'static str, &'static str),
}

/// The detail column of the Sites view: loaded analytics first, else the
/// site that `shown_site` picks, else a notice that there are no sites.
pub fn detail_panel(app: &App) -> (r: DetailPanel<'_>)
    ensures
        match r {
            DetailPanel::Analytics(a) => app.analytics == Some(*a),
            DetailPanel::Site(site) => app.analytics is None && shown_site(*app) == Some(*site),
            DetailPanel::Notice(title, message) => {
                &&& app.analytics is None
                &&& shown_site(*app) is None
                &&& title@ == "No Sites"@
                &&& message@ == "Publish something, then press r."@
            },
        },
{
    match &app.analytics {
        Some(a) => DetailPanel::Analytics(a),
        None => match detail_site(app) {
            Some(site) => DetailPanel::Site(site),
            None => DetailPanel::Notice("No Sites", "Publish something, then press r."),
        },
    }
}

/// The notice in the files list of the Drives view, shown while no files
/// are loaded.
pub fn files_notice(files: &Vec<DriveFile>) -> (r: Option<&'static str>)
    ensures
        r is Some <==> files.len() == 0,
        r matches Some(t) ==> t@ == "No files. Enter loads the selected Drive."@,
{
    if files.len() == 0 {
        Some("No files. Enter loads the selected Drive.")
    } else {
        None
    }
}

/// What the Account view shows.
pub enum AccountPanel<'a> {
    /// The loaded profile.
    Profile(&'a Profile),
    /// A notice in place of the profile: its title and message.
    Notice(&'static str, &'static str),
}

/// The Account view: the profile once loaded, else a notice that it is
/// unavailable.
pub fn account_panel(app: &App) -> (r: AccountPanel<'_>)
    ensures
        match r {
            AccountPanel::Profile(p) => app.profile == Some(*p),
            AccountPanel::Notice(title, message) => {
                &&& app.profile is None
                &&& title@ == "Account"@
                &&& message@ == "Profile unavailable."@
            },
        },
{
    match &app.profile {
        Some(p) => AccountPanel::Profile(p),
        None => AccountPanel::Notice("Account", "Profile unavailable."),
    }
}

} // verus!
