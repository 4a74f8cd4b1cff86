//! Properties of the application that span several keys or replies.
use vstd::prelude::*;
use crate::app::{
    after_edge, after_move, deletion_slugs, first_with_slug, pointed, restores, section_after,
    section_before, selected_site_of, App, Key, KeyCode, Prompt, Section,
};
use crate::keys::{is_char, key_effect, prompt_key_effect, toggled, Command};
use crate::app::clamped;
use crate::model::Analytics;
use crate::text::{decimal, pad_left};
use crate::view::{analytics_text, country_block, first_n, optional_line, plain, ranking_block, path_line, referrer_line, totals_text, Tone};
use crate::model::Site;
use crate::slug_set::{slugs_of, texts};

verus! {

/// Going to the next section three times comes back to the start, and the
/// previous section undoes the next one.
pub proof fn sections_wrap(section: Section)
    ensures
        section_after(section_after(section_after(section))) == section,
        section_before(section_after(section)) == section,
        section_after(section_before(section)) == section,
{
}

/// The only way to a delete is the confirmation prompt answered with `y`,
/// and the batch holds exactly the slugs that the prompt showed.
pub proof fn delete_needs_confirmation(old: App, key: Key, new: App, cmd: Command)
    requires
        key_effect(old, key, new, cmd),
        cmd is Delete,
    ensures
        !old.show_help,
        old.prompt matches Some(Prompt::ConfirmDelete { slugs }) && cmd->batch.targets() == texts(slugs@),
        key.code == KeyCode::Char('y'),
        new.prompt is None,
{
}

/// The confirmation prompt opens only over the deletion targets: the marked
/// sites in list order, or else the selected site.
pub proof fn confirmation_shows_targets(old: App, key: Key, new: App, cmd: Command)
    requires
        key_effect(old, key, new, cmd),
        old.prompt is None,
        new.prompt matches Some(Prompt::ConfirmDelete { .. }),
    ensures
        new.prompt matches Some(Prompt::ConfirmDelete { slugs })
            && texts(slugs@) == deletion_slugs(old.sites@, old.selected_sites@, old.site_selection)
            && texts(slugs@).len() > 0,
{
}

/// With the help shown, a key only closes it.
pub proof fn help_takes_one_key(old: App, key: Key, new: App, cmd: Command)
    requires
        key_effect(old, key, new, cmd),
        old.show_help,
    ensures
        new == (App { show_help: false, ..old }),
        cmd is Nothing,
{
}

/// A move or a jump to an edge keeps the selection inside the current
/// section's table: nothing is selected in an empty table, otherwise a row
/// that exists.
pub proof fn moves_stay_in_table(app: App, delta: int, end: bool)
    ensures
        ({
            let moved = after_move(app, delta);
            let jumped = after_edge(app, end);
            &&& app.section == Section::Sites ==> {
                &&& (app.sites@.len() == 0 <==> moved.site_selection is None)
                &&& (app.sites@.len() > 0 ==> moved.site_selection->0 < app.sites@.len())
                &&& (app.sites@.len() == 0 <==> jumped.site_selection is None)
                &&& (app.sites@.len() > 0 ==> jumped.site_selection->0 < app.sites@.len())
            }
            &&& app.section == Section::Drives ==> {
                &&& (app.drives@.len() == 0 <==> moved.drive_selection is None)
                &&& (app.drives@.len() > 0 ==> moved.drive_selection->0 < app.drives@.len())
                &&& (app.drives@.len() == 0 <==> jumped.drive_selection is None)
                &&& (app.drives@.len() > 0 ==> jumped.drive_selection->0 < app.drives@.len())
            }
        }),
{
}

/// Every deletion target is a listed site, and when sites are marked every
/// target is marked.
pub proof fn targets_are_listed_and_marked(sites: Seq<Site>, marked: Set<Seq<char>>, active: Option<usize>, i: int)
    requires
        0 <= i < deletion_slugs(sites, marked, active).len(),
    ensures
        slugs_of(sites).contains(deletion_slugs(sites, marked, active)[i]),
        !(marked =~= Set::<Seq<char>>::empty()) ==> marked.contains(deletion_slugs(sites, marked, active)[i]),
{
    let t = deletion_slugs(sites, marked, active);
    if marked =~= Set::<Seq<char>>::empty() {
        let k = pointed(active, sites.len())->0;
        assert(slugs_of(sites)[k] == t[i]);
    } else {
        let pred = |x: Seq<char>| marked.contains(x);
        broadcast use vstd::seq_lib::group_filter_ensures;
        assert(pred(t[i]));
        assert(slugs_of(sites).filter(pred).contains(t[i]));
        slugs_of(sites).lemma_filter_contains_rev(pred, t[i]);
    }
}

/// After a restore by slug, when a site with that slug is listed, the
/// selected site has that slug.
pub proof fn restored_selection_keeps_slug(sites: Seq<Site>, slug: Seq<char>, before: Option<usize>, after: Option<usize>, i: int)
    requires
        restores(sites, Some(slug), before, after),
        sites.len() <= usize::MAX,
        0 <= i < sites.len(),
        sites[i].slug@ == slug,
    ensures
        after matches Some(j) && j < sites.len() && sites[j as int].slug@ == slug,
{
    let first = choose_first(sites, slug, i);
    let key = Some(slug);
    assert(key->0 == slug);
    assert(first_with_slug(sites, key->0, first));
    assert(after == Some(first as usize));
}

/// The first index at or before `i` whose slug is `slug`.
proof fn choose_first(sites: Seq<Site>, slug: Seq<char>, i: int) -> (k: int)
    requires
        0 <= i < sites.len(),
        sites[i].slug@ == slug,
    ensures
        first_with_slug(sites, slug, k),
    decreases i,
{
    if exists|j: int| 0 <= j < i && sites[j].slug@ == slug {
        let j = choose|j: int| 0 <= j < i && sites[j].slug@ == slug;
        choose_first(sites, slug, j)
    } else {
        i
    }
}

/// Marking the selected site twice leaves the marks as they were.
pub proof fn toggle_twice_restores_marks(a: App, b: App, c: App)
    requires
        toggled(a, b),
        toggled(b, c),
    ensures
        c.selected_sites@ == a.selected_sites@,
{
    if let Some(site) = selected_site_of(a) {
        assert(selected_site_of(b) == selected_site_of(a));
        if a.selected_sites@.contains(site.slug@) {
            assert(a.selected_sites@.remove(site.slug@).insert(site.slug@) =~= a.selected_sites@);
        } else {
            assert(a.selected_sites@.insert(site.slug@).remove(site.slug@) =~= a.selected_sites@);
        }
    }
}

/// Typing a character in a text prompt and erasing it gives the input back.
pub proof fn typing_then_erasing_restores_input(a: App, typed: Key, b: App, erase: Key, c: App, cmd1: Command, cmd2: Command)
    requires
        a.prompt matches Some(p) && !(p is ConfirmDelete),
        prompt_key_effect(a, typed, b, cmd1),
        typed.code is Char,
        !typed.control,
        !typed.alt,
        prompt_key_effect(b, erase, c, cmd2),
        erase.code == KeyCode::Backspace,
    ensures
        c.input@ == a.input@,
        c.prompt == a.prompt,
{
    assert(a.input@.push(typed.code->0).drop_last() =~= a.input@);
}

/// A move by `delta` rows selects the row `delta` away from the selected one
/// when that row exists, in the Sites and in the Drives table; a move past an
/// end stops at the first or last row.
pub proof fn move_reaches_the_row_delta_away(app: App, delta: int, i: usize)
    ensures
        app.section == Section::Sites && app.site_selection == Some(i) && i < app.sites@.len() ==> {
            let len = app.sites@.len();
            let after = after_move(app, delta).site_selection;
            &&& 0 <= i + delta < len ==> after == Some((i + delta) as usize)
            &&& i + delta < 0 ==> after == Some(0usize)
            &&& i + delta >= len ==> after == Some((len - 1) as usize)
        },
        app.section == Section::Drives && app.drive_selection == Some(i) && i < app.drives@.len() ==> {
            let len = app.drives@.len();
            let after = after_move(app, delta).drive_selection;
            &&& 0 <= i + delta < len ==> after == Some((i + delta) as usize)
            &&& i + delta < 0 ==> after == Some(0usize)
            &&& i + delta >= len ==> after == Some((len - 1) as usize)
        },
{
}

/// `j` (or Down) selects the next row of the Sites table and `k` (or Up) the
/// previous one, when that row exists, and asks for nothing.
pub proof fn j_and_k_step_one_site(old: App, key: Key, new: App, cmd: Command, i: usize)
    requires
        key_effect(old, key, new, cmd),
        !old.show_help,
        old.prompt is None,
        old.section == Section::Sites,
        old.site_selection == Some(i),
    ensures
        (is_char(key, 'j') || key.code == KeyCode::Down) && i + 1 < old.sites@.len() ==> new.site_selection == Some((i + 1) as usize),
        (is_char(key, 'k') || key.code == KeyCode::Up) && 1 <= i < old.sites@.len() ==> new.site_selection == Some((i - 1) as usize),
        (is_char(key, 'j') || key.code == KeyCode::Down || is_char(key, 'k') || key.code == KeyCode::Up) ==> cmd is Nothing,
{
}

/// A reload keeps a table's selection where it was when that row still
/// exists, moves it to the last row when the table got shorter, selects the
/// first row when nothing was selected, and selects nothing in an empty
/// table. This holds of the Drives table and of the Sites table when the
/// previously selected slug is not listed any more.
pub proof fn reload_keeps_the_selection_in_place(before: Option<usize>, len: nat, i: usize)
    requires
        len <= usize::MAX,
    ensures
        before == Some(i) && i < len ==> clamped(before, len) == Some(i),
        before == Some(i) && i >= len && len > 0 ==> clamped(before, len) == Some((len - 1) as usize),
        before is None && len > 0 ==> clamped(before, len) == Some(0usize),
        len == 0 ==> clamped(before, len) is None,
{
}

/// When the previously selected slug is gone, the Sites selection after a
/// reload stays on the same row if the list is still that long.
pub proof fn reload_keeps_the_site_row(sites: Seq<Site>, slug: Option<Seq<char>>, before: Option<usize>, after: Option<usize>, i: usize)
    requires
        restores(sites, slug, before, after),
        slug is None || !(exists|k: int| #![auto] first_with_slug(sites, slug->0, k)),
        before == Some(i),
        i < sites.len(),
    ensures
        after == Some(i),
{
}

/// `o` opens the selected site's URL, the selected Drive's dashboard when it
/// has one, or the profile's URL, and changes nothing in the state.
pub proof fn o_opens_the_selection(old: App, key: Key, new: App, cmd: Command, i: usize)
    requires
        key_effect(old, key, new, cmd),
        !old.show_help,
        old.prompt is None,
        is_char(key, 'o'),
    ensures
        new == old,
        old.section == Section::Sites && old.site_selection == Some(i) && i < old.sites@.len()
            ==> (cmd matches Command::Open { target } && target@ == old.sites@[i as int].site_url@),
        old.section == Section::Drives && old.drive_selection == Some(i) && i < old.drives@.len()
            && old.drives@[i as int].dashboard_url is Some
            ==> (cmd matches Command::Open { target } && target@ == old.drives@[i as int].dashboard_url->0@),
        old.section == Section::Account && old.profile is Some
            ==> (cmd matches Command::Open { target } && target@ == old.profile->0.url@),
{
}

/// With the delete confirmation open, Esc and `n` cancel it: the prompt
/// closes, nothing is deleted, and nothing else changes.
pub proof fn esc_or_n_cancels_the_delete(old: App, key: Key, new: App, cmd: Command)
    requires
        key_effect(old, key, new, cmd),
        !old.show_help,
        old.prompt matches Some(Prompt::ConfirmDelete { .. }),
        key.code == KeyCode::Esc || key.code == KeyCode::Char('n'),
    ensures
        new.prompt is None,
        new == (App { prompt: None, ..old }),
        cmd is Nothing,
{
}

/// Each of the first eight path rows, which follow the range, the totals,
/// the last event when known, a blank line and a heading, shows its views
/// right-aligned in seven columns, two spaces and its path, or "/" when it
/// has none.
pub proof fn path_rows_show_the_path(a: Analytics, k: int)
    requires
        0 <= k < 8,
        k < a.top_paths@.len(),
    ensures
        ({
            let row = a.top_paths@[k];
            let name = match row.path {
                Some(p) => p@,
                None => "/"@,
            };
            let views: nat = match row.views {
                Some(v) => v as nat,
                None => 0,
            };
            let index = 2 + (if a.last_event_at is Some { 1int } else { 0int }) + 2 + k;
            analytics_text(a)[index] == (Seq::<char>::empty(), pad_left(decimal(views), 7) + "  "@ + name, Tone::Plain)
        }),
{
    let head = seq![plain(a.range@ + " analytics"@, Tone::Accent), plain(totals_text(a), Tone::Plain)]
        + optional_line(a.last_event_at, "last event  "@, Tone::Muted);
    let paths = ranking_block("Top paths"@, a.top_paths@, 8, true);
    let rest = ranking_block("Top referrers"@, a.top_referrers@, 4, false) + country_block(a.top_countries@);
    assert(analytics_text(a) =~= head + paths + rest);
    assert(head.len() == 2 + (if a.last_event_at is Some { 1int } else { 0int }));
    let rows = first_n(a.top_paths@, 8);
    assert(k < rows.len());
    assert(rows[k] == a.top_paths@[k]);
    assert(paths[2 + k] == plain(path_line(a.top_paths@[k]), Tone::Plain));
    assert((head + paths + rest)[head.len() + 2 + k] == paths[2 + k]);
}

/// The line at which the `k`-th referrer stands in the analytics panel:
/// after the range, the totals, the last event when known, the paths block
/// (a blank line, a heading and up to 8 rows, when there are paths), and the
/// referrers' blank line and heading.
pub open spec fn referrer_row_index(a: Analytics, k: int) -> int {
    let last_event: int = if a.last_event_at is Some { 1 } else { 0 };
    let paths: int = if a.top_paths@.len() == 0 {
        0
    } else if a.top_paths@.len() <= 8 {
        2 + a.top_paths@.len() as int
    } else {
        10
    };
    2 + last_event + paths + 2 + k
}

/// Each of the first four referrer rows shows its views right-aligned in
/// seven columns, two spaces and its referrer, or "Direct" when it has none.
pub proof fn referrer_rows_show_the_referrer(a: Analytics, k: int)
    requires
        0 <= k < 4,
        k < a.top_referrers@.len(),
    ensures
        ({
            let row = a.top_referrers@[k];
            let name = match row.referrer {
                Some(r) => r@,
                None => "Direct"@,
            };
            let views: nat = match row.views {
                Some(v) => v as nat,
                None => 0,
            };
            analytics_text(a)[referrer_row_index(a, k)] == (Seq::<char>::empty(), pad_left(decimal(views), 7) + "  "@ + name, Tone::Plain)
        }),
{
    let head = seq![plain(a.range@ + " analytics"@, Tone::Accent), plain(totals_text(a), Tone::Plain)]
        + optional_line(a.last_event_at, "last event  "@, Tone::Muted);
    let paths = ranking_block("Top paths"@, a.top_paths@, 8, true);
    let refs = ranking_block("Top referrers"@, a.top_referrers@, 4, false);
    let countries = country_block(a.top_countries@);
    assert(analytics_text(a) == head + paths + refs + countries);
    assert(head.len() == 2 + (if a.last_event_at is Some { 1int } else { 0int }));
    assert(paths.len() == referrer_row_index(a, 0) - 2 - head.len());
    let rows = first_n(a.top_referrers@, 4);
    assert(k < rows.len());
    assert(rows[k] == a.top_referrers@[k]);
    assert(refs[2 + k] == plain(referrer_line(a.top_referrers@[k]), Tone::Plain));
    assert((head + paths + refs + countries)[head.len() + paths.len() + 2 + k] == refs[2 + k]);
}

} // verus!
