//! The list of applications that can be launched outside the tunnel: which
//! desktop entries are shown, under which title and in which order, and
//! which of them a search finds.

use vstd::prelude::*;
use vstd::multiset::Multiset;
use vstd::seq_lib::{to_multiset_build, to_multiset_remove};
use vstd::utf8::encode_utf8;
use crate::icons::IconImage;
use crate::text::{
    lemma_bytes_le_reflexive, lemma_bytes_le_total, lemma_bytes_le_transitive,
    text_before_or_equal, text_contains, text_holds, text_le,
};

verus! {

/// How far the list of applications has come.
#[derive(Clone, Copy, Debug, PartialEq, Eq, Structural)]
pub enum ListState {
    /// Nothing was loaded or asked for yet.
    NotLoaded,
    /// The list is being read from disk.
    Loading,
    /// The list is there.
    Available,
}

/// What entering the view calls for: the list is loaded when the view is
/// entered for the first time, and never again. Returns the next state and
/// whether loading has to start.
pub fn enter_view(state: ListState) -> (r: (ListState, bool))
    ensures
        r == if state == ListState::NotLoaded {
            (ListState::Loading, true)
        } else {
            (state, false)
        },
{
    match state {
        ListState::NotLoaded => (ListState::Loading, true),
        _ => (state, false),
    }
}

/// What the list needs to know of one desktop entry.
#[derive(Debug)]
pub struct DesktopApp {
    /// The identifier of the entry.
    pub appid: String,
    /// The name of the application, where the entry gives one.
    pub name: Option<String>,
    /// The entry says that the application is to be treated as uninstalled.
    pub hidden: bool,
    /// The entry says that the application is not to be shown in menus.
    pub no_display: bool,
    /// The command line of the entry, where it has one that can be parsed.
    pub command: Option<Vec<String>>,
    /// The Flatpak identifier of the application, where it is one.
    pub flatpak: Option<String>,
}

/// One line of the application list.
#[derive(Debug)]
pub struct AppMeta {
    pub title: String,
    pub command: Vec<String>,
    pub icon: Option<IconImage>,
    pub show_warning: bool,
}

/// The title of an application: its name, or its identifier where it has
/// no name.
pub open spec fn title_of(app: &DesktopApp) -> Seq<char> {
    match app.name {
        Some(name) => name@,
        None => app.appid@,
    }
}

/// The command line of an application; empty where the entry has none that
/// can be parsed.
pub open spec fn command_of(app: &DesktopApp) -> Seq<String> {
    match app.command {
        Some(args) => args@,
        None => Seq::empty(),
    }
}

/// An entry is listed unless it is hidden or asks not to be displayed.
pub fn is_listed(app: &DesktopApp) -> (listed: bool)
    ensures
        listed == (!app.hidden && !app.no_display),
{
    !app.hidden && !app.no_display
}

/// Applications from Flatpak are marked with a warning in the list.
pub fn app_is_problematic(app: &DesktopApp) -> (problematic: bool)
    ensures
        problematic == app.flatpak is Some,
{
    app.flatpak.is_some()
}

/// The line of the list for an entry and its picture.
pub fn app_meta(app: DesktopApp, icon: Option<IconImage>) -> (meta: AppMeta)
    ensures
        meta.title@ == title_of(&app),
        meta.command@ == command_of(&app),
        meta.icon == icon,
        meta.show_warning == app.flatpak is Some,
{
    let show_warning = app_is_problematic(&app);
    let title = match app.name {
        Some(name) => name,
        None => app.appid,
    };
    let command = match app.command {
        Some(args) => args,
        None => Vec::new(),
    };
    AppMeta { title, command, icon, show_warning }
}

/// The lowercase form of a text, as `str::to_lowercase` gives it.
pub uninterp spec fn lowercase(text: Seq<char>) -> Seq<char>;

/// `str::to_lowercase`. The contract only gives the result its name.
#[verifier::external_body]
fn to_lowercase(text: &str) -> (lower: String)
    ensures
        lower@ == lowercase(text@),
{
    text.to_lowercase()
}

/// A search finds a title that holds the search text, both taken in
/// lowercase.
pub open spec fn title_matches(title: Seq<char>, search: Seq<char>) -> bool {
    text_holds(lowercase(title), lowercase(search))
}

/// The positions `0..count` in order.
pub open spec fn positions(count: nat) -> Seq<usize> {
    Seq::new(count, |i: int| i as usize)
}

/// The test that position `i` of `texts` holds `needle`.
pub open spec fn holds_at(texts: Seq<String>, needle: Seq<char>) -> spec_fn(usize) -> bool {
    |i: usize| text_holds(texts[i as int]@, needle)
}

/// The test that a search finds the title at position `i`.
pub open spec fn found_at(titles: Seq<String>, search: Seq<char>) -> spec_fn(usize) -> bool {
    |i: usize| title_matches(titles[i as int]@, search)
}

/// Two tests that agree on every element of a sequence filter it alike.
proof fn lemma_filter_agrees<A>(s: Seq<A>, p: spec_fn(A) -> bool, q: spec_fn(A) -> bool)
    requires
        forall|i: int| 0 <= i < s.len() ==> p(#[trigger] s[i]) == q(s[i]),
    ensures
        s.filter(p) == s.filter(q),
    decreases s.len(),
{
    reveal(Seq::filter);
    if s.len() > 0 {
        lemma_filter_agrees(s.drop_last(), p, q);
    }
}

/// The positions of the texts that hold `needle`, in increasing order.
pub fn positions_holding(texts: &Vec<String>, needle: &str) -> (hits: Vec<usize>)
    ensures
        hits@ == positions(texts@.len()).filter(holds_at(texts@, needle@)),
{
    let ghost held = holds_at(texts@, needle@);
    let mut hits: Vec<usize> = Vec::new();
    let mut i: usize = 0;
    proof {
        assert(positions(0).filter(held) =~= Seq::<usize>::empty()) by {
            reveal(Seq::filter);
        }
    }
    while i < texts.len()
        invariant
            i <= texts@.len(),
            held == holds_at(texts@, needle@),
            hits@ == positions(i as nat).filter(held),
        decreases texts@.len() - i,
    {
        proof {
            assert(positions((i + 1) as nat) =~= positions(i as nat).push(i));
            positions(i as nat).lemma_filter_push(i, held);
        }
        if text_contains(texts[i].as_str(), needle) {
            hits.push(i);
        }
        i += 1;
    }
    hits
}

/// The positions of the titles that a search finds, in increasing order.
pub fn search_titles(titles: &Vec<String>, search: &str) -> (hits: Vec<usize>)
    ensures
        hits@ == positions(titles@.len()).filter(found_at(titles@, search@)),
{
    let wanted = to_lowercase(search);
    let mut lowered: Vec<String> = Vec::with_capacity(titles.len());
    let mut i: usize = 0;
    while i < titles.len()
        invariant
            i <= titles@.len(),
            lowered@.len() == i,
            forall|j: int| 0 <= j < i ==> (#[trigger] lowered@[j])@ == lowercase(titles@[j]@),
        decreases titles@.len() - i,
    {
        lowered.push(to_lowercase(titles[i].as_str()));
        i += 1;
    }
    let hits = positions_holding(&lowered, wanted.as_str());
    proof {
        let all = positions(titles@.len());
        assert forall|k: int| 0 <= k < all.len() implies holds_at(lowered@, wanted@)(
            #[trigger] all[k],
        ) == found_at(titles@, search@)(all[k]) by {
            assert(lowered@[k]@ == lowercase(titles@[k]@));
        }
        lemma_filter_agrees(all, holds_at(lowered@, wanted@), found_at(titles@, search@));
    }
    hits
}

/// No line comes after a line with a greater title.
pub open spec fn sorted_by_title(apps: Seq<AppMeta>) -> bool {
    forall|i: int, j: int|
        0 <= i < j < apps.len() ==> text_le(#[trigger] apps[i].title@, #[trigger] apps[j].title@)
}

/// The test for a given title.
pub open spec fn has_title(title: Seq<char>) -> spec_fn(AppMeta) -> bool {
    |app: AppMeta| app.title@ == title
}

/// The lines with a given title, in their order.
pub open spec fn with_title(apps: Seq<AppMeta>, title: Seq<char>) -> Seq<AppMeta> {
    apps.filter(has_title(title))
}

/// Where a line goes into a sorted list: before the first line whose title
/// is not smaller.
fn insertion_point(sorted: &Vec<AppMeta>, title: &str) -> (at: usize)
    requires
        sorted_by_title(sorted@),
    ensures
        at <= sorted@.len(),
        forall|j: int| 0 <= j < at ==> !text_le(title@, #[trigger] sorted@[j].title@),
        forall|j: int| at <= j < sorted@.len() ==> text_le(title@, #[trigger] sorted@[j].title@),
{
    let mut at: usize = 0;
    while at < sorted.len() && !text_before_or_equal(title, sorted[at].title.as_str())
        invariant
            at <= sorted@.len(),
            forall|j: int| 0 <= j < at ==> !text_le(title@, #[trigger] sorted@[j].title@),
        decreases sorted@.len() - at,
    {
        at += 1;
    }
    proof {
        assert forall|j: int| at <= j < sorted@.len() implies text_le(
            title@,
            #[trigger] sorted@[j].title@,
        ) by {
            if at < j {
                lemma_bytes_le_transitive(
                    encode_utf8(title@),
                    encode_utf8(sorted@[at as int].title@),
                    encode_utf8(sorted@[j].title@),
                );
            }
        }
    }
    at
}

/// Putting a line in at its insertion point keeps a list sorted, puts the
/// line in front of the lines with its own title, and leaves the lines of
/// every other title as they are.
proof fn lemma_insert_keeps_order(sorted: Seq<AppMeta>, at: int, app: AppMeta, title: Seq<char>)
    requires
        sorted_by_title(sorted),
        0 <= at <= sorted.len(),
        forall|j: int| 0 <= j < at ==> !text_le(app.title@, #[trigger] sorted[j].title@),
        forall|j: int| at <= j < sorted.len() ==> text_le(app.title@, #[trigger] sorted[j].title@),
    ensures
        sorted_by_title(sorted.insert(at, app)),
        with_title(sorted.insert(at, app), title) == with_title(seq![app], title) + with_title(
            sorted,
            title,
        ),
{
    let next = sorted.insert(at, app);
    let front = sorted.subrange(0, at);
    let back = sorted.subrange(at, sorted.len() as int);
    let wanted = has_title(title);
    sorted.insert_ensures(at, app);
    assert forall|i: int, j: int| 0 <= i < j < next.len() implies text_le(
        #[trigger] next[i].title@,
        #[trigger] next[j].title@,
    ) by {
        if j == at {
            assert(next[i] == sorted[i]);
            lemma_bytes_le_total(encode_utf8(app.title@), encode_utf8(sorted[i].title@));
        } else if i == at {
            assert(next[j] == sorted[j - 1]);
        } else {
            let from_i: int = if i < at {
                i
            } else {
                i - 1
            };
            let from_j: int = if j < at {
                j
            } else {
                j - 1
            };
            assert(next[i] == sorted[from_i]);
            assert(next[j] == sorted[from_j]);
        }
    }
    assert(sorted =~= front + back);
    assert(next =~= front.push(app) + back);
    assert(seq![app] =~= Seq::<AppMeta>::empty().push(app));
    Seq::filter_distributes_over_add(front, back, wanted);
    Seq::filter_distributes_over_add(front.push(app), back, wanted);
    front.lemma_filter_push(app, wanted);
    Seq::<AppMeta>::empty().lemma_filter_push(app, wanted);
    assert(Seq::<AppMeta>::empty().filter(wanted) =~= Seq::<AppMeta>::empty()) by {
        reveal(Seq::filter);
    }
    if wanted(app) {
        assert forall|j: int| 0 <= j < front.len() implies !wanted(#[trigger] front[j]) by {
            lemma_bytes_le_reflexive(encode_utf8(app.title@));
            assert(front[j] == sorted[j]);
        }
        assert(front.all(|line: AppMeta| !wanted(line)));
        front.lemma_all_neg_filter_empty(wanted);
        assert(front.filter(wanted) =~= Seq::<AppMeta>::empty());
        assert(next.filter(wanted) =~= seq![app] + back.filter(wanted));
        assert(sorted.filter(wanted) =~= back.filter(wanted));
    } else {
        assert(next.filter(wanted) =~= sorted.filter(wanted));
        assert(seq![app].filter(wanted) + sorted.filter(wanted) =~= sorted.filter(wanted));
    }
}

/// Sorts the lines of the list by title.
///
/// The result is sorted and holds the same lines, each as often as it
/// came. For every title it holds the lines of that title in the order in
/// which they came: the sort is stable.
pub fn sort_by_title(apps: Vec<AppMeta>) -> (sorted: Vec<AppMeta>)
    ensures
        sorted_by_title(sorted@),
        sorted@.to_multiset() == apps@.to_multiset(),
        sorted@.len() == apps@.len(),
        forall|title: Seq<char>| #[trigger] with_title(sorted@, title) == with_title(apps@, title),
{
    let mut rest = apps;
    let mut sorted: Vec<AppMeta> = Vec::with_capacity(rest.len());
    proof {
        assert(apps@.skip(apps@.len() as int) =~= Seq::<AppMeta>::empty());
        assert(apps@.take(apps@.len() as int) =~= apps@);
        assert(sorted@.to_multiset().add(rest@.to_multiset()) =~= apps@.to_multiset()) by {
            broadcast use vstd::seq_lib::group_to_multiset_ensures;

        }
    }
    while rest.len() > 0
        invariant
            rest@ == apps@.take(rest@.len() as int),
            rest@.len() <= apps@.len(),
            sorted@.len() + rest@.len() == apps@.len(),
            sorted_by_title(sorted@),
            sorted@.to_multiset().add(rest@.to_multiset()) == apps@.to_multiset(),
            forall|title: Seq<char>| #[trigger]
                with_title(sorted@, title) == with_title(apps@.skip(rest@.len() as int), title),
        decreases rest@.len(),
    {
        let ghost before = sorted@;
        let ghost left = rest@;
        let ghost count = rest@.len() as int;
        let app = rest.pop().unwrap();
        let at: usize = insertion_point(&sorted, app.title.as_str());
        proof {
            let next = before.insert(at as int, app);
            assert(rest@ =~= apps@.take(count - 1));
            assert(apps@.skip(count - 1) =~= seq![app] + apps@.skip(count));
            assert forall|title: Seq<char>| #[trigger]
                with_title(next, title) == with_title(apps@.skip(count - 1), title) by {
                lemma_insert_keeps_order(before, at as int, app, title);
                Seq::filter_distributes_over_add(seq![app], apps@.skip(count), has_title(title));
            }
            lemma_insert_keeps_order(before, at as int, app, Seq::empty());
            assert(next.to_multiset().add(rest@.to_multiset()) =~= apps@.to_multiset()) by {
                before.insert_ensures(at as int, app);
                assert(left =~= rest@.push(app));
                assert(next.remove(at as int) =~= before);
                to_multiset_build(rest@, app);
                to_multiset_remove(next, at as int);
                next.to_multiset_ensures();
                assert(next.contains(app));
            }
        }
        sorted.insert(at, app);
    }
    proof {
        assert(apps@.skip(0) =~= apps@);
        assert(rest@.to_multiset() =~= Multiset::<AppMeta>::empty()) by {
            broadcast use vstd::seq_lib::group_to_multiset_ensures;

        }
        assert(sorted@.to_multiset().add(Multiset::<AppMeta>::empty()) =~= sorted@.to_multiset());
    }
    sorted
}

} // verus!
