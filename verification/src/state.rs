//! The state of the application: which page is shown, and which work.

use vstd::prelude::*;
use crate::route::{texts, Route};
use crate::works::{spec_page_content, Slug, WorkContent};

verus! {

/// The top-level view.
#[derive(Clone, Copy, Debug, PartialEq, Eq, PartialOrd, Structural)]
pub enum Page {
    Home,
    Work,
    Unknown,
}

/// The current page and the current work.
///
/// The fields are written by [`set_page`] and [`set_slug`] alone, which
/// report whether the value changed: whoever listens hears of a change once,
/// and of a write that changes nothing not at all.
#[derive(Clone, Copy, Debug, PartialEq, Eq)]
pub struct AppState {
    page: Page,
    slug: Slug,
}

/// What an [`AppState`] holds.
pub struct AppStateView {
    pub page: Page,
    pub slug: Slug,
}

impl View for AppState {
    type V = AppStateView;

    closed spec fn view(&self) -> AppStateView {
        AppStateView { page: self.page, slug: self.slug }
    }
}

impl AppState {
    /// The state at start: no route has been seen, so the page is unknown,
    /// and the work is the index.
    pub fn new() -> (state: AppState)
        ensures
            state@ == (AppStateView { page: Page::Unknown, slug: Slug::Root }),
    {
        AppState { page: Page::Unknown, slug: Slug::Root }
    }

    /// The current page.
    pub fn page(&self) -> (page: Page)
        ensures
            page == self@.page,
    {
        self.page
    }

    /// The current work.
    pub fn slug(&self) -> (slug: Slug)
        ensures
            slug == self@.slug,
    {
        self.slug
    }
}

/// Makes `new_page` the current page, and says whether that changed it.
pub fn set_page(state: &mut AppState, new_page: Page) -> (changed: bool)
    ensures
        final(state)@ == (AppStateView { page: new_page, slug: old(state)@.slug }),
        changed == (old(state)@.page != new_page),
{
    if state.page == new_page {
        false
    } else {
        state.page = new_page;
        true
    }
}

/// Makes `new_slug` the current work, and says whether that changed it.
pub fn set_slug(state: &mut AppState, new_slug: Slug) -> (changed: bool)
    ensures
        final(state)@ == (AppStateView { page: old(state)@.page, slug: new_slug }),
        changed == (old(state)@.slug != new_slug),
{
    if state.slug == new_slug {
        false
    } else {
        state.slug = new_slug;
        true
    }
}

/// Which of the two values a route change has changed.
#[derive(Clone, Copy, Debug, PartialEq, Eq, Structural)]
pub struct Changes {
    pub page: bool,
    pub slug: bool,
}

/// The state after the router has reported `route`, `None` standing for a
/// path that leads nowhere.
pub open spec fn spec_on_route(state: AppStateView, route: Option<Route>) -> AppStateView {
    match route {
        None => AppStateView { page: Page::Unknown, slug: state.slug },
        Some(Route::Home) => AppStateView { page: Page::Home, slug: state.slug },
        Some(Route::Works) => AppStateView { page: Page::Work, slug: Slug::Root },
        Some(Route::Work { slug }) => AppStateView { page: Page::Work, slug },
    }
}

/// What has changed between two states.
pub open spec fn spec_changes(before: AppStateView, after: AppStateView) -> Changes {
    Changes { page: before.page != after.page, slug: before.slug != after.slug }
}

/// Takes the state to where `route` leads, and says what that changed.
///
/// A path that leads nowhere shows the unknown page and leaves the work as
/// it is, and so does the home page. Every route to the works sets both the
/// page and the work.
pub fn on_route(state: &mut AppState, route: Option<Route>) -> (changes: Changes)
    ensures
        final(state)@ == spec_on_route(old(state)@, route),
        changes == spec_changes(old(state)@, final(state)@),
{
    match route {
        None => {
            let page: bool = set_page(state, Page::Unknown);
            Changes { page, slug: false }
        },
        Some(Route::Home) => {
            let page: bool = set_page(state, Page::Home);
            Changes { page, slug: false }
        },
        Some(Route::Works) => {
            let page: bool = set_page(state, Page::Work);
            let slug: bool = set_slug(state, Slug::Root);
            Changes { page, slug }
        },
        Some(Route::Work { slug }) => {
            let page: bool = set_page(state, Page::Work);
            let slug: bool = set_slug(state, slug);
            Changes { page, slug }
        },
    }
}

/// Takes the state to where the path of `segments` leads, and says what
/// that changed.
pub fn navigate(state: &mut AppState, segments: &[&str]) -> (changes: Changes)
    ensures
        final(state)@ == spec_on_route(old(state)@, Route::spec_decode(texts(segments@))),
        changes == spec_changes(old(state)@, final(state)@),
{
    on_route(state, Route::decode(segments))
}

/// What the page shows.
#[derive(Clone, Copy, Debug, PartialEq, Eq, Structural)]
pub enum PageContent {
    /// The greeting of the home page.
    Home,
    /// The page of the works.
    Work(WorkContent),
    /// The notice that the path leads nowhere.
    Unknown,
}

/// What the page shows in `state`.
pub open spec fn spec_page_content_of(state: AppStateView) -> PageContent {
    match state.page {
        Page::Home => PageContent::Home,
        Page::Work => PageContent::Work(spec_page_content(state.slug)),
        Page::Unknown => PageContent::Unknown,
    }
}

/// What the page shows in `state`: the work is looked at on the page of the
/// works alone.
pub fn page_content(state: &AppState) -> (content: PageContent)
    ensures
        content == spec_page_content_of(state@),
        content matches PageContent::Work(WorkContent::Animation(renderer)) ==> renderer.wf(),
{
    match state.page {
        Page::Home => PageContent::Home,
        Page::Work => PageContent::Work(crate::works::page_content(state.slug)),
        Page::Unknown => PageContent::Unknown,
    }
}

/// A route reported twice in a row changes nothing the second time.
pub proof fn lemma_on_route_idempotent(state: AppStateView, route: Option<Route>)
    ensures
        spec_on_route(spec_on_route(state, route), route) == spec_on_route(state, route),
        spec_changes(spec_on_route(state, route), spec_on_route(spec_on_route(state, route), route))
            == (Changes { page: false, slug: false }),
{
}

/// Whatever the state was, a route to a work leaves the page of the works
/// with that work on it.
pub proof fn lemma_work_route_sets_both(state: AppStateView, slug: Slug)
    ensures
        spec_on_route(state, Some(Route::Work { slug })) == (AppStateView {
            page: Page::Work,
            slug,
        }),
{
}

} // verus!
