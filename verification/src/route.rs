//! The paths of the site and the page each one shows.
//!
//! A path is matched against the routes' own paths after one trailing slash
//! and then one leading slash have been taken off both, so `/projects`,
//! `/projects/` and `projects` all lead to the projects page. A path that
//! matches no route leads to the not-found page.

use vstd::prelude::*;

use crate::components::card::{Card, CardView};
use crate::html::{Html, Node};
use crate::pages::about::{about, about_page};
use crate::pages::contributions::{
    contribution_cards, contributions_page, load_contributions, ContributionsPageProps,
};
use crate::pages::projects::{load_projects, project_cards, projects, projects_page, ProjectsPageProps};

verus! {

/// A place a visitor can navigate to.
#[derive(Clone, Copy, Debug, PartialEq, Eq, Structural)]
pub enum Route {
    Index,
    Projects,
    Contributions,
    About,
    NotFound,
}

/// A path without one trailing slash and, after that, without one leading
/// slash.
pub open spec fn trimmed(path: Seq<char>) -> Seq<char> {
    let head = if path.len() > 0 && path.last() == '/' {
        path.drop_last()
    } else {
        path
    };
    if head.len() > 0 && head.first() == '/' {
        head.drop_first()
    } else {
        head
    }
}

impl Route {
    /// The path of a route.
    pub open spec fn path(self) -> Seq<char> {
        match self {
            Route::Index => "/"@,
            Route::Projects => "/projects"@,
            Route::Contributions => "/contributions"@,
            Route::About => "/about"@,
            Route::NotFound => "/404"@,
        }
    }

    /// Whether `pathname` is the path of this route, give or take the slashes
    /// at its ends.
    pub open spec fn matches(self, pathname: Seq<char>) -> bool {
        trimmed(pathname) == trimmed(self.path())
    }

    /// The route that `pathname` leads to: the one it matches, and the
    /// not-found route if it matches none.
    pub open spec fn resolve(pathname: Seq<char>) -> Route {
        if Route::Index.matches(pathname) {
            Route::Index
        } else if Route::Projects.matches(pathname) {
            Route::Projects
        } else if Route::Contributions.matches(pathname) {
            Route::Contributions
        } else if Route::About.matches(pathname) {
            Route::About
        } else {
            Route::NotFound
        }
    }

    /// The path of a route.
    pub fn to_path(&self) -> (path: String)
        ensures
            path@ == self.path(),
    {
        match self {
            Route::Index => String::from_str("/"),
            Route::Projects => String::from_str("/projects"),
            Route::Contributions => String::from_str("/contributions"),
            Route::About => String::from_str("/about"),
            Route::NotFound => String::from_str("/404"),
        }
    }

    /// The route that `pathname` leads to.
    pub fn recognize(pathname: &str) -> (route: Route)
        ensures
            route == Route::resolve(pathname@),
    {
        let core = trim(pathname);
        if same_text(core, trim("/")) {
            Route::Index
        } else if same_text(core, trim("/projects")) {
            Route::Projects
        } else if same_text(core, trim("/contributions")) {
            Route::Contributions
        } else if same_text(core, trim("/about")) {
            Route::About
        } else {
            Route::NotFound
        }
    }
}

/// What is left of the five paths once their slashes are taken off.
proof fn trimmed_paths()
    ensures
        trimmed(Route::Index.path()) == Seq::<char>::empty(),
        trimmed(Route::Projects.path()) == "projects"@,
        trimmed(Route::Contributions.path()) == "contributions"@,
        trimmed(Route::About.path()) == "about"@,
        trimmed(Route::NotFound.path()) == "404"@,
        "projects"@.len() == 8,
        "contributions"@.len() == 13,
        "about"@.len() == 5,
        "404"@.len() == 3,
        "about"@[0] == 'a',
        "404"@[0] == '4',
{
    reveal_strlit("/");
    reveal_strlit("/projects");
    reveal_strlit("/contributions");
    reveal_strlit("/about");
    reveal_strlit("/404");
    reveal_strlit("projects");
    reveal_strlit("contributions");
    reveal_strlit("about");
    reveal_strlit("404");
    assert(trimmed("/"@) =~= Seq::<char>::empty());
    assert(trimmed("/projects"@) =~= "projects"@);
    assert(trimmed("/contributions"@) =~= "contributions"@);
    assert(trimmed("/about"@) =~= "about"@);
    assert(trimmed("/404"@) =~= "404"@);
}

/// No path leads to two routes: a path that matches one route matches no
/// other.
pub proof fn routes_are_apart(pathname: Seq<char>, one: Route, other: Route)
    requires
        one.matches(pathname),
        other.matches(pathname),
    ensures
        one == other,
{
    trimmed_paths();
}

/// The path of a route leads back to that route.
pub proof fn path_leads_to_its_route(route: Route)
    ensures
        Route::resolve(route.path()) == route,
{
    trimmed_paths();
}

/// A path leads to the not-found page unless it matches one of the four other
/// routes; in particular, one that matches no route at all does.
pub proof fn unmatched_path_is_not_found(pathname: Seq<char>)
    ensures
        Route::resolve(pathname) != Route::NotFound ==> Route::resolve(pathname).matches(pathname),
        (forall|route: Route| !route.matches(pathname)) ==> Route::resolve(pathname)
            == Route::NotFound,
        Route::NotFound.matches(pathname) ==> Route::resolve(pathname) == Route::NotFound,
{
    trimmed_paths();
}

/// Takes one trailing slash and then one leading slash off a path.
fn trim(path: &str) -> (core: &str)
    ensures
        core@ == trimmed(path@),
{
    let length: usize = path.unicode_len();
    let end: usize = if length > 0 && path.get_char(length - 1) == '/' {
        length - 1
    } else {
        length
    };
    let start: usize = if end > 0 && path.get_char(0) == '/' {
        1
    } else {
        0
    };
    let core = path.substring_char(start, end);
    proof {
        assert(core@ =~= trimmed(path@));
    }
    core
}

/// Whether two pieces of text are the same, character by character.
fn same_text(one: &str, other: &str) -> (same: bool)
    ensures
        same == (one@ == other@),
{
    String::from_str(one) == String::from_str(other)
}

/// The page that a route shows.
pub open spec fn page(route: Route) -> Node {
    match route {
        Route::Index | Route::Projects => projects_page(project_cards()),
        Route::Contributions => contributions_page(contribution_cards()),
        Route::About => about_page(),
        Route::NotFound => CardView::NotFound.rendered(),
    }
}

/// Every route shows something.
pub proof fn every_page_shows_something(route: Route)
    ensures
        !page(route).is_blank(),
{
    match route {
        Route::Index | Route::Projects | Route::Contributions => {
            let banner = page(route).kids()[0];
            assert(banner is Element);
            assert(!banner.is_blank());
        },
        Route::About | Route::NotFound => {},
    }
}

/// Picks the page for a route: the projects page for the index and for
/// projects, the contributions and about pages for theirs, and the not-found
/// card for everything else.
pub fn switch(routes: &Route) -> (html: Html)
    ensures
        html@ == page(*routes),
        !html@.is_blank(),
{
    proof {
        every_page_shows_something(*routes);
    }
    match routes {
        Route::Index | Route::Projects => projects(&ProjectsPageProps { projects: load_projects() }),
        Route::Contributions => crate::pages::contributions::projects(
            &ContributionsPageProps { contributions: load_contributions() },
        ),
        Route::About => about(),
        Route::NotFound => Html::from(Card::NotFound),
    }
}

} // verus!
