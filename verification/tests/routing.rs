use portfolio::components::card::Card;
use portfolio::html::Html;
use portfolio::pages::about::about;
use portfolio::pages::contributions::{load_contributions, ContributionsPageProps};
use portfolio::pages::projects::{load_projects, projects, ProjectsPageProps};
use portfolio::route::{switch, Route};

const ROUTES: [Route; 5] =
    [Route::Index, Route::Projects, Route::Contributions, Route::About, Route::NotFound];

fn is_blank(html: &Html) -> bool {
    match html {
        Html::Text(content) => content.is_empty(),
        Html::Fragment(children) => children.iter().all(is_blank),
        _ => false,
    }
}

/// Matches `path` the way a router that was handed the routes' paths does:
/// the paths go into a recognizer without their trailing slash, and so does
/// the path that is looked up.
fn reference_route(path: &str) -> Route {
    let mut router = route_recognizer::Router::new();
    for route in ROUTES {
        let pattern = route.to_path();
        router.add(pattern.strip_suffix('/').unwrap_or(&pattern), route);
    }
    match router.recognize(path.strip_suffix('/').unwrap_or(path)) {
        Ok(found) => **found.handler(),
        Err(_) => Route::NotFound,
    }
}

#[test]
fn root_path_is_the_index() {
    assert_eq!(Route::recognize("/"), Route::Index);
}

#[test]
fn each_path_leads_to_its_route() {
    assert_eq!(Route::recognize("/projects"), Route::Projects);
    assert_eq!(Route::recognize("/contributions"), Route::Contributions);
    assert_eq!(Route::recognize("/about"), Route::About);
    assert_eq!(Route::recognize("/404"), Route::NotFound);
}

#[test]
fn routes_have_their_paths() {
    assert_eq!(Route::Index.to_path(), "/");
    assert_eq!(Route::Projects.to_path(), "/projects");
    assert_eq!(Route::Contributions.to_path(), "/contributions");
    assert_eq!(Route::About.to_path(), "/about");
    assert_eq!(Route::NotFound.to_path(), "/404");
}

#[test]
fn path_of_a_route_leads_back_to_it() {
    for route in ROUTES {
        assert_eq!(Route::recognize(&route.to_path()), route);
    }
}

#[test]
fn one_trailing_slash_does_not_matter() {
    assert_eq!(Route::recognize("/projects/"), Route::Projects);
    assert_eq!(Route::recognize("/about/"), Route::About);
    assert_eq!(Route::recognize("/contributions/"), Route::Contributions);
    assert_eq!(Route::recognize("//"), Route::Index);
}

#[test]
fn two_trailing_slashes_do_matter() {
    assert_eq!(Route::recognize("/projects//"), Route::NotFound);
    assert_eq!(Route::recognize("///"), Route::NotFound);
}

#[test]
fn the_leading_slash_does_not_matter() {
    assert_eq!(Route::recognize(""), Route::Index);
    assert_eq!(Route::recognize("projects"), Route::Projects);
    assert_eq!(Route::recognize("about/"), Route::About);
    assert_eq!(Route::recognize("//projects"), Route::NotFound);
}

#[test]
fn unknown_paths_lead_to_not_found() {
    for path in [
        "/unknown-path",
        "/blog",
        "/project",
        "/projectss",
        "/Projects",
        "/PROJECTS",
        "/about/me",
        "/projects/contour",
        "/ projects",
        "/projects ",
        "/projects?x=1",
        "/projects#top",
        "/index",
        "/home",
        "/40",
        "/4040",
        "/ö",
        "/🦀",
        "about ",
        ".",
        "/.",
        "/about.",
    ] {
        assert_eq!(Route::recognize(path), Route::NotFound, "path {:?}", path);
    }
}

#[test]
fn unknown_path_shows_what_the_not_found_path_shows() {
    let unknown = switch(&Route::recognize("/unknown-path"));
    let not_found = switch(&Route::recognize("/404"));
    assert_eq!(unknown, not_found);
    assert_eq!(unknown, Html::from(Card::NotFound));
}

#[test]
fn recognition_agrees_with_a_route_recognizer() {
    let mut paths: Vec<String> = Vec::new();
    for core in [
        "", "projects", "contributions", "about", "404", "blog", "unknown-path", "project",
        "projectss", "abou", "aboutt", "Projects", "40", "4040", "a", "p", "c", "4",
        "about/projects", "projects/about", "projects.about", "about.", "ö", "🦀", " ", "*", ":id",
        "contributions/1",
    ] {
        for lead in ["", "/", "//"] {
            for trail in ["", "/", "//", "/x"] {
                paths.push(format!("{}{}{}", lead, core, trail));
            }
        }
    }
    assert_eq!(paths.len(), 28 * 12);
    for path in paths {
        assert_eq!(Route::recognize(&path), reference_route(&path), "path {:?}", path);
    }
}

#[test]
fn every_route_shows_something() {
    for route in ROUTES {
        assert!(!is_blank(&switch(&route)), "route {:?}", route);
    }
}

#[test]
fn index_and_projects_show_the_projects_page() {
    let page = projects(&ProjectsPageProps { projects: load_projects() });
    assert_eq!(switch(&Route::Index), page);
    assert_eq!(switch(&Route::Projects), page);
}

#[test]
fn contributions_about_and_not_found_show_their_pages() {
    assert_eq!(
        switch(&Route::Contributions),
        portfolio::pages::contributions::projects(&ContributionsPageProps {
            contributions: load_contributions()
        })
    );
    assert_eq!(switch(&Route::About), about());
    assert_eq!(switch(&Route::NotFound), Html::from(Card::NotFound));
}

#[test]
fn the_four_pages_differ() {
    let pages: Vec<Html> =
        [Route::Projects, Route::Contributions, Route::About, Route::NotFound].iter().map(switch).collect();
    for i in 0..pages.len() {
        for j in 0..pages.len() {
            assert_eq!(pages[i] == pages[j], i == j);
        }
    }
}

#[test]
fn switch_gives_the_same_page_on_every_call() {
    for route in ROUTES {
        assert_eq!(switch(&route), switch(&route));
    }
}
