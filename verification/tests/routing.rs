use localserve::routing::{route, RouteDecision};

fn served_file(d: RouteDecision) -> String {
    match d {
        RouteDecision::File(f) => f,
        _ => panic!("expected a file decision"),
    }
}

#[test]
fn root_serves_index() {
    assert!(matches!(route("/"), RouteDecision::Index));
}

#[test]
fn plain_path_resolves_relative() {
    assert_eq!(served_file(route("/missing.txt")), "missing.txt");
    assert_eq!(served_file(route("/sub/dir/app.js")), "sub/dir/app.js");
}

#[test]
fn path_without_leading_separator_kept() {
    assert_eq!(served_file(route("style.css")), "style.css");
}

#[test]
fn empty_path_resolves_empty() {
    assert_eq!(served_file(route("")), "");
}

#[test]
fn traversal_segments_rejected() {
    assert!(matches!(route("/a/../b"), RouteDecision::Rejected));
    assert!(matches!(route("/.."), RouteDecision::Rejected));
    assert!(matches!(route("../secret"), RouteDecision::Rejected));
    assert!(matches!(route("/a/.."), RouteDecision::Rejected));
    assert!(matches!(route(".."), RouteDecision::Rejected));
}

#[test]
fn dots_inside_names_are_not_traversal() {
    assert_eq!(served_file(route("/..a")), "..a");
    assert_eq!(served_file(route("/a..")), "a..");
    assert_eq!(served_file(route("/a..b/c")), "a..b/c");
    assert_eq!(served_file(route("/...")), "...");
}
