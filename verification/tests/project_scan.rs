use std::path::PathBuf;
use sweech::scanner::{applet_dir_name, convert_segment, ScannedApplet, ScannedProject, ScannedRoute};

#[test]
fn convert_segment_handles_dynamic() {
    assert_eq!(convert_segment("[userId]"), ":userId");
    assert_eq!(convert_segment("[productId]"), ":productId");
    assert_eq!(convert_segment("login"), "login");
    assert_eq!(convert_segment("orders"), "orders");
}

#[test]
fn convert_segment_edge_cases() {
    assert_eq!(convert_segment("[]"), ":");
    assert_eq!(convert_segment("["), "[");
    assert_eq!(convert_segment("]"), "]");
    assert_eq!(convert_segment("[a"), "[a");
}

#[test]
fn axum_path_from_segments() {
    assert_eq!(ScannedRoute::build_axum_path(&[]), "/");
    assert_eq!(
        ScannedRoute::build_axum_path(&["login".to_string()]),
        "/login"
    );
    assert_eq!(
        ScannedRoute::build_axum_path(&[":userId".to_string()]),
        "/:userId"
    );
    assert_eq!(
        ScannedRoute::build_axum_path(&["orders".to_string(), ":orderId".to_string()]),
        "/orders/:orderId"
    );
}

fn route(folders: &[&str]) -> ScannedRoute {
    let folders: Vec<String> = folders.iter().map(|s| s.to_string()).collect();
    ScannedRoute::from_folders(&folders, PathBuf::from("/tmp/route.rs"))
}

#[test]
fn route_from_folders_converts_segments() {
    let r = route(&["orders", "[orderId]"]);
    assert_eq!(r.path_segments, vec!["orders".to_string(), ":orderId".to_string()]);
    assert_eq!(r.axum_path, "/orders/:orderId");
    assert_eq!(r.file, PathBuf::from("/tmp/route.rs"));
    assert_eq!(route(&[]).axum_path, "/");
}

#[test]
fn applet_folders_are_recognised() {
    assert_eq!(applet_dir_name("auth.applet").as_deref(), Some("auth"));
    assert_eq!(applet_dir_name("x.applet.applet").as_deref(), Some("x"));
    assert_eq!(applet_dir_name("apps"), None);
    assert_eq!(applet_dir_name(".applet").as_deref(), Some(""));
}

#[test]
fn applets_and_routes_are_sorted() {
    let products = ScannedApplet::with_sorted_routes(
        "products".to_string(),
        PathBuf::from("/p/products.applet"),
        vec![route(&["[productId]"]), route(&[])],
    );
    assert_eq!(products.routes[0].axum_path, "/");
    assert_eq!(products.routes[1].axum_path, "/:productId");
    assert_eq!(products.prefix(), "/products");

    let auth = ScannedApplet::with_sorted_routes(
        "auth".to_string(),
        PathBuf::from("/p/auth.applet"),
        vec![route(&["register"]), route(&["login"])],
    );
    assert_eq!(auth.routes[0].axum_path, "/login");

    let project = ScannedProject::with_sorted_applets(PathBuf::from("/p"), vec![products, auth]);
    assert_eq!(project.applets[0].name, "auth");
    assert_eq!(project.applets[1].name, "products");
    assert_eq!(project.route_count(), 4);
}

#[test]
fn empty_project_counts_no_routes() {
    let project = ScannedProject::with_sorted_applets(PathBuf::from("/p"), vec![]);
    assert_eq!(project.route_count(), 0);
}

#[test]
fn routes_with_the_same_path_keep_their_order() {
    let at = |folders: &[&str], file: &str| {
        let folders: Vec<String> = folders.iter().map(|s| s.to_string()).collect();
        ScannedRoute::from_folders(&folders, PathBuf::from(file))
    };
    let routes = vec![at(&["b"], "/x/b.rs"), at(&[":id"], "/x/first.rs"), at(&["[id]"], "/x/second.rs")];
    let applet = ScannedApplet::with_sorted_routes("a".to_string(), PathBuf::from("/x"), routes);
    let files: Vec<PathBuf> = applet.routes.iter().map(|r| r.file.clone()).collect();
    assert_eq!(
        files,
        vec![PathBuf::from("/x/first.rs"), PathBuf::from("/x/second.rs"), PathBuf::from("/x/b.rs")]
    );
}
