use vstd::prelude::*;
use std::path::PathBuf;
use crate::applet::{mount_prefix, mount_prefix_of};
use crate::order::{SortKey, sort_by_key, sorted_by_key, with_key};
use crate::text::{cat, join, join_strings, views, starts_with, ends_with, is_prefix, is_suffix,
    slice, owned, trim_end_matches_str, trim_end_seq};

verus! {

#[verifier::external_type_specification]
#[verifier::external_body]
pub struct ExPathBuf(std::path::PathBuf);

/// `PathBuf` implements `Clone`; nothing is stated of the copy.
pub assume_specification[ <std::path::PathBuf as Clone>::clone ](p: &std::path::PathBuf) -> std::path::PathBuf;

/// A `route.rs` file found inside an applet.
#[derive(Debug, Clone)]
pub struct ScannedRoute {
    /// The URL segments between the applet root and the file.
    pub path_segments: Vec<String>,
    /// Where the file is.
    pub file: PathBuf,
    /// The route path inside the applet, e.g. "/login" or "/:userId".
    pub axum_path: String,
}

/// The route path for a list of URL segments: "/" for none, otherwise the
/// segments joined with "/" after a leading "/".
pub open spec fn axum_path_of(segments: Seq<Seq<char>>) -> Seq<char> {
    if segments.len() == 0 {
        "/"@
    } else {
        "/"@ + join(segments, "/"@)
    }
}

/// A folder name in brackets, such as `[userId]`.
pub open spec fn is_dynamic(folder: Seq<char>) -> bool {
    is_prefix("["@, folder) && is_suffix("]"@, folder)
}

/// The URL segment for a folder name: `[name]` becomes `:name`, any other
/// name stays as it is.
pub open spec fn segment_of(folder: Seq<char>) -> Seq<char> {
    if is_dynamic(folder) {
        ":"@ + folder.subrange(1, folder.len() - 1)
    } else {
        folder
    }
}

impl ScannedRoute {
    /// The route path for a list of URL segments, e.g. `["orders", ":orderId"]`
    /// gives "/orders/:orderId" and no segments give "/".
    pub fn build_axum_path(segments: &[String]) -> (r: String)
        ensures
            r@ == axum_path_of(views(segments@)),
    {
        if segments.len() == 0 {
            return owned("/");
        }
        let joined = join_strings(segments, "/");
        cat("/", joined.as_str())
    }

    /// The route for the `route.rs` file `file`, whose folders below the
    /// applet root are `folders`.
    pub fn from_folders(folders: &Vec<String>, file: PathBuf) -> (r: Self)
        ensures
            views(r.path_segments@) == views(folders@).map_values(|f: Seq<char>| segment_of(f)),
            r.file == file,
            r.axum_path@ == axum_path_of(views(r.path_segments@)),
    {
        let mut segments: Vec<String> = Vec::new();
        let mut i: usize = 0;
        while i < folders.len()
            invariant
                i <= folders@.len(),
                segments@.len() == i,
                forall|j: int| 0 <= j < i ==> (#[trigger] segments@[j])@ == segment_of(folders@[j]@),
            decreases folders@.len() - i,
        {
            segments.push(convert_segment(folders[i].as_str()));
            i = i + 1;
        }
        assert(views(segments@) =~= views(folders@).map_values(|f: Seq<char>| segment_of(f)));
        let axum_path = Self::build_axum_path(segments.as_slice());
        ScannedRoute { path_segments: segments, file, axum_path }
    }
}

impl SortKey for ScannedRoute {
    open spec fn sort_key(&self) -> Seq<char> {
        self.axum_path@
    }

    fn key(&self) -> (r: &str) {
        self.axum_path.as_str()
    }
}

/// Converts a folder name to a URL segment: `[userId]` becomes `:userId`,
/// a plain name stays as it is.
pub fn convert_segment(folder_name: &str) -> (r: String)
    ensures
        r@ == segment_of(folder_name@),
{
    if starts_with(folder_name, "[") && ends_with(folder_name, "]") {
        proof {
            reveal_strlit("[");
            reveal_strlit("]");
            let s = folder_name@;
            assert("["@.len() == 1 && "["@[0] == '[');
            assert("]"@.len() == 1 && "]"@[0] == ']');
            assert(s.subrange(0, 1) == "["@);
            assert(s.subrange(0, 1)[0] == s[0]);
            assert(s.subrange(s.len() - 1, s.len() as int) == "]"@);
            assert(s.subrange(s.len() - 1, s.len() as int)[0] == s[s.len() - 1]);
            assert(s.len() >= 2);
        }
        let n = folder_name.unicode_len();
        let inner = slice(folder_name, 1, n - 1);
        cat(":", inner.as_str())
    } else {
        owned(folder_name)
    }
}

/// An applet found in the project.
#[derive(Debug, Clone)]
pub struct ScannedApplet {
    /// The name, from the folder name without `.applet`.
    pub name: String,
    /// Where the `.applet` folder is.
    pub path: PathBuf,
    /// Its routes.
    pub routes: Vec<ScannedRoute>,
}

impl ScannedApplet {
    /// The URL prefix the applet mounts at: "/" and its name.
    pub fn prefix(&self) -> (r: String)
        ensures
            r@ == mount_prefix_of(self.name@),
    {
        mount_prefix(self.name.as_str())
    }

    /// The applet called `name` at `path` with `routes`, the routes sorted
    /// by their route path; routes with the same path keep their order.
    pub fn with_sorted_routes(name: String, path: PathBuf, routes: Vec<ScannedRoute>) -> (r: Self)
        ensures
            r.name == name,
            r.path == path,
            r.routes@.to_multiset() == routes@.to_multiset(),
            sorted_by_key(r.routes@),
            forall|k: Seq<char>| #[trigger] with_key(r.routes@, k) == with_key(routes@, k),
    {
        ScannedApplet { name, path, routes: sort_by_key(routes) }
    }
}

impl SortKey for ScannedApplet {
    open spec fn sort_key(&self) -> Seq<char> {
        self.name@
    }

    fn key(&self) -> (r: &str) {
        self.name.as_str()
    }
}

/// The applet name a folder stands for: a name ending in `.applet` names
/// the applet with every trailing `.applet` removed; other folders are no
/// applets.
pub open spec fn applet_name_of(folder: Seq<char>) -> Option<Seq<char>> {
    if is_suffix(".applet"@, folder) {
        Some(trim_end_seq(folder, ".applet"@))
    } else {
        None
    }
}

/// The applet name a folder stands for, if it is an applet folder.
pub fn applet_dir_name(folder: &str) -> (r: Option<String>)
    ensures
        match r {
            Some(n) => applet_name_of(folder@) == Some(n@),
            None => applet_name_of(folder@) is None,
        },
{
    if ends_with(folder, ".applet") {
        Some(trim_end_matches_str(folder, ".applet"))
    } else {
        None
    }
}

/// What a scan of a project found.
#[derive(Debug)]
pub struct ScannedProject {
    /// The project root.
    pub root: PathBuf,
    /// The applets found.
    pub applets: Vec<ScannedApplet>,
}

/// The number of routes of all the applets together.
pub open spec fn total_routes(applets: Seq<ScannedApplet>) -> nat
    decreases applets.len(),
{
    if applets.len() == 0 {
        0
    } else {
        total_routes(applets.drop_last()) + applets.last().routes@.len()
    }
}

impl ScannedProject {
    /// The project at `root` with `applets`, sorted by name; applets with
    /// the same name keep their order.
    pub fn with_sorted_applets(root: PathBuf, applets: Vec<ScannedApplet>) -> (r: Self)
        ensures
            r.root == root,
            r.applets@.to_multiset() == applets@.to_multiset(),
            sorted_by_key(r.applets@),
            forall|k: Seq<char>| #[trigger] with_key(r.applets@, k) == with_key(applets@, k),
    {
        ScannedProject { root, applets: sort_by_key(applets) }
    }

    /// The number of route files across all applets.
    pub fn route_count(&self) -> (r: usize)
        requires
            total_routes(self.applets@) <= usize::MAX,
        ensures
            r == total_routes(self.applets@),
    {
        let mut total: usize = 0;
        let mut i: usize = 0;
        while i < self.applets.len()
            invariant
                i <= self.applets@.len(),
                total == total_routes(self.applets@.take(i as int)),
                total_routes(self.applets@) <= usize::MAX,
            decreases self.applets@.len() - i,
        {
            proof {
                assert(self.applets@.take(i + 1).drop_last() =~= self.applets@.take(i as int));
                lemma_total_routes_prefix(self.applets@, i + 1);
            }
            total = total + self.applets[i].routes.len();
            i = i + 1;
        }
        assert(self.applets@.take(self.applets@.len() as int) =~= self.applets@);
        total
    }
}

/// The routes of a prefix of the applets are no more than those of all.
proof fn lemma_total_routes_prefix(s: Seq<ScannedApplet>, k: int)
    requires
        0 <= k <= s.len(),
    ensures
        total_routes(s.take(k)) <= total_routes(s),
    decreases s.len(),
{
    if k < s.len() {
        assert(s.drop_last().take(k) =~= s.take(k));
        lemma_total_routes_prefix(s.drop_last(), k);
    } else {
        assert(s.take(k) =~= s);
    }
}

} // verus!
