//! Computation of the paths a registration works with.
//!
//! All paths live under the install root, which is the workspace root joined
//! with the install base. Joining is plain separator concatenation: the
//! install base and the package name are taken as relative segments.

use vstd::prelude::*;
use vstd::string::StringExecFns;

verus! {

/// Two path segments joined with the separator.
pub open spec fn joined(base: Seq<char>, segment: Seq<char>) -> Seq<char> {
    base + "/"@ + segment
}

/// The install root: the workspace root joined with the install base.
pub open spec fn install_root(ws_root: Seq<char>, install_base: Seq<char>) -> Seq<char> {
    joined(ws_root, install_base)
}

/// The directory that holds the marker files of every registered package.
pub open spec fn marker_dir_spec(ws_root: Seq<char>, install_base: Seq<char>) -> Seq<char> {
    joined(install_root(ws_root, install_base), "share/ament_index/resource_index"@)
}

/// The marker file of one package: an empty file named after the package,
/// inside the marker directory.
pub open spec fn marker_path_spec(
    ws_root: Seq<char>,
    install_base: Seq<char>,
    pkg_name: Seq<char>,
) -> Seq<char> {
    joined(marker_dir_spec(ws_root, install_base), pkg_name)
}

/// The directory that receives one package's manifest copy.
pub open spec fn manifest_dir_spec(
    ws_root: Seq<char>,
    install_base: Seq<char>,
    pkg_name: Seq<char>,
) -> Seq<char> {
    joined(install_root(ws_root, install_base), pkg_name)
}

/// The destination of one package's manifest copy.
pub open spec fn manifest_dest_spec(
    ws_root: Seq<char>,
    install_base: Seq<char>,
    pkg_name: Seq<char>,
) -> Seq<char> {
    joined(manifest_dir_spec(ws_root, install_base, pkg_name), "package.xml"@)
}

/// Where the manifest is read from: the file named `package.xml` inside the
/// package's source directory.
pub open spec fn manifest_src_spec(pkg_source_dir: Seq<char>) -> Seq<char> {
    joined(pkg_source_dir, "package.xml"@)
}

/// Joins two path segments with the separator.
pub fn join_path(base: &str, segment: &str) -> (r: String)
    ensures
        r@ == joined(base@, segment@),
{
    let mut s: String = base.to_owned();
    s.append("/");
    s.append(segment);
    s
}

/// The directory that holds the marker files, as a path string.
pub fn marker_dir(ws_root: &str, install_base: &str) -> (r: String)
    ensures
        r@ == marker_dir_spec(ws_root@, install_base@),
{
    let root = join_path(ws_root, install_base);
    join_path(root.as_str(), "share/ament_index/resource_index")
}

/// The marker file of the named package, as a path string.
pub fn marker_path(ws_root: &str, install_base: &str, pkg_name: &str) -> (r: String)
    ensures
        r@ == marker_path_spec(ws_root@, install_base@, pkg_name@),
{
    let dir = marker_dir(ws_root, install_base);
    join_path(dir.as_str(), pkg_name)
}

/// The directory that receives the manifest copy, as a path string.
pub fn manifest_dir(ws_root: &str, install_base: &str, pkg_name: &str) -> (r: String)
    ensures
        r@ == manifest_dir_spec(ws_root@, install_base@, pkg_name@),
{
    let root = join_path(ws_root, install_base);
    join_path(root.as_str(), pkg_name)
}

/// The destination of the manifest copy, as a path string.
pub fn manifest_dest_path(ws_root: &str, install_base: &str, pkg_name: &str) -> (r: String)
    ensures
        r@ == manifest_dest_spec(ws_root@, install_base@, pkg_name@),
{
    let dir = manifest_dir(ws_root, install_base, pkg_name);
    join_path(dir.as_str(), "package.xml")
}

/// Where the manifest is read from, as a path string.
pub fn manifest_source_path(pkg_source_dir: &str) -> (r: String)
    ensures
        r@ == manifest_src_spec(pkg_source_dir@),
{
    join_path(pkg_source_dir, "package.xml")
}

/// Law: the computed paths are pure functions of the workspace root, the
/// install base and the package name — equal inputs give equal paths.
pub proof fn lemma_path_determinism(
    ws1: Seq<char>,
    base1: Seq<char>,
    pkg1: Seq<char>,
    ws2: Seq<char>,
    base2: Seq<char>,
    pkg2: Seq<char>,
)
    requires
        ws1 == ws2,
        base1 == base2,
        pkg1 == pkg2,
    ensures
        marker_path_spec(ws1, base1, pkg1) == marker_path_spec(ws2, base2, pkg2),
        manifest_dest_spec(ws1, base1, pkg1) == manifest_dest_spec(ws2, base2, pkg2),
{
}

} // verus!
