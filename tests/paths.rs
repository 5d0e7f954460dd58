use broot_verbs::path::{ancestors, closest_dir, parent, path_from, split_components, PathAnchor};

#[test]
fn resolve_rules() {
    let home = "/home/me";
    assert_eq!(path_from("/base/dir", PathAnchor::Unspecified, "", home), "/base/dir");
    assert_eq!(path_from("/base/dir", PathAnchor::Unspecified, "~", home), "/home/me");
    assert_eq!(path_from("/base/dir", PathAnchor::Unspecified, "~/docs", home), "/home/me/docs");
    assert_eq!(path_from("/base/dir", PathAnchor::Unspecified, "~docs", home), "/base/dir/~docs");
    assert_eq!(path_from("/base/dir", PathAnchor::Unspecified, "/etc/./x/../y", home), "/etc/y");
    assert_eq!(path_from("/base/dir", PathAnchor::Unspecified, "../sib", home), "/base/sib");
    assert_eq!(path_from("/base", PathAnchor::Unspecified, "../../..", home), "/");
    assert_eq!(path_from("/base", PathAnchor::Absolute, "etc", home), "/etc");
    assert_eq!(path_from("/base", PathAnchor::HomeRelative, "docs//a/", home), "/home/me/docs/a");
}

#[test]
fn resolving_an_existing_directory_keeps_it() {
    let p = "/usr/share/doc";
    let resolved = path_from("/somewhere", PathAnchor::Unspecified, p, "/home/me");
    assert_eq!(resolved, p);
    assert_eq!(closest_dir(&resolved, &vec![true, true, true, true]), p);
}

#[test]
fn closest_dir_of_file_and_missing_path() {
    // a regular file: it is not a directory, its parent is
    assert_eq!(closest_dir("/a/b/file.txt", &vec![false, true, true, true]), "/a/b");
    // a missing path whose nearest existing ancestor is two levels up
    assert_eq!(closest_dir("/a/b/c/d", &vec![false, false, true, true, true]), "/a/b");
    // nothing exists: the root
    assert_eq!(closest_dir("/x/y", &vec![false, false, false]), "/");
}

#[test]
fn ancestors_nearest_first() {
    assert_eq!(ancestors("/a/b/c"), vec!["/a/b/c", "/a/b", "/a", "/"]);
    assert_eq!(ancestors("/"), vec!["/"]);
}

#[test]
fn parent_and_components() {
    assert_eq!(parent("/project"), "/");
    assert_eq!(parent("/a/b/"), "/a");
    assert_eq!(parent("/"), "/");
    assert_eq!(split_components("/a/./b//c/.."), vec!["a", "b"]);
}
