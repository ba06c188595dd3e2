use perseus_driver::path::{lists_path, EntryPath, FilePath};
use perseus_driver::text::lists_text;

fn built(parts: &[&str]) -> FilePath {
    FilePath {
        spelling: parts.join("/").into_bytes(),
        components: parts.iter().map(|c| c.as_bytes().to_vec()).collect(),
    }
}

#[test]
fn paths_are_the_same_by_their_components() {
    assert!(built(&["/", "a", "b"]).same(&built(&["/", "a", "b"])));
    assert!(!built(&["/", "a", "b"]).same(&built(&["/", "a"])));
    assert!(!built(&["/", "a", "b"]).same(&built(&["/", "a", "c"])));
    assert!(!built(&["/", "ab"]).same(&built(&["/", "a"])));
    assert!(built(&[]).same(&built(&[])));
}

fn respelled(mut path: FilePath, spelling: &str) -> FilePath {
    path.spelling = spelling.as_bytes().to_vec();
    path
}

#[test]
fn the_spelling_is_kept_but_makes_no_difference() {
    let path = respelled(built(&["/", "a", "b"]), "/a/./b");
    let other = respelled(built(&["/", "a", "b"]), "/a//b");
    assert!(path.same(&other));
    assert!(lists_path(&vec![other], &path));
    assert_eq!(path.duplicate().spelling, b"/a/./b".to_vec());
}

#[test]
fn copies_of_paths() {
    let path = respelled(built(&["/", "cache"]), "//cache");
    assert_eq!(path.duplicate(), path);
    let entry = EntryPath { dir: path, name: "tools".to_string() };
    assert_eq!(entry.duplicate(), entry);
}

#[test]
fn lists_of_paths_and_texts() {
    let list = vec![built(&["/", "a"]), built(&["/", "b"])];
    assert!(lists_path(&list, &built(&["/", "b"])));
    assert!(!lists_path(&list, &built(&["/", "c"])));
    assert!(!lists_path(&vec![], &built(&[])));
    let names = vec!["dist".to_string(), "target".to_string()];
    assert!(lists_text(&names, &"target".to_string()));
    assert!(!lists_text(&names, &"targe".to_string()));
}
