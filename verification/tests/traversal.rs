use rens::path_ext::Kind;
use rens::traverse::{expand, FsNode, TraversalPolicy};

fn file(name: &str) -> FsNode {
    FsNode { name: name.to_string(), kind: Kind::File, ignored: false, children: Vec::new() }
}

fn dir(name: &str, children: Vec<FsNode>) -> FsNode {
    FsNode { name: name.to_string(), kind: Kind::Directory, ignored: false, children }
}

fn policy(recursive: bool, depth_limit: Option<usize>, include_hidden: bool) -> TraversalPolicy {
    TraversalPolicy { recursive, depth_limit, include_hidden, honor_ignore_files: false }
}

#[test]
fn hidden_entries_follow_the_policy() {
    let roots = vec![dir("d", vec![file(".hidden_file"), file("visible.txt")])];

    let pruned = expand(&roots, &policy(true, None, false));
    assert_eq!(pruned, vec!["d/visible.txt".to_string()]);

    let kept = expand(&roots, &policy(true, None, true));
    assert_eq!(
        kept,
        vec!["d/.hidden_file".to_string(), "d/visible.txt".to_string()]
    );
}

#[test]
fn hidden_directories_are_not_entered() {
    let roots = vec![dir("d", vec![dir(".git", vec![file("config")]), file("a.txt")])];

    let pruned = expand(&roots, &policy(true, None, false));
    assert_eq!(pruned, vec!["d/a.txt".to_string()]);

    let kept = expand(&roots, &policy(true, None, true));
    assert_eq!(
        kept,
        vec!["d/.git/config".to_string(), "d/a.txt".to_string()]
    );
}

#[test]
fn depth_limit_bounds_the_walk() {
    let tree = vec![dir(
        "a",
        vec![dir("b", vec![dir("c", vec![file("file.txt")]), file("in_b.txt")]), file("in_a.txt")],
    )];

    let immediate = expand(&tree, &policy(true, Some(0), false));
    assert_eq!(immediate, vec!["a/in_a.txt".to_string()]);

    let one_down = expand(&tree, &policy(true, Some(1), false));
    assert_eq!(
        one_down,
        vec!["a/b/in_b.txt".to_string(), "a/in_a.txt".to_string()]
    );

    let two_down = expand(&tree, &policy(true, Some(2), false));
    assert_eq!(
        two_down,
        vec![
            "a/b/c/file.txt".to_string(),
            "a/b/in_b.txt".to_string(),
            "a/in_a.txt".to_string()
        ]
    );

    let unbounded = expand(&tree, &policy(true, None, false));
    assert_eq!(unbounded, two_down);
}

#[test]
fn non_recursive_drops_directories() {
    let roots = vec![dir("d", vec![file("inside.txt")]), file("lone.txt")];
    let flat = expand(&roots, &policy(false, None, false));
    assert_eq!(flat, vec!["lone.txt".to_string()]);
}

#[test]
fn non_directory_roots_pass_through() {
    let roots = vec![file("kept.bin"), file(".hidden_root")];
    let out = expand(&roots, &policy(true, None, false));
    assert_eq!(
        out,
        vec!["kept.bin".to_string(), ".hidden_root".to_string()]
    );
}

#[test]
fn ignored_entries_follow_the_policy() {
    let mut target = file("target.o");
    target.ignored = true;
    let roots = vec![dir("d", vec![target, file("source.c")])];

    let honoring = TraversalPolicy {
        recursive: true,
        depth_limit: None,
        include_hidden: true,
        honor_ignore_files: true,
    };
    assert_eq!(expand(&roots, &honoring), vec!["d/source.c".to_string()]);

    let oblivious = TraversalPolicy { honor_ignore_files: false, ..honoring };
    assert_eq!(
        expand(&roots, &oblivious),
        vec!["d/target.o".to_string(), "d/source.c".to_string()]
    );
}

#[test]
fn ignore_rule_carriers_stay_walkable() {
    let mut gitignore = file(".gitignore");
    gitignore.ignored = true;
    let roots = vec![dir("d", vec![gitignore, file("kept.txt")])];

    let honoring = TraversalPolicy {
        recursive: true,
        depth_limit: None,
        include_hidden: true,
        honor_ignore_files: true,
    };
    assert_eq!(
        expand(&roots, &honoring),
        vec!["d/.gitignore".to_string(), "d/kept.txt".to_string()]
    );
}

#[test]
fn symlinks_are_not_candidates() {
    let link = FsNode {
        name: "link".to_string(),
        kind: Kind::Symlink,
        ignored: false,
        children: Vec::new(),
    };
    let roots = vec![dir("d", vec![link, file("real.txt")])];
    assert_eq!(
        expand(&roots, &policy(true, None, false)),
        vec!["d/real.txt".to_string()]
    );
}
