use toolkit_util::path::{common_root, relativize_path, AbsPath};

fn abs(text: &str) -> AbsPath {
    AbsPath {
        segments: text.split('/').filter(|s| !s.is_empty()).map(String::from).collect(),
    }
}

fn rel_text(src: &str, dest: &str) -> String {
    relativize_path(&abs(src), &abs(dest)).to_path_string()
}

#[test]
fn relativize_sibling_branches() {
    let r = relativize_path(&abs("/a/b/c"), &abs("/a/x/y"));
    assert_eq!(r.ups, 2);
    assert_eq!(r.tail, vec!["b".to_string(), "c".to_string()]);
    assert_eq!(r.to_path_string(), "../../b/c");
}

#[test]
fn relativize_into_deeper_destination() {
    let r = relativize_path(&abs("/a/b"), &abs("/a/b/c/d"));
    assert_eq!(r.ups, 2);
    assert!(r.tail.is_empty());
    assert_eq!(rel_text("/a/b", "/a/b/c/d"), "../..");
}

#[test]
fn relativize_shared_first_segment_only() {
    assert_eq!(rel_text("/a/b", "/a/c/d"), "../../b");
    assert_eq!(rel_text("/a/b", "/x/b/c/d"), "../../../../a/b");
}

#[test]
fn relativize_self_is_empty() {
    let r = relativize_path(&abs("/a/b/c"), &abs("/a/b/c"));
    assert_eq!(r.ups, 0);
    assert!(r.tail.is_empty());
    assert_eq!(r.to_path_string(), "");
    let root = relativize_path(&abs("/"), &abs("/"));
    assert_eq!(root.ups, 0);
    assert!(root.tail.is_empty());
}

#[test]
fn relativize_from_root() {
    assert_eq!(rel_text("/a/b", "/"), "a/b");
    assert_eq!(rel_text("/", "/a/b"), "../..");
}

#[test]
fn relativize_round_trip_concrete() {
    let src = abs("/usr/lib/x/y");
    let dest = abs("/usr/share/z");
    let r = relativize_path(&src, &dest);
    let mut resolved = dest.segments.clone();
    for _ in 0..r.ups {
        resolved.pop();
    }
    resolved.extend(r.tail.iter().cloned());
    assert_eq!(resolved, src.segments);
}

#[test]
fn common_root_is_longest_shared_prefix() {
    assert_eq!(common_root(&abs("/a/b/c"), &abs("/a/b/x/y")).segments, abs("/a/b").segments);
    assert!(common_root(&abs("/a"), &abs("/b")).segments.is_empty());
    assert_eq!(common_root(&abs("/a/b"), &abs("/a/b")).to_path_string(), "/a/b");
    assert_eq!(common_root(&abs("/p/q"), &abs("/r")).to_path_string(), "/");
}
