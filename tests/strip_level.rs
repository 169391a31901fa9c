use patch_apply::paths::join_components;
use patch_apply::strip::{guess_strip_level, strip_candidates, Candidate};

fn strings(v: &[&str]) -> Vec<String> {
    v.iter().map(|s| s.to_string()).collect()
}

fn probe(cands: &[Candidate], existing: &[&str]) -> Vec<bool> {
    cands.iter().map(|c| existing.contains(&c.path.as_str())).collect()
}

#[test]
fn candidates_follow_record_then_level_order() {
    let cands = strip_candidates(&strings(&["a/dir/file.txt", "b/x"]), "/wd");
    let got: Vec<(usize, &str)> = cands.iter().map(|c| (c.level, c.path.as_str())).collect();
    assert_eq!(
        got,
        vec![
            (0, "/wd/a/dir/file.txt"),
            (1, "/wd/dir/file.txt"),
            (2, "/wd/file.txt"),
            (0, "/wd/b/x"),
            (1, "/wd/x"),
        ]
    );
}

#[test]
fn prefixed_path_gives_level_one() {
    let cands = strip_candidates(&strings(&["a/dir/file.txt"]), "/wd");
    let exists = probe(&cands, &["/wd/dir/file.txt"]);
    assert_eq!(guess_strip_level(&cands, &exists), 1);
}

#[test]
fn unprefixed_path_gives_level_zero() {
    let cands = strip_candidates(&strings(&["dir/file.txt"]), "/wd");
    let exists = probe(&cands, &["/wd/dir/file.txt"]);
    assert_eq!(guess_strip_level(&cands, &exists), 0);
}

#[test]
fn no_existing_path_gives_level_one() {
    let cands = strip_candidates(&strings(&["x/y/z.c", "q/r.c"]), "/wd");
    assert_eq!(cands.len(), 5);
    let exists = probe(&cands, &["/wd/dir/file.txt"]);
    assert_eq!(guess_strip_level(&cands, &exists), 1);
}

#[test]
fn no_records_give_level_one() {
    let cands = strip_candidates(&Vec::new(), "/wd");
    assert!(cands.is_empty());
    assert_eq!(guess_strip_level(&cands, &Vec::new()), 1);
}

#[test]
fn first_match_wins_across_records() {
    let cands = strip_candidates(&strings(&["p/q/one.c", "two.c"]), "/wd");
    let exists = probe(&cands, &["/wd/q/one.c", "/wd/two.c", "/wd/one.c"]);
    assert_eq!(guess_strip_level(&cands, &exists), 1);
}

#[test]
fn deep_prefix_gives_level_two() {
    let cands = strip_candidates(&strings(&["x/y/src/main.c"]), "/wd");
    let exists = probe(&cands, &["/wd/src/main.c"]);
    assert_eq!(guess_strip_level(&cands, &exists), 2);
}

#[test]
fn short_probe_answer_counts_as_missing() {
    let cands = strip_candidates(&strings(&["a/b/c"]), "/wd");
    assert_eq!(guess_strip_level(&cands, &vec![false]), 1);
}

#[test]
fn current_dir_components_are_dropped() {
    let cands = strip_candidates(&strings(&["a//b/./c"]), "/wd");
    let got: Vec<(usize, &str)> = cands.iter().map(|c| (c.level, c.path.as_str())).collect();
    assert_eq!(got, vec![(0, "/wd/a/b/c"), (1, "/wd/b/c"), (2, "/wd/c")]);
}

#[test]
fn absolute_record_path_replaces_work_dir() {
    let cands = strip_candidates(&strings(&["/etc/conf"]), "/wd");
    let got: Vec<(usize, &str)> = cands.iter().map(|c| (c.level, c.path.as_str())).collect();
    assert_eq!(got, vec![(0, "/etc/conf"), (1, "/wd/etc/conf"), (2, "/wd/conf")]);
}

#[test]
fn join_components_pushes_the_tail() {
    let comps = strings(&["a", "b", "c"]);
    assert_eq!(join_components("/base", &comps, 1), "/base/b/c");
    assert_eq!(join_components("/base", &comps, 3), "/base");
}
