use submit_pack::files::{
    build_string, decide, gen_paths, is_included, probe, select, verdict, Outcome, SkipReason,
    Skipped, WalkEntry,
};
use submit_pack::pattern::{build_regexes, compile};

fn file(path: &str) -> WalkEntry {
    WalkEntry::Found { path: String::from(path), is_dir: false }
}

fn dir(path: &str) -> WalkEntry {
    WalkEntry::Found { path: String::from(path), is_dir: true }
}

fn unreadable(path: &str, detail: &str) -> WalkEntry {
    WalkEntry::Unreadable { path: String::from(path), detail: String::from(detail) }
}

fn skipped(path: &str, reason: SkipReason) -> Skipped {
    Skipped { path: String::from(path), reason }
}

fn denied(detail: &str) -> SkipReason {
    SkipReason::Unreadable { detail: String::from(detail) }
}

#[test]
fn verdict_is_included_when_nothing_matched() {
    assert!(verdict(&[]));
    assert!(verdict(&[false]));
    assert!(verdict(&[false, false, false]));
    assert!(!verdict(&[true]));
    assert!(!verdict(&[false, false, true]));
    assert!(!verdict(&[true, false, false]));
    assert!(!verdict(&[true, true]));
}

#[test]
fn probe_asks_every_pattern() {
    let patterns = compile(&["*.o", ".git", "*.class", "Main*"]).ok().unwrap();
    assert_eq!(probe(&patterns, "Main.class"), vec![false, false, true, true]);
    assert_eq!(probe(&patterns, ".git/a.o"), vec![true, true, false, false]);
    assert_eq!(probe(&patterns, "src/lib.rs"), vec![false, false, false, false]);
    assert_eq!(probe(&[], "src/lib.rs"), Vec::<bool>::new());
}

#[test]
fn is_included_agrees_with_probe_and_verdict() {
    let patterns = build_regexes().ok().unwrap();
    for path in ["Main.java", "Main.class", ".git/config", "notes.bak", "a/b~", "x/y.z"] {
        assert_eq!(is_included(&patterns, path), verdict(&probe(&patterns, path)));
    }
}

#[test]
fn decide_gives_the_reason_for_what_it_passes_over() {
    let patterns = build_regexes().ok().unwrap();
    assert_eq!(
        decide(&dir("./src"), &patterns),
        Outcome::Skipped { skipped: skipped("./src", SkipReason::Directory) }
    );
    assert_eq!(
        decide(&dir("."), &patterns),
        Outcome::Skipped { skipped: skipped(".", SkipReason::Directory) }
    );
    assert_eq!(
        decide(&file("."), &patterns),
        Outcome::Skipped { skipped: skipped(".", SkipReason::Root) }
    );
    assert_eq!(
        decide(&file(".\\src\\Main.class"), &patterns),
        Outcome::Skipped { skipped: skipped("src/Main.class", SkipReason::Excluded) }
    );
    assert_eq!(
        decide(&unreadable("./locked", "permission denied"), &patterns),
        Outcome::Skipped { skipped: skipped("./locked", denied("permission denied")) }
    );
    assert_eq!(
        decide(&WalkEntry::NotText { path: String::from("./bad\u{fffd}name") }, &patterns),
        Outcome::Skipped { skipped: skipped("./bad\u{fffd}name", SkipReason::NotText) }
    );
    assert_eq!(
        decide(&file("./src/Main.java"), &patterns),
        Outcome::Included { path: String::from("src/Main.java") }
    );
}

#[test]
fn warnings_are_for_what_was_not_decided_by_the_deny_list() {
    assert_eq!(
        skipped("./locked", denied("permission denied")).warning(),
        Some(String::from("Could not read './locked' (permission denied), it is not submitted"))
    );
    assert_eq!(
        skipped("./bad\u{fffd}", SkipReason::NotText).warning(),
        Some(String::from("The path './bad\u{fffd}' is not valid text, it is not submitted"))
    );
    assert_eq!(skipped("./src", SkipReason::Directory).warning(), None);
    assert_eq!(skipped(".", SkipReason::Root).warning(), None);
    assert_eq!(skipped("a.o", SkipReason::Excluded).warning(), None);
}

#[test]
fn build_string_passes_over_directories_and_the_root() {
    let patterns = build_regexes().ok().unwrap();
    assert_eq!(build_string(&dir("./src"), &patterns), None);
    assert_eq!(build_string(&dir("."), &patterns), None);
    assert_eq!(build_string(&file("."), &patterns), None);
    assert_eq!(build_string(&unreadable("./locked", "denied"), &patterns), None);
    assert_eq!(build_string(&WalkEntry::NotText { path: String::from("x") }, &patterns), None);
}

#[test]
fn build_string_normalizes_what_it_keeps() {
    let patterns = build_regexes().ok().unwrap();
    assert_eq!(
        build_string(&file("./src/Main.java"), &patterns),
        Some(String::from("src/Main.java"))
    );
    assert_eq!(
        build_string(&file(".\\src\\Main.java"), &patterns),
        Some(String::from("src/Main.java"))
    );
    assert_eq!(build_string(&file("Main.java"), &patterns), Some(String::from("Main.java")));
    assert_eq!(build_string(&file("./src/Main.class"), &patterns), None);
    assert_eq!(build_string(&file(".\\.git\\config"), &patterns), None);
}

#[test]
fn selection_of_the_small_project() {
    let walk = vec![
        dir("."),
        file("./Main.java"),
        file("./Main.class"),
        dir("./.git"),
        file("./.git/config"),
        file("./notes.bak"),
    ];
    let selection = gen_paths(&walk).ok().unwrap();
    assert_eq!(selection.included, vec![String::from("Main.java")]);
    assert_eq!(
        selection.skipped,
        vec![
            skipped(".", SkipReason::Directory),
            skipped("Main.class", SkipReason::Excluded),
            skipped("./.git", SkipReason::Directory),
            skipped(".git/config", SkipReason::Excluded),
            skipped("notes.bak", SkipReason::Excluded),
        ]
    );
}

#[test]
fn selection_keeps_the_order_of_the_walk() {
    let walk = vec![
        dir("."),
        file("./z.txt"),
        dir("./src"),
        file("./src/b.c"),
        file("./src/b.o"),
        file("./src/a.c"),
        file("./a.txt"),
        file("./src/a.c~"),
    ];
    let selection = gen_paths(&walk).ok().unwrap();
    assert_eq!(
        selection.included,
        vec![
            String::from("z.txt"),
            String::from("src/b.c"),
            String::from("src/a.c"),
            String::from("a.txt"),
        ]
    );
    assert_eq!(selection.included.len() + selection.skipped.len(), walk.len());
}

#[test]
fn selection_reports_what_could_not_be_read() {
    let walk = vec![
        dir("."),
        unreadable("./secret", "permission denied"),
        file("./a.c"),
        unreadable("", "loop found"),
        WalkEntry::NotText { path: String::from("./\u{fffd}") },
        file("./b.c"),
    ];
    let selection = gen_paths(&walk).ok().unwrap();
    assert_eq!(selection.included, vec![String::from("a.c"), String::from("b.c")]);
    assert_eq!(
        selection.skipped,
        vec![
            skipped(".", SkipReason::Directory),
            skipped("./secret", denied("permission denied")),
            skipped("", denied("loop found")),
            skipped("./\u{fffd}", SkipReason::NotText),
        ]
    );
    let warnings: Vec<String> = selection.skipped.iter().filter_map(|s| s.warning()).collect();
    assert_eq!(warnings.len(), 3);
}

#[test]
fn selection_of_an_empty_walk_is_empty() {
    let selection = gen_paths(&[]).ok().unwrap();
    assert!(selection.included.is_empty());
    assert!(selection.skipped.is_empty());
}

#[test]
fn selection_twice_gives_the_same_paths() {
    let walk = vec![
        dir("."),
        file("./Main.java"),
        file("./Main.class"),
        file("./src/util.Java"),
        unreadable("./x", "gone"),
    ];
    let first = gen_paths(&walk).ok().unwrap();
    let second = gen_paths(&walk).ok().unwrap();
    assert_eq!(first, second);
    assert_eq!(first.included, vec![String::from("Main.java"), String::from("src/util.Java")]);
}

#[test]
fn select_with_a_deny_list_of_ones_own() {
    let patterns = compile(&["*.txt"]).ok().unwrap();
    let walk = vec![file("./a.txt"), file("./b.class"), file("./docs/c.txt"), dir("./docs")];
    let selection = select(&walk, &patterns);
    assert_eq!(selection.included, vec![String::from("b.class")]);
    let nothing_denied = select(&walk, &[]);
    assert_eq!(
        nothing_denied.included,
        vec![String::from("a.txt"), String::from("b.class"), String::from("docs/c.txt")]
    );
    assert_eq!(nothing_denied.skipped, vec![skipped("./docs", SkipReason::Directory)]);
}
