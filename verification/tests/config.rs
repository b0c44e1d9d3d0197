use ai_file_organize::config::{
    destination_dirs, get_subfiles, is_under, load_config, processing_order, AppConfig,
    Classification, Entry, EntryKind,
};

fn rule(prompt: &str, dir: &str) -> Classification {
    Classification { prompt: prompt.to_string(), dir: dir.to_string() }
}

fn config(rules: Vec<Classification>) -> AppConfig {
    AppConfig {
        classifications: rules,
        endpoint: "https://example.invalid/v1".to_string(),
        credential: "SECRET-REDACTED".to_string(),
        model: "sorter-1".to_string(),
    }
}

fn file(path: &str) -> Entry {
    let name = path.rsplit('/').next().unwrap().to_string();
    Entry { path: path.to_string(), name, kind: EntryKind::File }
}

fn dir(path: &str) -> Entry {
    let name = path.rsplit('/').next().unwrap().to_string();
    Entry { path: path.to_string(), name, kind: EntryKind::Directory }
}

fn dirs(list: &[&str]) -> Vec<String> {
    list.iter().map(|d| d.to_string()).collect()
}

#[test]
fn a_path_is_under_itself_and_under_its_ancestors() {
    assert!(is_under("/in/movies", "/in/movies"));
    assert!(is_under("/in/movies/Dune", "/in/movies"));
    assert!(is_under("/in/movies/Dune/a.mkv", "/in/movies"));
    assert!(is_under("/in/movies/Dune", "/in/movies/"));
    assert!(is_under("/in/a", "/"));
    assert!(is_under("in/movies/x", "in/movies"));
    assert!(is_under("", ""));
}

#[test]
fn a_path_is_not_under_a_sibling_or_a_descendant() {
    assert!(!is_under("/in/moviesx", "/in/movies"));
    assert!(!is_under("/in/movie", "/in/movies"));
    assert!(!is_under("/in", "/in/movies"));
    assert!(!is_under("/in/movies", "/in/movies/"));
    assert!(!is_under("/other/movies", "/in/movies"));
    assert!(!is_under("/in/a", ""));
    assert!(!is_under("a", ""));
    assert!(!is_under("/in/电影院", "/in/电影"));
    assert!(is_under("/in/电影/a", "/in/电影"));
}

#[test]
fn entries_at_or_below_a_destination_are_not_enumerated() {
    let listed = vec![
        dir("/in/movies"),
        dir("/in/Dune"),
        file("/in/movies.txt"),
        dir("/in/misc"),
        file("/in/a.pdf"),
    ];
    let kept = get_subfiles(&listed, &dirs(&["/in/movies", "/in/misc"]));
    assert_eq!(kept, vec![dir("/in/Dune"), file("/in/movies.txt"), file("/in/a.pdf")]);
}

#[test]
fn a_destination_above_the_staging_directory_excludes_everything() {
    let listed = vec![dir("/in/Dune"), file("/in/a.pdf")];
    assert_eq!(get_subfiles(&listed, &dirs(&["/out", "/in"])), vec![]);
    assert_eq!(get_subfiles(&listed, &dirs(&["/"])), vec![]);
}

#[test]
fn the_bookkeeping_file_is_not_enumerated() {
    let listed = vec![file("/in/.DS_Store"), file("/in/a.pdf"), file("/in/.DS_Store2")];
    assert_eq!(
        get_subfiles(&listed, &dirs(&["/out/movies"])),
        vec![file("/in/a.pdf"), file("/in/.DS_Store2")]
    );
}

#[test]
fn without_destinations_only_the_bookkeeping_file_is_left_out() {
    let listed = vec![dir("/in/b"), file("/in/.DS_Store"), file("/in/a")];
    assert_eq!(get_subfiles(&listed, &vec![]), vec![dir("/in/b"), file("/in/a")]);
    assert_eq!(get_subfiles(&vec![], &dirs(&["/out"])), vec![]);
}

#[test]
fn enumerating_again_changes_nothing() {
    let listed = vec![dir("/in/movies"), dir("/in/Dune"), file("/in/.DS_Store"), file("/in/a")];
    let targets = dirs(&["/in/movies"]);
    let once = get_subfiles(&listed, &targets);
    let twice = get_subfiles(&once, &targets);
    assert_eq!(once, twice);
}

#[test]
fn destination_dirs_follow_the_rules() {
    let cfg = config(vec![rule("movie", "/out/movies"), rule("others", "/out/misc"), rule("m", "/out/movies")]);
    assert_eq!(destination_dirs(&cfg), dirs(&["/out/movies", "/out/misc", "/out/movies"]));
    assert_eq!(destination_dirs(&config(vec![])), Vec::<String>::new());
}

#[test]
fn load_config_pairs_the_rules_with_the_eligible_entries() {
    let cfg = config(vec![rule("movie", "/in/movies"), rule("others", "/out/misc")]);
    let listed = vec![file("/in/a.pdf"), dir("/in/movies"), file("/in/.DS_Store"), dir("/in/Dune")];
    let loaded = load_config(cfg.clone(), &listed);
    assert_eq!(loaded.app_config, cfg);
    assert_eq!(loaded.sub_files, vec![file("/in/a.pdf"), dir("/in/Dune")]);
}

#[test]
fn directories_are_processed_before_files() {
    let entries = vec![file("/in/a"), dir("/in/x"), file("/in/b"), dir("/in/y"), file("/in/c")];
    assert_eq!(
        processing_order(&entries),
        vec![dir("/in/x"), dir("/in/y"), file("/in/a"), file("/in/b"), file("/in/c")]
    );
    assert_eq!(processing_order(&vec![]), vec![]);
}

#[test]
fn an_entry_can_be_duplicated() {
    let entry = dir("/in/Dune");
    assert_eq!(entry.duplicate(), entry);
}
