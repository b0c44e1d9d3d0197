use ai_file_organize::config::Classification;
use ai_file_organize::resolver::{resolve, ResolveError};

fn rule(prompt: &str, dir: &str) -> Classification {
    Classification { prompt: prompt.to_string(), dir: dir.to_string() }
}

#[test]
fn a_configured_label_resolves_to_its_directory() {
    let rules = vec![rule("movie", "/out/movies"), rule("others", "/out/misc")];
    assert_eq!(resolve("movie", &rules), Ok("/out/movies".to_string()));
    assert_eq!(resolve("others", &rules), Ok("/out/misc".to_string()));
}

#[test]
fn an_unconfigured_label_is_an_error() {
    let rules = vec![rule("movie", "/out/movies")];
    assert_eq!(resolve("anime", &rules), Err(ResolveError::UnknownLabel));
    assert_eq!(resolve("others", &rules), Err(ResolveError::UnknownLabel));
    assert_eq!(resolve("movie", &vec![]), Err(ResolveError::UnknownLabel));
}

#[test]
fn the_first_of_two_rules_with_one_label_wins() {
    let rules = vec![
        rule("anime", "/out/anime"),
        rule("movie", "/out/first"),
        rule("movie", "/out/second"),
    ];
    assert_eq!(resolve("movie", &rules), Ok("/out/first".to_string()));
}

#[test]
fn labels_are_compared_exactly() {
    let rules = vec![rule("movie", "/out/movies")];
    assert_eq!(resolve("Movie", &rules), Err(ResolveError::UnknownLabel));
    assert_eq!(resolve("movie ", &rules), Err(ResolveError::UnknownLabel));
    assert_eq!(resolve("", &rules), Err(ResolveError::UnknownLabel));
    assert_eq!(resolve("", &vec![rule("", "/out/blank")]), Ok("/out/blank".to_string()));
}
