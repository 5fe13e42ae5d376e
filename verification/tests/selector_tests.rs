use acdm::error::DomainError;
use acdm::selector::CompiledSelector;

fn patterns(ps: &[&str]) -> Vec<String> {
    ps.iter().map(|p| p.to_string()).collect()
}

#[test]
fn compile_accepts_valid_patterns() {
    let sel = CompiledSelector::compile(&patterns(&["docs/**", "src/**", "*.md"])).unwrap();
    assert_eq!(sel.len(), 3);
}

#[test]
fn compile_rejects_invalid_pattern() {
    let r = CompiledSelector::compile(&patterns(&["docs/**", "a**"]));
    match r {
        Err(DomainError::PathPatternError(m)) => {
            assert_eq!(m, "invalid pattern: a**");
        }
        Err(other) => panic!("expected a pattern error, got {:?}", other),
        Ok(_) => panic!("expected a pattern error, got a selector"),
    }
}

#[test]
fn single_star_does_not_cross_separators() {
    let sel = CompiledSelector::compile(&patterns(&["*.rs"])).unwrap();
    assert!(sel.matches("b.rs"));
    assert!(!sel.matches("src/b.rs"));
    let one = CompiledSelector::compile(&patterns(&["docs/*"])).unwrap();
    assert!(one.matches("docs/a.md"));
    assert!(!one.matches("docs/sub/a.md"));
}

#[test]
fn compile_rejects_unclosed_bracket() {
    let r = CompiledSelector::compile(&patterns(&["[abc"]));
    assert!(matches!(r, Err(DomainError::PathPatternError(_))));
}

#[test]
fn single_pattern_matches_glob_semantics() {
    let sel = CompiledSelector::compile(&patterns(&["docs/**"])).unwrap();
    assert!(sel.matches("docs/a.md"));
    assert!(sel.matches("docs/sub/deep.md"));
    assert!(!sel.matches("src/b.rs"));
}

#[test]
fn double_star_crosses_directory_separators() {
    let sel = CompiledSelector::compile(&patterns(&["docs/**"])).unwrap();
    assert!(sel.matches("docs/a/b/c/d.txt"));
}

#[test]
fn question_mark_and_classes() {
    let sel = CompiledSelector::compile(&patterns(&["c?t"])).unwrap();
    assert!(sel.matches("cat"));
    assert!(!sel.matches("cart"));
    let cls = CompiledSelector::compile(&patterns(&["file[0-9].txt"])).unwrap();
    assert!(cls.matches("file7.txt"));
    assert!(!cls.matches("fileX.txt"));
}

#[test]
fn empty_selector_matches_nothing() {
    let sel = CompiledSelector::compile(&patterns(&[])).unwrap();
    assert!(!sel.matches("anything"));
}

#[test]
fn any_pattern_of_the_set_selects() {
    let sel = CompiledSelector::compile(&patterns(&["docs/**", "src/**"])).unwrap();
    assert!(sel.matches("docs/a.md"));
    assert!(sel.matches("src/b.rs"));
    assert!(!sel.matches("tests/c.rs"));
}
