use autores::config::{CursorLockRule, ResolutionProfile};
use autores::matcher::{find_rule, matches_key, stem_len};

fn profile(name: &str) -> ResolutionProfile {
    ResolutionProfile { process_name: name.to_string(), width: 1920, height: 1080, frequency: 60 }
}

fn lock_rule(name: &str) -> CursorLockRule {
    CursorLockRule { process_name: name.to_string(), padding_x: 0, padding_y: 0 }
}

#[test]
fn first_rule_in_list_order_wins() {
    let rules = vec![profile("Foo.exe"), profile("Foo")];
    assert_eq!(find_rule(&rules, "FOO.EXE"), Some(0));
}

#[test]
fn stem_rule_listed_first_wins_over_exact_rule() {
    let rules = vec![profile("foo"), profile("FOO.EXE")];
    assert_eq!(find_rule(&rules, "Foo.exe"), Some(0));
}

#[test]
fn no_rule_applies() {
    let rules = vec![profile("bar.exe"), profile("baz")];
    assert_eq!(find_rule(&rules, "foo.exe"), None);
    let empty: Vec<ResolutionProfile> = Vec::new();
    assert_eq!(find_rule(&empty, "foo.exe"), None);
}

#[test]
fn later_rule_found_when_earlier_ones_miss() {
    let rules = vec![lock_rule("a.exe"), lock_rule("b"), lock_rule("game")];
    assert_eq!(find_rule(&rules, "Game.EXE"), Some(2));
}

#[test]
fn key_comparison_ignores_ascii_case_only() {
    assert!(matches_key("GAME.exe", "game.EXE"));
    assert!(matches_key("game", "GAME.exe"));
    assert!(!matches_key("game.exe", "game"));
    assert!(!matches_key("gam", "game.exe"));
    assert!(!matches_key("\u{e9}.exe", "\u{c9}.exe"));
}

#[test]
fn stem_drops_the_last_extension() {
    assert_eq!(stem_len("game.exe"), 4);
    assert_eq!(stem_len("a.b.c"), 3);
    assert_eq!(stem_len("noext"), 5);
    assert_eq!(stem_len(".hidden"), 7);
    assert_eq!(stem_len("trail."), 5);
    assert_eq!(stem_len(""), 0);
}
