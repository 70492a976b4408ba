use flatpakify::errors::BuildError;
use flatpakify::flatpak_id_for_game;
use flatpakify::resolve::{resolve_entry_point, strip_sidecar_suffix};

#[test]
fn id_applies_fixed_template() {
    let id = flatpak_id_for_game("abc-123");
    assert_eq!(id, "edu.rit.csh.devcade.game.id-abc-123");
}

#[test]
fn id_depends_on_game_id_alone() {
    assert_eq!(flatpak_id_for_game("x"), flatpak_id_for_game("x"));
    assert_eq!(flatpak_id_for_game(""), "edu.rit.csh.devcade.game.id-");
    assert_ne!(flatpak_id_for_game("a"), flatpak_id_for_game("b"));
}

#[test]
fn single_sidecar_resolves_to_stem() {
    let names = vec![
        "foo.dll".to_string(),
        "readme.txt".to_string(),
        "foo.runtimeconfig.json".to_string(),
        "foo.pdb".to_string(),
    ];
    let r = resolve_entry_point(&names);
    assert_eq!(r.unwrap(), "foo");
}

#[test]
fn no_sidecar_is_unsupported_inference() {
    let names = vec!["foo.dll".to_string(), "foo.json".to_string()];
    let r = resolve_entry_point(&names);
    assert!(matches!(r, Err(BuildError::UnsupportedInference)));
    let e = r.unwrap_err();
    assert_eq!(
        e.message(),
        "No runtimeconfig.json found, executable names from game name are not supported sorry"
    );
}

#[test]
fn empty_listing_is_unsupported_inference() {
    let names: Vec<String> = Vec::new();
    let r = resolve_entry_point(&names);
    assert!(matches!(r, Err(BuildError::UnsupportedInference)));
}

#[test]
fn multiple_sidecars_pick_a_candidate() {
    let names = vec![
        "b.runtimeconfig.json".to_string(),
        "a.runtimeconfig.json".to_string(),
    ];
    let r = resolve_entry_point(&names).unwrap();
    assert!(r == "a" || r == "b");
    // The first match in listing order wins.
    assert_eq!(r, "b");
}

#[test]
fn suffix_must_be_at_the_end() {
    let names = vec!["foo.runtimeconfig.json.bak".to_string()];
    let r = resolve_entry_point(&names);
    assert!(matches!(r, Err(BuildError::UnsupportedInference)));
}

#[test]
fn bare_suffix_resolves_to_empty_stem() {
    let names = vec![".runtimeconfig.json".to_string()];
    assert_eq!(resolve_entry_point(&names).unwrap(), "");
}

#[test]
fn strip_sidecar_suffix_strips_only_sidecars() {
    assert_eq!(
        strip_sidecar_suffix("game.runtimeconfig.json"),
        Some("game".to_string())
    );
    assert_eq!(strip_sidecar_suffix("game.dll"), None);
    assert_eq!(strip_sidecar_suffix("runtimeconfig.json"), None);
}

#[test]
fn error_messages_name_each_failure() {
    assert_eq!(
        BuildError::Io.message(),
        "A filesystem or process operation failed"
    );
    assert_eq!(
        BuildError::CompilerFailed.message(),
        "flatpak-builder exited with an error"
    );
    assert_eq!(
        BuildError::BundlerFailed.message(),
        "flatpak build-bundle exited with an error"
    );
}
