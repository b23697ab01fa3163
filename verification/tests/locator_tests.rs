use sidecar_core::errors::AppError;
use sidecar_core::locator::{candidate_paths, resolve};

fn sample_candidates() -> Vec<String> {
    candidate_paths(
        "google_auth",
        "x86_64-unknown-linux-gnu",
        Some("/opt/app/resources"),
        "/home/dev/project",
    )
}

#[test]
fn candidates_with_resource_root_in_priority_order() {
    let c = sample_candidates();
    assert_eq!(
        c,
        vec![
            "/opt/app/resources/google_auth".to_string(),
            "/opt/app/resources/binaries/google_auth-x86_64-unknown-linux-gnu".to_string(),
            "/opt/app/resources/binaries/google_auth".to_string(),
            "/home/dev/project/binaries/google_auth-x86_64-unknown-linux-gnu".to_string(),
            "/home/dev/project/binaries/google_auth".to_string(),
        ]
    );
}

#[test]
fn candidates_without_resource_root_are_dev_tree_only() {
    let c = candidate_paths("json_processor", "aarch64-apple-darwin", None, "/src/tree");
    assert_eq!(
        c,
        vec![
            "/src/tree/binaries/json_processor-aarch64-apple-darwin".to_string(),
            "/src/tree/binaries/json_processor".to_string(),
        ]
    );
}

#[test]
fn resolution_returns_exactly_the_nth_existing_candidate() {
    let c = sample_candidates();
    for n in 0..c.len() {
        let mut present = vec![false; c.len()];
        present[n] = true;
        let r = resolve("google_auth", &c, &present);
        assert_eq!(r.unwrap(), c[n]);
    }
}

#[test]
fn resolution_prefers_the_earliest_existing_candidate() {
    let c = sample_candidates();
    let present = vec![false, true, false, true, true];
    let r = resolve("google_auth", &c, &present);
    assert_eq!(r.unwrap(), c[1]);
}

#[test]
fn resolution_with_no_existing_candidate_fails_not_found() {
    let c = sample_candidates();
    let present = vec![false; c.len()];
    let e = resolve("google_auth", &c, &present).unwrap_err();
    assert_eq!(
        e,
        AppError::SidecarNotFound {
            name: "google_auth".to_string()
        }
    );
    assert_eq!(
        e.message(),
        "Sidecar not found: google_auth (checked resource and dev paths)"
    );
}

#[test]
fn resolution_never_returns_a_path_whose_probe_failed() {
    let c = sample_candidates();
    let present = vec![false, false, true, false, true];
    let p = resolve("google_auth", &c, &present).unwrap();
    let flagged: Vec<&String> = c
        .iter()
        .zip(present.iter())
        .filter(|(_, ok)| **ok)
        .map(|(path, _)| path)
        .collect();
    assert!(flagged.contains(&&p));
}

#[test]
fn resolution_of_empty_candidate_list_fails() {
    let c: Vec<String> = Vec::new();
    let present: Vec<bool> = Vec::new();
    let e = resolve("missing", &c, &present).unwrap_err();
    assert!(matches!(e, AppError::SidecarNotFound { .. }));
}
