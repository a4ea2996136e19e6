use confboot::{DirProbe, EnvRequest, EnvResolution, EnvResolver, SecretsProbe};

fn chain(dirs: &[&str]) -> Vec<String> {
    dirs.iter().map(|d| d.to_string()).collect()
}

#[test]
fn walk_finds_the_env_file_up_the_chain() {
    // a `.env` file exists only at /a; the walk starts at /a/b/c
    let mut resolver = EnvResolver::new(None, chain(&["/a/b/c", "/a/b", "/a", "/"]));
    assert_eq!(
        resolver.next_request(),
        EnvRequest::ProbeDir { dir: "/a/b/c".to_string() }
    );
    resolver.on_dir_probe(DirProbe::Missing);
    assert_eq!(
        resolver.next_request(),
        EnvRequest::ProbeDir { dir: "/a/b".to_string() }
    );
    resolver.on_dir_probe(DirProbe::Missing);
    assert_eq!(
        resolver.next_request(),
        EnvRequest::ProbeDir { dir: "/a".to_string() }
    );
    resolver.on_dir_probe(DirProbe::Loaded);
    assert_eq!(resolver.next_request(), EnvRequest::Finished);
    assert_eq!(
        resolver.outcome,
        Some(EnvResolution::Found { dir: "/a".to_string() })
    );
}

#[test]
fn walk_without_env_anywhere_is_not_an_error() {
    let mut resolver = EnvResolver::new(None, chain(&["/a/b/c", "/a/b", "/a", "/"]));
    for _ in 0..4 {
        match resolver.next_request() {
            EnvRequest::ProbeDir { .. } => resolver.on_dir_probe(DirProbe::Missing),
            other => panic!("expected a directory probe, got {:?}", other),
        }
    }
    assert_eq!(resolver.next_request(), EnvRequest::Finished);
    assert_eq!(resolver.outcome, Some(EnvResolution::NotFound));
}

#[test]
fn secrets_file_short_circuits_the_walk() {
    // with NOMAD_SECRETS_DIR=/secrets and a loadable /secrets/.env, the walk
    // directories are never probed
    let mut resolver = EnvResolver::new(Some("/secrets".to_string()), chain(&["/work", "/"]));
    assert_eq!(
        resolver.next_request(),
        EnvRequest::ProbeSecrets { dir: "/secrets".to_string() }
    );
    resolver.on_secrets_probe(SecretsProbe::Loaded);
    // the search is over before any walk directory was asked for
    assert_eq!(resolver.next_request(), EnvRequest::Finished);
    assert_eq!(
        resolver.outcome,
        Some(EnvResolution::Found { dir: "/secrets".to_string() })
    );
}

#[test]
fn missing_secrets_file_falls_back_to_the_walk() {
    let mut resolver = EnvResolver::new(Some("/secrets".to_string()), chain(&["/work", "/"]));
    resolver.on_secrets_probe(SecretsProbe::Missing);
    assert_eq!(
        resolver.next_request(),
        EnvRequest::ProbeDir { dir: "/work".to_string() }
    );
}

#[test]
fn unreadable_secrets_file_is_downgraded_to_the_walk() {
    let mut resolver = EnvResolver::new(Some("/secrets".to_string()), chain(&["/work", "/"]));
    resolver.on_secrets_probe(SecretsProbe::PermissionDenied);
    assert_eq!(
        resolver.next_request(),
        EnvRequest::ProbeDir { dir: "/work".to_string() }
    );
    resolver.on_dir_probe(DirProbe::Loaded);
    assert_eq!(
        resolver.outcome,
        Some(EnvResolution::Found { dir: "/work".to_string() })
    );
}

#[test]
fn failing_secrets_file_is_fatal() {
    let mut resolver = EnvResolver::new(Some("/secrets".to_string()), chain(&["/work", "/"]));
    resolver.on_secrets_probe(SecretsProbe::LoadFailed { message: "bad line".to_string() });
    assert_eq!(resolver.next_request(), EnvRequest::Finished);
    assert_eq!(
        resolver.outcome,
        Some(EnvResolution::Failed {
            dir: "/secrets".to_string(),
            message: "bad line".to_string(),
        })
    );
}

#[test]
fn failing_walk_file_is_fatal() {
    let mut resolver = EnvResolver::new(None, chain(&["/work", "/"]));
    resolver.on_dir_probe(DirProbe::LoadFailed { message: "bad line".to_string() });
    assert_eq!(
        resolver.outcome,
        Some(EnvResolution::Failed {
            dir: "/work".to_string(),
            message: "bad line".to_string(),
        })
    );
}
