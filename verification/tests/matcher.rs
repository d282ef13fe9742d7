use secret_redeploy::matcher::{
    environment, is_affected, volume, DEFAULT_MOUNT_FOLLOWS_LATEST, LATEST,
};
use secret_redeploy::service::{
    Container, EnvSecretRef, EnvVar, RevisionTemplate, ServiceSpec, Volume, VolumeItem,
    VolumeSecretRef,
};

fn plain_env(name: &str) -> EnvVar {
    EnvVar { name: name.to_string(), secret_ref: None }
}

fn secret_env(name: &str, secret: &str, version: &str) -> EnvVar {
    EnvVar {
        name: name.to_string(),
        secret_ref: Some(EnvSecretRef { secret: secret.to_string(), version: version.to_string() }),
    }
}

fn secret_volume(secret: &str, versions: &[&str]) -> Volume {
    Volume {
        name: "mount".to_string(),
        secret: Some(VolumeSecretRef {
            secret: secret.to_string(),
            items: versions
                .iter()
                .map(|v| VolumeItem { path: format!("file-{}", v), version: v.to_string() })
                .collect(),
        }),
    }
}

fn other_volume() -> Volume {
    Volume { name: "scratch".to_string(), secret: None }
}

fn service(containers: Vec<Vec<EnvVar>>, volumes: Vec<Volume>) -> ServiceSpec {
    ServiceSpec {
        name: "projects/p/locations/l/services/s".to_string(),
        template: Some(RevisionTemplate {
            revision: "s-00001-abc".to_string(),
            containers: containers.into_iter().map(|env| Container { env }).collect(),
            volumes,
        }),
    }
}

#[test]
fn latest_is_the_word_latest() {
    assert_eq!(LATEST, "latest");
    assert!(DEFAULT_MOUNT_FOLLOWS_LATEST);
}

#[test]
fn service_without_template_is_unaffected() {
    let s = ServiceSpec { name: "s".to_string(), template: None };
    assert!(!environment(&s, "db-password"));
    assert!(!volume(&s, "db-password"));
    assert!(!is_affected(&s, "db-password"));
}

#[test]
fn service_without_containers_and_volumes_is_unaffected() {
    let s = service(vec![], vec![]);
    assert!(!environment(&s, "db-password"));
    assert!(!volume(&s, "db-password"));
    assert!(!is_affected(&s, "db-password"));
}

#[test]
fn container_without_environment_is_unaffected() {
    let s = service(vec![vec![], vec![]], vec![]);
    assert!(!is_affected(&s, "db-password"));
}

#[test]
fn env_at_latest_is_followed() {
    let s = service(vec![vec![secret_env("PASSWORD", "db-password", "latest")]], vec![]);
    assert!(environment(&s, "db-password"));
    assert!(!volume(&s, "db-password"));
    assert!(is_affected(&s, "db-password"));
}

#[test]
fn env_at_pinned_version_is_not_followed() {
    let s = service(vec![vec![secret_env("PASSWORD", "db-password", "5")]], vec![]);
    assert!(!environment(&s, "db-password"));
    assert!(!is_affected(&s, "db-password"));
}

#[test]
fn env_of_another_secret_is_not_followed() {
    let s = service(vec![vec![secret_env("PASSWORD", "api-key", "latest")]], vec![]);
    assert!(!environment(&s, "db-password"));
    assert!(environment(&s, "api-key"));
}

#[test]
fn env_with_plain_value_is_not_followed() {
    let s = service(vec![vec![plain_env("db-password"), plain_env("latest")]], vec![]);
    assert!(!is_affected(&s, "db-password"));
}

#[test]
fn env_is_found_in_any_container_at_any_place() {
    let s = service(
        vec![
            vec![plain_env("A"), secret_env("B", "api-key", "latest")],
            vec![],
            vec![secret_env("C", "db-password", "3"), plain_env("D"), secret_env("E", "db-password", "latest")],
        ],
        vec![],
    );
    assert!(environment(&s, "db-password"));
    assert!(environment(&s, "api-key"));
    assert!(!environment(&s, "other"));
}

#[test]
fn env_needs_the_exact_name() {
    let s = service(
        vec![vec![secret_env("PASSWORD", "projects/123/secrets/db-password", "latest")]],
        vec![],
    );
    assert!(!environment(&s, "db-password"));
    assert!(!is_affected(&s, "db-password"));
    assert!(environment(&s, "projects/123/secrets/db-password"));
    let s = service(vec![vec![secret_env("PASSWORD", "db-password", "latest")]], vec![]);
    assert!(!environment(&s, "db-passwor"));
    assert!(!environment(&s, "db-password2"));
    assert!(!environment(&s, "DB-PASSWORD"));
}

#[test]
fn env_version_must_be_the_word_latest() {
    for version in ["", "Latest", "latest ", "LATEST", "1", "late"] {
        let s = service(vec![vec![secret_env("PASSWORD", "db-password", version)]], vec![]);
        assert!(!environment(&s, "db-password"), "version {:?}", version);
    }
}

#[test]
fn volume_with_bare_name_is_followed() {
    let s = service(vec![], vec![secret_volume("db-password", &[])]);
    assert!(volume(&s, "db-password"));
    assert!(!environment(&s, "db-password"));
    assert!(is_affected(&s, "db-password"));
}

#[test]
fn volume_with_path_is_followed() {
    let s = service(vec![], vec![secret_volume("projects/123/secrets/db-password", &[])]);
    assert!(volume(&s, "db-password"));
    assert!(is_affected(&s, "db-password"));
    assert!(volume(&s, "projects/123/secrets/db-password"));
    assert!(!volume(&s, "secrets/db-password"));
    assert!(!volume(&s, "password"));
    assert!(!volume(&s, "123"));
}

#[test]
fn volume_path_must_end_in_the_name() {
    let s = service(vec![], vec![secret_volume("projects/123/secrets/db-password/", &[])]);
    assert!(!volume(&s, "db-password"));
    assert!(volume(&s, ""));
    let s = service(vec![], vec![secret_volume("projects/123/secrets/my-db-password", &[])]);
    assert!(!volume(&s, "db-password"));
}

#[test]
fn volume_without_items_follows_latest() {
    let s = service(vec![], vec![secret_volume("db-password", &[])]);
    assert!(volume(&s, "db-password"));
}

#[test]
fn volume_with_a_latest_item_is_followed() {
    let s = service(vec![], vec![secret_volume("db-password", &["3", "latest", "4"])]);
    assert!(volume(&s, "db-password"));
    let s = service(vec![], vec![secret_volume("db-password", &["latest"])]);
    assert!(volume(&s, "db-password"));
}

#[test]
fn volume_with_pinned_items_only_is_not_followed() {
    let s = service(vec![], vec![secret_volume("db-password", &["3", "4"])]);
    assert!(!volume(&s, "db-password"));
    assert!(!is_affected(&s, "db-password"));
    let s = service(vec![], vec![secret_volume("projects/1/secrets/db-password", &["1"])]);
    assert!(!volume(&s, "db-password"));
}

#[test]
fn volume_of_another_kind_is_not_followed() {
    let s = service(vec![], vec![other_volume()]);
    assert!(!volume(&s, "db-password"));
    assert!(!volume(&s, "scratch"));
}

#[test]
fn volume_is_found_at_any_place() {
    let s = service(
        vec![],
        vec![other_volume(), secret_volume("api-key", &["1"]), secret_volume("db-password", &[])],
    );
    assert!(volume(&s, "db-password"));
    assert!(!volume(&s, "api-key"));
}

#[test]
fn affected_by_environment_or_by_volume() {
    let both = service(
        vec![vec![secret_env("PASSWORD", "db-password", "latest")]],
        vec![secret_volume("db-password", &[])],
    );
    assert!(is_affected(&both, "db-password"));
    let env_only = service(
        vec![vec![secret_env("PASSWORD", "db-password", "latest")]],
        vec![secret_volume("db-password", &["1"])],
    );
    assert!(is_affected(&env_only, "db-password"));
    let volume_only = service(
        vec![vec![secret_env("PASSWORD", "db-password", "1")]],
        vec![secret_volume("db-password", &["latest"])],
    );
    assert!(is_affected(&volume_only, "db-password"));
    let neither = service(
        vec![vec![secret_env("PASSWORD", "db-password", "1")]],
        vec![secret_volume("db-password", &["1"])],
    );
    assert!(!is_affected(&neither, "db-password"));
}

#[test]
fn matching_leaves_the_service_as_it_is() {
    let s = service(
        vec![vec![secret_env("PASSWORD", "db-password", "latest")]],
        vec![secret_volume("db-password", &[])],
    );
    let before = s.clone();
    let _ = is_affected(&s, "db-password");
    assert_eq!(s, before);
}
