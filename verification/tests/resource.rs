use secret_redeploy::error::DecodeError;
use secret_redeploy::resource::{
    SecretIdentifier, MIN_SEGMENTS, PROJECT_SEGMENT, SECRET_SEGMENT,
};

fn parsed(resource: &str) -> SecretIdentifier {
    match SecretIdentifier::parse(resource) {
        Ok(id) => id,
        Err(e) => panic!("{:?} was refused: {:?}", resource, e),
    }
}

#[test]
fn resource_name_gives_project_and_secret() {
    let id = parsed("projects/123/secrets/my-secret/versions/5");
    assert_eq!(id.project, "123");
    assert_eq!(id.secret_name, "my-secret");
}

#[test]
fn resource_name_is_read_by_position() {
    let id = parsed("a/b/c/d");
    assert_eq!(id.project, "b");
    assert_eq!(id.secret_name, "d");
    assert_eq!(PROJECT_SEGMENT, 1);
    assert_eq!(SECRET_SEGMENT, 3);
    assert_eq!(MIN_SEGMENTS, 4);
}

#[test]
fn resource_name_without_version_is_read() {
    let id = parsed("projects/p/secrets/s");
    assert_eq!(
        id,
        SecretIdentifier { project: "p".to_string(), secret_name: "s".to_string() }
    );
}

#[test]
fn resource_name_with_more_segments_is_read() {
    let id = parsed("projects/p/secrets/s/versions/7/extra/more");
    assert_eq!(id.project, "p");
    assert_eq!(id.secret_name, "s");
}

#[test]
fn empty_segments_count() {
    let id = parsed("///");
    assert_eq!(id.project, "");
    assert_eq!(id.secret_name, "");
    let id = parsed("projects//secrets/s/");
    assert_eq!(id.project, "");
    assert_eq!(id.secret_name, "s");
}

#[test]
fn short_resource_name_is_refused() {
    assert_eq!(
        SecretIdentifier::parse("projects/123/secrets"),
        Err(DecodeError::InvalidResourceName)
    );
    assert_eq!(SecretIdentifier::parse("projects/123"), Err(DecodeError::InvalidResourceName));
    assert_eq!(SecretIdentifier::parse("projects"), Err(DecodeError::InvalidResourceName));
    assert_eq!(SecretIdentifier::parse(""), Err(DecodeError::InvalidResourceName));
    assert_eq!(SecretIdentifier::parse("//"), Err(DecodeError::InvalidResourceName));
}

#[test]
fn resource_name_beyond_ascii_is_read_by_characters() {
    let id = parsed("projets/éte/secrets/clé-ß/versions/1");
    assert_eq!(id.project, "éte");
    assert_eq!(id.secret_name, "clé-ß");
}
