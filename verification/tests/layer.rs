use api_version::{is_valid_base_path, ApiVersionLayer, ApiVersions, Routing, XApiVersion};

fn versions() -> ApiVersions<2> {
    ApiVersions::new([0, 1]).unwrap()
}

#[test]
fn a_base_path_begins_with_a_slash() {
    assert!(is_valid_base_path("/api"));
    assert!(is_valid_base_path("/api/"));
    assert!(is_valid_base_path("/api///"));
    assert!(is_valid_base_path("/a/b"));
    assert!(is_valid_base_path("//a"));

    assert!(!is_valid_base_path(""));
    assert!(!is_valid_base_path("/"));
    assert!(!is_valid_base_path("//"));
    assert!(!is_valid_base_path("api"));
    assert!(!is_valid_base_path("api/"));
    assert!(!is_valid_base_path(" /api"));
}

#[test]
fn slashes_at_the_end_of_the_base_path_are_dropped() {
    assert_eq!(ApiVersionLayer::new("/api", versions()).base_path(), Some("/api"));
    assert_eq!(ApiVersionLayer::new("/api/", versions()).base_path(), Some("/api"));
    assert_eq!(ApiVersionLayer::new("/api//", versions()).base_path(), Some("/api"));
    assert_eq!(ApiVersionLayer::new("/a/b/", versions()).base_path(), Some("/a/b"));
    assert_eq!(ApiVersionLayer::new("//a//", versions()).base_path(), Some("//a"));
    assert_eq!(ApiVersionLayer::filtered(versions()).base_path(), None);

    let service = ApiVersionLayer::new("/api/", versions()).layer(());
    assert_eq!(
        service.route("/api/test", None, Ok(true)),
        Routing::Rewrite("/api/v1/test".to_string())
    );
}

#[test]
fn a_layer_keeps_its_versions() {
    let layer = ApiVersionLayer::new("/api", versions());
    assert_eq!(*layer.versions(), versions());
    assert_eq!(*layer.clone().versions(), versions());
    assert_eq!(layer.clone().base_path(), Some("/api"));
}

#[test]
fn a_service_is_wrapped_around_the_next_stage() {
    let layer = ApiVersionLayer::new("/api", versions());
    let mut service = layer.layer(vec![1, 2, 3]);
    assert_eq!(service.inner(), &vec![1, 2, 3]);
    service.inner_mut().push(4);
    assert_eq!(service.inner(), &vec![1, 2, 3, 4]);

    let copy = service.clone();
    assert_eq!(copy.inner(), &vec![1, 2, 3, 4]);
    assert_eq!(
        copy.route("/api/test", XApiVersion::decode(Some("v0")).ok(), Ok(true)),
        Routing::Rewrite("/api/v0/test".to_string())
    );
    assert_eq!(service.into_inner(), vec![1, 2, 3, 4]);
}
