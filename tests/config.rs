use bsdeploy::config::DataDirectory;

#[test]
fn test_data_directory_simple() {
    let dir = DataDirectory::Simple("/var/data".to_string());
    let (host, jail) = dir.get_paths();
    assert_eq!(host, "/var/data");
    assert_eq!(jail, "/var/data");
}

#[test]
fn test_data_directory_mapping() {
    let map = vec![("/host/path".to_string(), "/jail/path".to_string())];
    let dir = DataDirectory::Mapping(map);
    let (host, jail) = dir.get_paths();
    assert_eq!(host, "/host/path");
    assert_eq!(jail, "/jail/path");
}

#[test]
fn test_data_directory_empty_mapping() {
    let dir = DataDirectory::Mapping(Vec::new());
    let (host, jail) = dir.get_paths();
    assert_eq!(host, "");
    assert_eq!(jail, "");
}
