use droidnode::brokers::filesystem_broker::{available_space, FilesystemBrokerImpl, SpaceReading};
use droidnode::error::DroidError;
use droidnode::models::Digest;

#[test]
fn each_layer_has_a_directory() {
    let files = FilesystemBrokerImpl::new("/data/layers".to_string());
    assert_eq!(files.layer_path(&Digest::new("sha256:ab")), "/data/layers/sha256-ab");
    assert_ne!(
        files.layer_path(&Digest::new("sha256:ab")),
        files.layer_path(&Digest::new("sha256:ac"))
    );
}

#[test]
fn free_space_is_counted_in_bytes() {
    let blocks = SpaceReading::Blocks { available: 3, size: 4096 };
    assert_eq!(available_space(blocks).unwrap(), 12288);
    match available_space(SpaceReading::Failed("gone".to_string())) {
        Err(DroidError::Filesystem(m)) => assert_eq!(m, "gone"),
        other => panic!("{other:?}"),
    }
}
