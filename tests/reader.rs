use bevy_file_asset::{AssetReaderError, FailureKind, FileAssetPlugin, FileAssetReader, ReadFailure, Step};

fn not_found_path<E>(r: Result<Vec<u8>, AssetReaderError<E>>) -> Option<String> {
    match r {
        Err(AssetReaderError::NotFound(p)) => Some(p),
        _ => None,
    }
}

#[test]
fn test_file_asset_reader() {
    let path = "assets/hello.txt";
    let on_disk = b"Hello, Bevy!\n".to_vec();
    assert!(matches!(FileAssetReader::read_step(path, true), Step::Proceed(p) if p == path));
    let read = FileAssetReader::finish_read::<&str>(path, Ok(on_disk.clone()));
    let content = match read {
        Ok(bytes) => bytes,
        Err(_) => panic!("Failed to read content"),
    };
    assert_eq!(content, on_disk);
    assert!(String::from_utf8_lossy(&content).contains("Hello, Bevy!"));
}

#[test]
fn test_file_asset_reader_not_found() {
    let step = FileAssetReader::read_step("non_existent_file.txt", false);
    assert!(matches!(step, Step::Missing(p) if p == "non_existent_file.txt"));
}

#[test]
fn read_of_hello_keeps_bytes() {
    let r = FileAssetReader::finish_read::<&str>("hello.txt", Ok(b"Hello!".to_vec()));
    match r {
        Ok(bytes) => assert!(String::from_utf8(bytes).unwrap().contains("Hello!")),
        Err(_) => panic!("expected the bytes"),
    }
}

#[test]
fn read_of_empty_file_gives_no_bytes() {
    let r = FileAssetReader::finish_read::<&str>("empty.bin", Ok(Vec::new()));
    assert!(matches!(r, Ok(b) if b.is_empty()));
}

#[test]
fn vanished_file_is_not_found() {
    let failure = ReadFailure { kind: FailureKind::NotFound, error: "gone" };
    let r = FileAssetReader::finish_read("raced.png", Err(failure));
    assert_eq!(not_found_path(r), Some("raced.png".to_string()));
}

#[test]
fn other_failure_is_io() {
    let failure = ReadFailure { kind: FailureKind::Other, error: "permission denied" };
    let r = FileAssetReader::finish_read("locked.png", Err(failure));
    assert!(matches!(r, Err(AssetReaderError::Io("permission denied"))));
}

#[test]
fn meta_path_adds_suffix_to_extension() {
    assert_eq!(FileAssetReader::make_meta_path("image.png"), Some("image.png.meta".to_string()));
    assert_eq!(
        FileAssetReader::make_meta_path("dir/archive.tar.gz"),
        Some("dir/archive.tar.gz.meta".to_string())
    );
}

#[test]
fn meta_path_of_path_without_extension_is_none() {
    assert_eq!(FileAssetReader::make_meta_path("README"), None);
    assert_eq!(FileAssetReader::make_meta_path(".hidden"), None);
    assert_eq!(FileAssetReader::make_meta_path(""), None);
}

#[test]
fn read_meta_of_png_without_meta_file_is_not_found() {
    let target = FileAssetReader::read_meta_target::<&str>("a.png");
    let meta = match target {
        Ok(m) => m,
        Err(_) => panic!("a.png has an extension"),
    };
    assert_eq!(meta, "a.png.meta");
    let step = FileAssetReader::read_step(&meta, false);
    assert!(matches!(step, Step::Missing(p) if p == "a.png.meta"));
}

#[test]
fn read_meta_with_meta_file_reads_it() {
    let meta = match FileAssetReader::read_meta_target::<&str>("sprites/hero.png") {
        Ok(m) => m,
        Err(_) => panic!("the path has an extension"),
    };
    assert!(matches!(FileAssetReader::read_step(&meta, true), Step::Proceed(p) if p == "sprites/hero.png.meta"));
}

#[test]
fn read_meta_without_extension_is_not_found() {
    let target = FileAssetReader::read_meta_target::<&str>("Makefile");
    assert!(matches!(target, Err(AssetReaderError::NotFound(p)) if p == "source path has no extension"));
}

#[test]
fn listing_skips_unreadable_entries() {
    let entries = vec![None, Some("dir/a.txt".to_string())];
    let r = FileAssetReader::finish_listing::<&str>(Ok(entries));
    assert!(matches!(r, Ok(paths) if paths == vec!["dir/a.txt".to_string()]));
}

#[test]
fn listing_keeps_order_of_readable_entries() {
    let entries = vec![
        Some("d/c".to_string()),
        None,
        Some("d/a".to_string()),
        Some("d/b".to_string()),
        None,
    ];
    let r = FileAssetReader::finish_listing::<&str>(Ok(entries));
    let expected: Vec<String> = vec!["d/c".to_string(), "d/a".to_string(), "d/b".to_string()];
    assert!(matches!(r, Ok(paths) if paths == expected));
}

#[test]
fn listing_of_empty_directory_is_empty() {
    let r = FileAssetReader::finish_listing::<&str>(Ok(Vec::new()));
    assert!(matches!(r, Ok(paths) if paths.is_empty()));
}

#[test]
fn failed_listing_is_io() {
    let r = FileAssetReader::finish_listing(Err("no access"));
    assert!(matches!(r, Err(AssetReaderError::Io("no access"))));
}

#[test]
fn directory_step_follows_probe() {
    assert!(matches!(FileAssetReader::directory_step("assets", true), Step::Proceed(p) if p == "assets"));
    assert!(matches!(FileAssetReader::directory_step("nope", false), Step::Missing(p) if p == "nope"));
}

#[test]
fn plugin_registers_file_scheme() {
    assert_eq!(FileAssetPlugin.scheme(), "file");
    assert_eq!(FileAssetPlugin::default().scheme(), "file");
}
