use std::path::Path;

use rens::file::{Error, File, Name};
use rens::file_name::FileName;
use rens::path_ext::Kind;

const PATHS: [&str; 9] = [
    "./file.txt",
    "./.hidden_file",
    "./.hidden_script.sh",
    "./data",
    "./README",
    "./oups.",
    "./archive.tar.gz",
    "./source_code.rs.",
    "./looking_for_trouble.rs....",
];

#[test]
fn file_matches_fs_file_name() {
    for path in PATHS {
        let name = Name::from_path(path).unwrap();
        assert_eq!(
            name.to_string(),
            Path::new(path).file_name().unwrap().to_string_lossy()
        );
    }
}

#[test]
fn file_name_matches_fs_file_name() {
    for path in PATHS {
        let file_name = FileName::from_path(path).unwrap();
        assert_eq!(
            file_name.to_string(),
            Path::new(path).file_name().unwrap().to_string_lossy()
        );
    }
}

#[test]
fn split_follows_fs_conventions() {
    for path in PATHS {
        let name = Name::from_path(path).unwrap();
        let std_path = Path::new(path);
        assert_eq!(
            name.stem().as_str(),
            std_path.file_stem().unwrap().to_string_lossy()
        );
        assert_eq!(
            name.extension().as_deref().map(|e| e.to_string()),
            std_path
                .extension()
                .map(|e| e.to_string_lossy().to_string())
        );
    }
}

#[test]
fn from_name_splits_at_last_dot() {
    let name = Name::from_name("archive.tar.gz");
    assert_eq!(name.stem().as_str(), "archive.tar");
    assert_eq!(name.extension().as_deref(), Some("gz"));

    let hidden = Name::from_name(".hidden");
    assert_eq!(hidden.stem().as_str(), ".hidden");
    assert!(hidden.extension().is_none());

    let plain = Name::from_name("README");
    assert_eq!(plain.stem().as_str(), "README");
    assert!(plain.extension().is_none());
}

#[test]
fn from_path_without_component_fails() {
    assert!(matches!(
        Name::from_path(".."),
        Err(Error::NoFileStem(p)) if p == ".."
    ));
    assert!(matches!(Name::from_path("."), Err(Error::NoFileStem(_))));
    assert!(matches!(Name::from_path("/"), Err(Error::NoFileStem(_))));
    assert!(matches!(
        FileName::from_path(".."),
        Err(rens::file_name::Error::NoFileStem)
    ));
}

#[test]
fn file_from_path_records_parts() {
    let file = File::from_path("./dir/file.txt", Kind::File).unwrap();
    assert_eq!(file.parent().as_str(), "./dir");
    assert_eq!(file.name().stem().as_str(), "file");
    assert_eq!(file.name().extension().as_deref(), Some("txt"));
    assert_eq!(file.kind(), Kind::File);
    assert_eq!(file.path().as_str(), "./dir/file.txt");
}

#[test]
fn file_from_path_without_parent_fails() {
    assert!(matches!(
        File::from_path("/", Kind::Directory),
        Err(Error::NoParent(p)) if p == "/"
    ));
    assert!(matches!(
        File::from_path("", Kind::File),
        Err(Error::NoParent(_))
    ));
}

#[test]
fn bare_name_has_empty_parent() {
    let file = File::from_path("file.txt", Kind::File).unwrap();
    assert_eq!(file.parent().as_str(), "");
    assert_eq!(file.path().as_str(), "file.txt");
}
