use just_extract::Extension;

#[test]
fn zip_in_any_case_is_zip() {
    for ext in ["zip", "Zip", "ZIP", "zIp"] {
        assert_eq!(Extension::from_extension(ext), Extension::Zip);
    }
    assert_eq!(Extension::from_path("/data/archive.ZiP"), Extension::Zip);
}

#[test]
fn msi_in_any_case_is_msi() {
    for ext in ["msi", "Msi", "MSI", "mSi"] {
        assert_eq!(Extension::from_extension(ext), Extension::Msi);
    }
    assert_eq!(Extension::from_path("setup.MSI"), Extension::Msi);
}

#[test]
fn lowercase_family_is_seven_zip_family() {
    let family = [
        "gz", "tar", "tgz", "lzma", "bz", "bz2", "7z", "rar", "iso", "xz", "lzh", "nupkg",
    ];
    for ext in family {
        assert_eq!(Extension::from_extension(ext), Extension::SevenZipFamily);
        let path = format!("dir/file.{}", ext);
        assert_eq!(Extension::from_path(&path), Extension::SevenZipFamily);
    }
}

#[test]
fn uppercase_family_is_unsupported() {
    let family = [
        "GZ", "TAR", "TGZ", "LZMA", "BZ", "BZ2", "7Z", "RAR", "ISO", "XZ", "LZH", "NUPKG",
    ];
    for ext in family {
        assert_eq!(
            Extension::from_extension(ext),
            Extension::Unsupported(ext.to_string())
        );
    }
    assert_eq!(
        Extension::from_extension("Tar"),
        Extension::Unsupported("Tar".to_string())
    );
}

#[test]
fn no_extension_is_unknown() {
    assert_eq!(Extension::from_path("archivefile"), Extension::Unknown);
    assert_eq!(Extension::from_path("/tmp/out"), Extension::Unknown);
    assert_eq!(Extension::from_path(".hidden"), Extension::Unknown);
    assert_eq!(Extension::from_path(""), Extension::Unknown);
}

#[test]
fn unrecognized_extension_is_unsupported() {
    assert_eq!(
        Extension::from_path("archive.foo"),
        Extension::Unsupported("foo".to_string())
    );
    assert_eq!(
        Extension::from_path("archive.FoO"),
        Extension::Unsupported("FoO".to_string())
    );
}

#[test]
fn only_final_extension_counts() {
    assert_eq!(Extension::from_path("backup.tar.gz"), Extension::SevenZipFamily);
    assert_eq!(
        Extension::from_path("backup.zip.bak"),
        Extension::Unsupported("bak".to_string())
    );
}

#[test]
fn classification_uses_lowered_form_given() {
    assert_eq!(Extension::from_lowered("ZIP", "zip"), Extension::Zip);
    assert_eq!(Extension::from_lowered("MSI", "msi"), Extension::Msi);
    assert_eq!(
        Extension::from_lowered("TAR", "tar"),
        Extension::Unsupported("TAR".to_string())
    );
    assert_eq!(Extension::from_lowered("tar", "tar"), Extension::SevenZipFamily);
    assert_eq!(
        Extension::from_lowered("zip", "other"),
        Extension::Unsupported("zip".to_string())
    );
}
