use std::io::Write;

use unarchive::descriptor::ArchiveDescriptor;
use unarchive::errors::InstallError;
use unarchive::ops::FsOp;
use unarchive::zip_extract::extract_zip;

fn descriptor() -> ArchiveDescriptor {
    ArchiveDescriptor {
        storage_directory: "/inst".to_string(),
        base_name: "v0.9.0".to_string(),
        format_extension: "zip".to_string(),
    }
}

/// Entries: `(name, None)` is a directory, `(name, Some(bytes))` a stored file.
fn build_zip(entries: &[(&str, Option<&[u8]>)]) -> Vec<u8> {
    let mut w = zip::ZipWriter::new(std::io::Cursor::new(Vec::new()));
    let opts = zip::write::SimpleFileOptions::default()
        .compression_method(zip::CompressionMethod::Stored);
    for (name, data) in entries {
        match data {
            None => {
                w.add_directory(*name, opts).unwrap();
            }
            Some(bytes) => {
                w.start_file(*name, opts).unwrap();
                w.write_all(bytes).unwrap();
            }
        }
    }
    w.finish().unwrap().into_inner()
}

#[test]
fn zip_valid_plan_lists_every_entry() {
    let bytes = build_zip(&[
        ("bin/", None),
        ("bin/app", Some(b"#!app")),
        ("README", Some(b"hi")),
    ]);
    let d = descriptor();
    let out = extract_zip(&d, &bytes).unwrap();
    let expected = vec![
        FsOp::RemoveDirAllIfExists("/inst/v0.9.0".to_string()),
        FsOp::CreateDir("/inst/v0.9.0".to_string()),
        FsOp::CreateDirAll("/inst/v0.9.0/bin/".to_string()),
        FsOp::CreateDirAll("/inst/v0.9.0/bin".to_string()),
        FsOp::WriteFile("/inst/v0.9.0/bin/app".to_string(), b"#!app".to_vec()),
        FsOp::CreateDirAll("/inst/v0.9.0".to_string()),
        FsOp::WriteFile("/inst/v0.9.0/README".to_string(), b"hi".to_vec()),
    ];
    assert_eq!(out.ops, expected);
    assert_eq!(out.total, 3);
    assert_eq!(out.progress, vec![1, 2, 3]);
}

#[test]
fn zip_progress_is_monotone_bounded_and_complete() {
    let bytes = build_zip(&[
        ("a", Some(b"1")),
        ("b", Some(b"2")),
        ("c", Some(b"3")),
        ("d", Some(b"4")),
    ]);
    let out = extract_zip(&descriptor(), &bytes).unwrap();
    assert_eq!(out.progress.len() as u64, out.total);
    let mut prev = 0u64;
    for &p in &out.progress {
        assert!(p >= prev);
        assert!(p <= out.total);
        prev = p;
    }
    assert_eq!(*out.progress.last().unwrap(), out.total);
}

#[test]
fn zip_unopenable_container_is_reported() {
    let bytes = b"this is not a zip container".to_vec();
    let r = extract_zip(&descriptor(), &bytes);
    assert_eq!(r.unwrap_err(), InstallError::ZipContainer);
}

#[test]
fn zip_corrupt_entry_aborts_extraction() {
    let marker: &[u8] = b"CORRUPTION-MARKER-0123456789-PAYLOAD";
    let mut bytes = build_zip(&[
        ("good.txt", Some(b"fine")),
        ("bad.txt", Some(marker)),
        ("later.txt", Some(b"never reached")),
    ]);
    // Stored entries keep their bytes verbatim: flip one byte in the middle of
    // the marked payload so its checksum no longer matches.
    let pos = bytes
        .windows(marker.len())
        .position(|w| w == marker)
        .unwrap();
    bytes[pos + marker.len() / 2] ^= 0xFF;
    let r = extract_zip(&descriptor(), &bytes);
    assert_eq!(r.unwrap_err(), InstallError::ZipEntry);
}

#[test]
fn zip_deflated_entry_round_trips() {
    let payload: Vec<u8> = b"0123456789abcdef".repeat(200);
    let mut w = zip::ZipWriter::new(std::io::Cursor::new(Vec::new()));
    let opts = zip::write::SimpleFileOptions::default()
        .compression_method(zip::CompressionMethod::Deflated);
    w.start_file("data.bin", opts).unwrap();
    w.write_all(&payload).unwrap();
    let bytes = w.finish().unwrap().into_inner();
    // The container is smaller than the payload, so the plan's contents can
    // only come from real decompression.
    assert!(bytes.len() < payload.len());
    let out = extract_zip(&descriptor(), &bytes).unwrap();
    let path = "/inst/v0.9.0/data.bin".to_string();
    assert!(out
        .ops
        .iter()
        .any(|op| matches!(op, FsOp::WriteFile(p, data) if *p == path && *data == payload)));
}

#[test]
fn zip_empty_container_plans_only_the_directory() {
    let bytes = build_zip(&[]);
    let d = descriptor();
    let out = extract_zip(&d, &bytes).unwrap();
    assert_eq!(
        out.ops,
        vec![
            FsOp::RemoveDirAllIfExists("/inst/v0.9.0".to_string()),
            FsOp::CreateDir("/inst/v0.9.0".to_string()),
        ]
    );
    assert_eq!(out.total, 0);
    assert!(out.progress.is_empty());
}
