use std::collections::BTreeMap;
use std::io::Write;

use unarchive::descriptor::ArchiveDescriptor;
use unarchive::install::{install_plan, Platform};
use unarchive::ops::FsOp;

#[derive(Clone, Debug, PartialEq, Eq)]
enum Node {
    Dir,
    File { data: Vec<u8>, exec: bool },
}

type MockFs = BTreeMap<String, Node>;

fn norm(p: &str) -> String {
    let t = p.trim_end_matches('/');
    t.to_string()
}

fn insert_dir_all(fs: &mut MockFs, p: &str) {
    let p = norm(p);
    if p.is_empty() {
        return;
    }
    for (idx, ch) in p.char_indices() {
        if ch == '/' && idx > 0 {
            fs.entry(p[..idx].to_string()).or_insert(Node::Dir);
        }
    }
    fs.entry(p).or_insert(Node::Dir);
}

fn remove_tree(fs: &mut MockFs, p: &str) {
    let p = norm(p);
    let prefix = format!("{}/", p);
    let doomed: Vec<String> = fs
        .keys()
        .filter(|k| **k == p || k.starts_with(&prefix))
        .cloned()
        .collect();
    for k in doomed {
        fs.remove(&k);
    }
}

/// Simulates what the self-mounting image deposits beside itself when run
/// with its extraction flag.
fn deposit_extraction_output(fs: &mut MockFs, storage: &str) {
    let root = format!("{}/squashfs-root", storage);
    insert_dir_all(fs, &root);
    for name in ["AppRun", "nvim.desktop", "nvim.png"] {
        fs.insert(
            format!("{}/{}", root, name),
            Node::File { data: b"artifact".to_vec(), exec: false },
        );
    }
    insert_dir_all(fs, &format!("{}/usr/bin", root));
    fs.insert(
        format!("{}/usr/bin/nvim", root),
        Node::File { data: b"payload".to_vec(), exec: true },
    );
}

fn apply(fs: &mut MockFs, op: &FsOp) -> Result<(), String> {
    match op {
        FsOp::RemoveDirAllIfExists(p) => {
            remove_tree(fs, p);
            Ok(())
        }
        FsOp::CreateDir(p) => {
            let p = norm(p);
            if fs.contains_key(&p) {
                return Err(format!("create_dir: {} already exists", p));
            }
            fs.insert(p, Node::Dir);
            Ok(())
        }
        FsOp::CreateDirAll(p) => {
            insert_dir_all(fs, p);
            Ok(())
        }
        FsOp::WriteFile(p, data) => {
            let p = norm(p);
            if let Some(idx) = p.rfind('/') {
                let parent = &p[..idx];
                if !parent.is_empty() && fs.get(parent) != Some(&Node::Dir) {
                    return Err(format!("write: parent of {} is missing", p));
                }
            }
            fs.insert(p, Node::File { data: data.clone(), exec: false });
            Ok(())
        }
        FsOp::RemoveFile(p) => {
            let p = norm(p);
            match fs.get(&p) {
                Some(Node::File { .. }) => {
                    fs.remove(&p);
                    Ok(())
                }
                _ => Err(format!("remove_file: {} is not a file", p)),
            }
        }
        FsOp::Rename(from, to) => {
            let from = norm(from);
            let to = norm(to);
            if !fs.contains_key(&from) {
                return Err(format!("rename: {} is missing", from));
            }
            remove_tree(fs, &to);
            let prefix = format!("{}/", from);
            let moved: Vec<(String, Node)> = fs
                .iter()
                .filter(|(k, _)| **k == from || k.starts_with(&prefix))
                .map(|(k, v)| (k.clone(), v.clone()))
                .collect();
            for (k, _) in &moved {
                fs.remove(k);
            }
            for (k, v) in moved {
                let tail = &k[from.len()..];
                fs.insert(format!("{}{}", to, tail), v);
            }
            Ok(())
        }
        FsOp::RenameIfExists(from, to) => {
            if fs.contains_key(&norm(from)) {
                apply(fs, &FsOp::Rename(from.clone(), to.clone()))
            } else {
                Ok(())
            }
        }
        FsOp::SetExecPerms(p) => {
            let p = norm(p);
            match fs.get_mut(&p) {
                Some(Node::File { exec, .. }) => {
                    *exec = true;
                    Ok(())
                }
                _ => Err(format!("set_perms: {} is not a file", p)),
            }
        }
        FsOp::RunSelfExtract(p) => {
            let p = norm(p);
            if !matches!(fs.get(&p), Some(Node::File { .. })) {
                return Err(format!("run: {} is not a file", p));
            }
            let storage = p[..p.rfind('/').unwrap()].to_string();
            deposit_extraction_output(fs, &storage);
            Ok(())
        }
    }
}

fn run_plan(fs: &mut MockFs, ops: &[FsOp]) -> Result<(), String> {
    for op in ops {
        apply(fs, op)?;
    }
    Ok(())
}

fn build_zip(entries: &[(&str, Option<&[u8]>)]) -> Vec<u8> {
    let mut w = zip::ZipWriter::new(std::io::Cursor::new(Vec::new()));
    let opts = zip::write::SimpleFileOptions::default()
        .compression_method(zip::CompressionMethod::Stored);
    for (name, data) in entries {
        match data {
            None => {
                w.add_directory(*name, opts).unwrap();
            }
            Some(bytes) => {
                w.start_file(*name, opts).unwrap();
                w.write_all(bytes).unwrap();
            }
        }
    }
    w.finish().unwrap().into_inner()
}

fn build_targz(entries: &[(&str, &[u8])]) -> Vec<u8> {
    let mut b = tar::Builder::new(Vec::new());
    for (path, data) in entries {
        let mut h = tar::Header::new_gnu();
        h.set_size(data.len() as u64);
        h.set_mode(0o644);
        b.append_data(&mut h, path, *data).unwrap();
    }
    let tar = b.into_inner().unwrap();
    let mut enc = flate2::write::GzEncoder::new(Vec::new(), flate2::Compression::default());
    enc.write_all(&tar).unwrap();
    enc.finish().unwrap()
}

fn zip_descriptor() -> ArchiveDescriptor {
    ArchiveDescriptor {
        storage_directory: "/inst".to_string(),
        base_name: "v0.9.0".to_string(),
        format_extension: "zip".to_string(),
    }
}

fn fs_with_archive(path: &str, bytes: &[u8]) -> MockFs {
    let mut fs = MockFs::new();
    insert_dir_all(&mut fs, &path[..path.rfind('/').unwrap()]);
    fs.insert(path.to_string(), Node::File { data: bytes.to_vec(), exec: false });
    fs
}

#[test]
fn install_zip_example_scenario() {
    let bytes = build_zip(&[("bin/", None), ("bin/app", Some(b"#!app"))]);
    let mut fs = fs_with_archive("/inst/v0.9.0.zip", &bytes);
    let d = zip_descriptor();
    let out = install_plan(Platform::Zip, &d, &bytes, &"nvim-win64".to_string()).unwrap();
    run_plan(&mut fs, &out.ops).unwrap();
    assert_eq!(
        fs.get("/inst/v0.9.0/bin/app"),
        Some(&Node::File { data: b"#!app".to_vec(), exec: false })
    );
    assert_eq!(fs.get("/inst/v0.9.0"), Some(&Node::Dir));
    assert!(!fs.contains_key("/inst/v0.9.0.zip"));
}

#[test]
fn install_overwrites_previous_tree() {
    let bytes = build_zip(&[("bin/app", Some(b"new"))]);
    let mut fs = fs_with_archive("/inst/v0.9.0.zip", &bytes);
    insert_dir_all(&mut fs, "/inst/v0.9.0/old-subdir");
    fs.insert(
        "/inst/v0.9.0/stale.txt".to_string(),
        Node::File { data: b"stale".to_vec(), exec: false },
    );
    let d = zip_descriptor();
    let out = install_plan(Platform::Zip, &d, &bytes, &"p".to_string()).unwrap();
    run_plan(&mut fs, &out.ops).unwrap();
    assert!(!fs.contains_key("/inst/v0.9.0/stale.txt"));
    assert!(!fs.contains_key("/inst/v0.9.0/old-subdir"));
    assert_eq!(
        fs.get("/inst/v0.9.0/bin/app"),
        Some(&Node::File { data: b"new".to_vec(), exec: false })
    );
    // A second installation over the result behaves the same.
    fs.insert(
        "/inst/v0.9.0.zip".to_string(),
        Node::File { data: bytes.clone(), exec: false },
    );
    let again = install_plan(Platform::Zip, &d, &bytes, &"p".to_string()).unwrap();
    run_plan(&mut fs, &again.ops).unwrap();
    assert_eq!(
        fs.get("/inst/v0.9.0/bin/app"),
        Some(&Node::File { data: b"new".to_vec(), exec: false })
    );
    assert!(!fs.contains_key("/inst/v0.9.0.zip"));
}

#[test]
fn install_success_removes_archive_only_at_the_end() {
    let bytes = build_zip(&[("a.txt", Some(b"a"))]);
    let d = zip_descriptor();
    let out = install_plan(Platform::Zip, &d, &bytes, &"p".to_string()).unwrap();
    let archive = "/inst/v0.9.0.zip".to_string();
    assert_eq!(*out.ops.last().unwrap(), FsOp::RemoveFile(archive.clone()));
    for op in &out.ops[..out.ops.len() - 1] {
        assert!(!matches!(op, FsOp::RemoveFile(p) if *p == archive));
    }
    let mut fs = fs_with_archive(&archive, &bytes);
    run_plan(&mut fs, &out.ops).unwrap();
    assert!(!fs.contains_key(archive.as_str()));
}

#[test]
fn install_failure_preserves_archive() {
    let bytes = b"broken container".to_vec();
    let d = zip_descriptor();
    let mut fs = fs_with_archive("/inst/v0.9.0.zip", &bytes);
    let r = install_plan(Platform::Zip, &d, &bytes, &"p".to_string());
    assert!(r.is_err());
    // Nothing was planned, so nothing runs and the archive survives.
    assert!(fs.contains_key("/inst/v0.9.0.zip"));
    assert!(!fs.contains_key("/inst/v0.9.0"));
}

#[test]
fn install_self_extracting_scenario() {
    let d = ArchiveDescriptor {
        storage_directory: "/inst".to_string(),
        base_name: "v2.0.0".to_string(),
        format_extension: "appimage".to_string(),
    };
    let image = b"image bytes".to_vec();
    let mut fs = fs_with_archive("/inst/v2.0.0.appimage", &image);
    let out = install_plan(Platform::SelfExtracting, &d, &image, &"p".to_string()).unwrap();
    run_plan(&mut fs, &out.ops).unwrap();
    assert_eq!(fs.get("/inst/v2.0.0"), Some(&Node::Dir));
    assert_eq!(
        fs.get("/inst/v2.0.0/nvim-linux64/bin/nvim"),
        Some(&Node::File { data: b"payload".to_vec(), exec: true })
    );
    assert!(!fs.contains_key("/inst/v2.0.0/AppRun"));
    assert!(!fs.contains_key("/inst/v2.0.0/nvim.desktop"));
    assert!(!fs.contains_key("/inst/v2.0.0/nvim.png"));
    assert!(!fs.contains_key("/inst/v2.0.0/usr"));
    assert!(!fs.contains_key("/inst/squashfs-root"));
    assert!(!fs.contains_key("/inst/v2.0.0.appimage"));
}

#[test]
fn install_targz_scenario_sets_executable_bits() {
    let d = ArchiveDescriptor {
        storage_directory: "/inst".to_string(),
        base_name: "v1.0.0".to_string(),
        format_extension: "tar.gz".to_string(),
    };
    let bytes = build_targz(&[("nvim-macos/", b""), ("nvim-macos/bin/nvim", b"binary")]);
    let mut fs = fs_with_archive("/inst/v1.0.0.tar.gz", &bytes);
    let out = install_plan(Platform::GzipTar, &d, &bytes, &"nvim-macos".to_string()).unwrap();
    run_plan(&mut fs, &out.ops).unwrap();
    assert_eq!(
        fs.get("/inst/v1.0.0/nvim-macos/bin/nvim"),
        Some(&Node::File { data: b"binary".to_vec(), exec: true })
    );
    assert!(!fs.contains_key("/inst/v1.0.0.tar.gz"));
}

#[test]
fn install_targz_legacy_name_is_migrated() {
    let d = ArchiveDescriptor {
        storage_directory: "/inst".to_string(),
        base_name: "v1.0.0".to_string(),
        format_extension: "tar.gz".to_string(),
    };
    let bytes = build_targz(&[("nvim-osx64/", b""), ("nvim-osx64/bin/nvim", b"binary")]);
    let mut fs = fs_with_archive("/inst/v1.0.0.tar.gz", &bytes);
    let out = install_plan(Platform::GzipTar, &d, &bytes, &"nvim-macos".to_string()).unwrap();
    run_plan(&mut fs, &out.ops).unwrap();
    assert!(!fs.contains_key("/inst/v1.0.0/nvim-osx64"));
    assert_eq!(
        fs.get("/inst/v1.0.0/nvim-macos/bin/nvim"),
        Some(&Node::File { data: b"binary".to_vec(), exec: true })
    );
}
