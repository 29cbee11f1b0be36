use std::io::Write;

use bote::extract::extract_bzip2;
use bote::extract::extract_lzma;
use bote::extract::extract_tar_archive;
use bote::extract::extract_zip;
use bote::extract::ExtractError;
use bote::extract::ExtractOp;

fn tar_with(files: &[(&str, &[u8])]) -> Vec<u8> {
    let mut builder = tar::Builder::new(Vec::new());
    for (name, data) in files {
        let mut header = tar::Header::new_gnu();
        header.set_size(data.len() as u64);
        header.set_mode(0o644);
        header.set_cksum();
        builder.append_data(&mut header, name, *data).unwrap();
    }
    builder.into_inner().unwrap()
}

/// A single raw tar entry with the given name, type byte and optional link
/// target, followed by the data and the two terminating zero blocks, so that
/// entry names the builder would refuse can still appear in an archive.
fn raw_tar_entry(name: &str, data: &[u8], typeflag: u8, link: Option<&str>) -> Vec<u8> {
    let mut header = [0u8; 512];
    header[..name.len()].copy_from_slice(name.as_bytes());
    header[100..108].copy_from_slice(b"0000644\0");
    header[108..116].copy_from_slice(b"0000000\0");
    header[116..124].copy_from_slice(b"0000000\0");
    let size = format!("{:011o}\0", data.len());
    header[124..136].copy_from_slice(size.as_bytes());
    header[136..148].copy_from_slice(b"00000000000\0");
    header[156] = typeflag;
    if let Some(link) = link {
        header[157..157 + link.len()].copy_from_slice(link.as_bytes());
    }
    header[257..265].copy_from_slice(b"ustar  \0");
    let sum: u32 = header.iter().map(|b| *b as u32).sum::<u32>() + 8 * 32;
    let cksum = format!("{:06o}\0 ", sum);
    header[148..156].copy_from_slice(cksum.as_bytes());
    let mut out = header.to_vec();
    out.extend_from_slice(data);
    while out.len() % 512 != 0 {
        out.push(0);
    }
    out.extend_from_slice(&[0u8; 1024]);
    out
}

fn raw_tar(name: &str, data: &[u8]) -> Vec<u8> {
    raw_tar_entry(name, data, b'0', None)
}

#[test]
fn tar_round_trip_reproduces_paths_and_contents() {
    let bytes = tar_with(&[("a/b.txt", b"hello"), ("a/c/d.txt", b"world")]);
    let ops = extract_tar_archive(&bytes, "D").unwrap();
    assert_eq!(
        ops,
        vec![
            ExtractOp::File {
                path: "D/a/b.txt".to_string(),
                data: b"hello".to_vec(),
                mode: Some(0o644),
            },
            ExtractOp::File {
                path: "D/a/c/d.txt".to_string(),
                data: b"world".to_vec(),
                mode: Some(0o644),
            },
        ]
    );
}

#[test]
fn tar_extraction_is_idempotent_at_the_plan_level() {
    let bytes = tar_with(&[("a/b.txt", b"hello"), ("a/c/d.txt", b"world")]);
    let first = extract_tar_archive(&bytes, "D").unwrap();
    let again = extract_tar_archive(&bytes, "D").unwrap();
    assert_eq!(first, again);
}

#[test]
fn tar_rejects_a_traversal_entry() {
    let bytes = raw_tar("../../etc/passwd", b"oops");
    match extract_tar_archive(&bytes, "D") {
        Err(ExtractError::UnsafeName { name }) => {
            assert_eq!(name, "../../etc/passwd".to_string());
        }
        other => panic!("expected an unsafe name, got {:?}", other),
    }
}

#[test]
fn tar_rejects_an_absolute_entry() {
    let bytes = raw_tar("/etc/passwd", b"oops");
    assert!(matches!(
        extract_tar_archive(&bytes, "D"),
        Err(ExtractError::UnsafeName { .. })
    ));
}

#[test]
fn tar_preserves_directories_and_safe_symlinks() {
    let mut bytes = raw_tar_entry("a/", &[], b'5', None);
    bytes.truncate(bytes.len() - 1024);
    bytes.extend_from_slice(&raw_tar_entry("a/link", &[], b'2', Some("b.txt")));
    let ops = extract_tar_archive(&bytes, "D").unwrap();
    assert_eq!(ops.len(), 2);
    assert!(matches!(&ops[0], ExtractOp::Dir { path } if path == "D/a/"));
    assert!(matches!(
        &ops[1],
        ExtractOp::Symlink { path, target } if path == "D/a/link" && target == "b.txt"
    ));
}

#[test]
fn tar_rejects_an_unsupported_entry_type() {
    let bytes = raw_tar_entry("a/fifo", &[], b'6', None);
    match extract_tar_archive(&bytes, "D") {
        Err(ExtractError::Unsupported { name }) => assert_eq!(name, "a/fifo".to_string()),
        other => panic!("expected an unsupported entry, got {:?}", other),
    }
}

#[test]
fn tar_rejects_a_symlink_whose_target_escapes() {
    let bytes = raw_tar_entry("a/link", &[], b'2', Some("../../x"));
    match extract_tar_archive(&bytes, "D") {
        Err(ExtractError::BadLink { name }) => assert_eq!(name, "a/link".to_string()),
        other => panic!("expected a bad link, got {:?}", other),
    }
}

#[test]
fn tar_rejects_a_symlink_without_a_target() {
    let bytes = raw_tar_entry("a/link", &[], b'2', None);
    assert!(matches!(
        extract_tar_archive(&bytes, "D"),
        Err(ExtractError::BadLink { .. })
    ));
}

#[test]
fn a_corrupt_tar_archive_is_an_archive_error() {
    let bytes = vec![1u8; 100];
    assert!(matches!(
        extract_tar_archive(&bytes, "D"),
        Err(ExtractError::Archive { .. })
    ));
}

fn zip_with(files: &[(&str, &[u8])], dirs: &[&str]) -> Vec<u8> {
    let mut writer = zip::ZipWriter::new(std::io::Cursor::new(Vec::new()));
    let options = zip::write::SimpleFileOptions::default()
        .compression_method(zip::CompressionMethod::Stored);
    for dir in dirs {
        writer.add_directory(*dir, options).unwrap();
    }
    for (name, data) in files {
        writer.start_file(*name, options).unwrap();
        writer.write_all(data).unwrap();
    }
    writer.finish().unwrap().into_inner()
}

fn replace_bytes(haystack: &[u8], needle: &[u8], replacement: &[u8]) -> Vec<u8> {
    assert_eq!(needle.len(), replacement.len());
    let mut out = haystack.to_vec();
    let mut i = 0;
    while i + needle.len() <= out.len() {
        if &out[i..i + needle.len()] == needle {
            out[i..i + needle.len()].copy_from_slice(replacement);
            i += needle.len();
        } else {
            i += 1;
        }
    }
    out
}

#[test]
fn zip_extraction_plans_files_and_directories() {
    let bytes = zip_with(&[("a/b.txt", b"hello")], &["a"]);
    let ops = extract_zip(&bytes, "D").unwrap();
    assert_eq!(ops.len(), 2);
    assert!(matches!(&ops[0], ExtractOp::Dir { path } if path == "D/a/"));
    assert_eq!(
        ops[1],
        ExtractOp::File { path: "D/a/b.txt".to_string(), data: b"hello".to_vec(), mode: None }
    );
}

#[test]
fn zip_rejects_a_traversal_entry() {
    let placeholder = "aaaaaaaaaaaaaaaa";
    let bytes = zip_with(&[(placeholder, b"oops")], &[]);
    let evil = replace_bytes(&bytes, placeholder.as_bytes(), b"../../etc/passwd");
    match extract_zip(&evil, "D") {
        Err(ExtractError::UnsafeName { name }) => {
            assert_eq!(name, "../../etc/passwd".to_string());
        }
        other => panic!("expected an unsafe name, got {:?}", other),
    }
}

#[test]
fn a_corrupt_zip_archive_is_an_archive_error() {
    let bytes = vec![9u8; 64];
    assert!(matches!(extract_zip(&bytes, "D"), Err(ExtractError::Archive { .. })));
}

#[test]
fn lzma_round_trip_reproduces_the_stream() {
    let plain = b"hello bote, again and again and again".to_vec();
    let compressed = lzma::compress(&plain, 6).unwrap();
    let ops = extract_lzma(&compressed, "out.bin").unwrap();
    assert_eq!(
        ops,
        vec![ExtractOp::File { path: "out.bin".to_string(), data: plain, mode: None }]
    );
}

#[test]
fn lzma_rejects_a_traversal_output_path() {
    let compressed = lzma::compress(b"x", 6).unwrap();
    assert!(matches!(
        extract_lzma(&compressed, "../../etc/passwd"),
        Err(ExtractError::UnsafeName { .. })
    ));
}

#[test]
fn a_corrupt_lzma_stream_is_an_archive_error() {
    let bytes = vec![2u8; 32];
    assert!(matches!(
        extract_lzma(&bytes, "out.bin"),
        Err(ExtractError::Archive { .. })
    ));
}

#[test]
fn bzip2_decodes_a_stream_to_one_file() {
    let compressed: Vec<u8> = vec![
        66, 90, 104, 57, 49, 65, 89, 38, 83, 89, 217, 207, 90, 219, 0, 0, 2, 17, 128, 64, 0, 18,
        68, 132, 0, 32, 0, 49, 12, 0, 208, 60, 161, 104, 70, 47, 139, 185, 34, 156, 40, 72, 108,
        231, 173, 109, 128,
    ];
    let ops = extract_bzip2(&compressed, "plain.txt").unwrap();
    assert_eq!(
        ops,
        vec![ExtractOp::File {
            path: "plain.txt".to_string(),
            data: b"hello bote".to_vec(),
            mode: None,
        }]
    );
}

#[test]
fn bzip2_rejects_a_traversal_output_path() {
    let bytes = vec![0u8; 4];
    assert!(matches!(
        extract_bzip2(&bytes, "../../etc/passwd"),
        Err(ExtractError::UnsafeName { .. })
    ));
}

#[test]
fn a_corrupt_bzip2_stream_is_an_archive_error() {
    let bytes = vec![3u8; 16];
    assert!(matches!(
        extract_bzip2(&bytes, "plain.txt"),
        Err(ExtractError::Archive { .. })
    ));
}
