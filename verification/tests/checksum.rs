use proto_detect::checksum::file_base_name;
use proto_detect::checksum::get_checksum_path;
use proto_detect::checksum::get_checksum_url;
use proto_detect::checksum::verify_checksum;
use proto_detect::checksum::verify_checksum_digest;
use proto_detect::checksum::VerifyError;

const MANIFEST: &str = "/tmp/CHECKSUMS.txt";
const DOWNLOAD: &str = "/tmp/archive.tar.gz";

fn expect_mismatch(r: Result<bool, VerifyError>) {
    match r {
        Err(VerifyError::InvalidChecksum {
            download_file,
            checksum_file,
        }) => {
            assert_eq!(download_file, DOWNLOAD);
            assert_eq!(checksum_file, MANIFEST);
        }
        _ => panic!("verification must fail with a checksum mismatch"),
    }
}

#[test]
fn digest_and_file_name_line_matches() {
    let manifest = b"abc123  archive.tar.gz".to_vec();
    let r = verify_checksum_digest(MANIFEST, DOWNLOAD, &manifest, "abc123");
    assert_eq!(r, Ok(true));
}

#[test]
fn digest_line_with_other_file_name_fails() {
    let manifest = b"abc123  other.tar.gz".to_vec();
    expect_mismatch(verify_checksum_digest(MANIFEST, DOWNLOAD, &manifest, "abc123"));
}

#[test]
fn bare_digest_line_matches_any_name() {
    let manifest = b"abc123".to_vec();
    let r = verify_checksum_digest(MANIFEST, "/somewhere/else.zip", &manifest, "abc123");
    assert_eq!(r, Ok(true));
}

#[test]
fn wrong_digest_fails_with_mismatch() {
    let manifest = b"def456".to_vec();
    expect_mismatch(verify_checksum_digest(MANIFEST, DOWNLOAD, &manifest, "abc123"));
}

#[test]
fn undecodable_line_is_skipped_not_fatal() {
    let mut manifest: Vec<u8> = vec![0xff, 0xfe, 0x80];
    manifest.push(b'\n');
    manifest.extend_from_slice(b"abc123  archive.tar.gz");
    let r = verify_checksum_digest(MANIFEST, DOWNLOAD, &manifest, "abc123");
    assert_eq!(r, Ok(true));
}

#[test]
fn crlf_terminated_line_matches() {
    let manifest = b"abc123  archive.tar.gz\r\nzzz\r\n".to_vec();
    let r = verify_checksum_digest(MANIFEST, DOWNLOAD, &manifest, "abc123");
    assert_eq!(r, Ok(true));
}

#[test]
fn empty_manifest_fails() {
    let manifest = Vec::new();
    expect_mismatch(verify_checksum_digest(MANIFEST, DOWNLOAD, &manifest, "abc123"));
}

#[test]
fn later_line_matches_after_non_matching_lines() {
    let manifest = b"111111  a.txt\n222222\nabc123  archive.tar.gz\n".to_vec();
    let r = verify_checksum_digest(MANIFEST, DOWNLOAD, &manifest, "abc123");
    assert_eq!(r, Ok(true));
}

#[test]
fn sha256_of_download_is_matched() {
    // sha256 of "hello world", independently known
    let digest = "b94d27b9934d3e08a52e52d7da7dabfac484efe37a5380ee9088f7ace2efcde9";
    let manifest = format!("{digest}  data.bin\n").into_bytes();
    let download = b"hello world".to_vec();
    let r = verify_checksum(MANIFEST, "/dl/data.bin", &manifest, &download);
    assert_eq!(r, Ok(true));
}

#[test]
fn sha256_mismatch_is_reported() {
    let manifest = b"b94d27b9934d3e08a52e52d7da7dabfac484efe37a5380ee9088f7ace2efcde9  data.bin\n"
        .to_vec();
    let download = b"hello world!".to_vec();
    let r = verify_checksum(MANIFEST, "/dl/data.bin", &manifest, &download);
    match r {
        Err(VerifyError::InvalidChecksum {
            download_file,
            checksum_file,
        }) => {
            assert_eq!(download_file, "/dl/data.bin");
            assert_eq!(checksum_file, MANIFEST);
        }
        _ => panic!("a different content must not verify"),
    }
}

#[test]
fn checksum_url_token_is_substituted() {
    let template = Some("https://example.com/v1/{checksum_file}".to_string());
    let r = get_checksum_url(&template, "SHASUMS256.txt");
    assert_eq!(r, Some("https://example.com/v1/SHASUMS256.txt".to_string()));
}

#[test]
fn checksum_url_substitutes_every_occurrence() {
    let template = Some("{checksum_file}/{checksum_file}".to_string());
    let r = get_checksum_url(&template, "sums");
    assert_eq!(r, Some("sums/sums".to_string()));
}

#[test]
fn checksum_url_without_template_is_none() {
    assert_eq!(get_checksum_url(&None, "SHASUMS256.txt"), None);
}

#[test]
fn checksum_path_joins_temp_dir() {
    assert_eq!(
        get_checksum_path("/tmp/proto/node", "SHASUMS256.txt"),
        "/tmp/proto/node/SHASUMS256.txt"
    );
}

#[test]
fn base_name_takes_the_last_component() {
    assert_eq!(file_base_name("/a/b/c.tar.gz"), "c.tar.gz");
    assert_eq!(file_base_name("plain.txt"), "plain.txt");
    assert_eq!(file_base_name(""), "");
}
