//! Checksum verification of a downloaded artifact: compute the SHA-256
//! digest of the downloaded bytes and match it against the lines of a
//! checksum manifest.
//!
//! A manifest line matches when it begins with the digest and ends with the
//! artifact's base name (the `<digest>  <name>` shape, with any separator in
//! between), or when it is exactly the bare digest. Lines that are not
//! well-formed UTF-8 are skipped, never an error.

use vstd::prelude::*;

verus! {

use crate::ext::sha256_digest;
use crate::ext::sha256_of;
use crate::ext::utf8_to_string;
use crate::text::chars_of;
use crate::text::chars_to_string;
use crate::text::concat_str;
use crate::text::eq_chars;
use crate::text::ends_with_chars;
use crate::text::replace_all;
use crate::text::replaced;
use crate::text::starts_with_chars;
use vstd::utf8::decode_utf8;
use vstd::utf8::valid_utf8;

/// Verification failed: no manifest line matched the digest. Carries both
/// file paths for diagnostics.
#[derive(Debug, Clone, PartialEq, Eq)]
pub enum VerifyError {
    InvalidChecksum { download_file: String, checksum_file: String },
}

/// A nibble as a lowercase hexadecimal digit.
pub open spec fn hex_digit(n: u8) -> char {
    if n < 10 {
        ((n + 48) as u8) as char
    } else {
        ((n + 87) as u8) as char
    }
}

/// A byte sequence written as lowercase hexadecimal, two digits per byte.
pub open spec fn hex_of(bytes: Seq<u8>) -> Seq<char>
    decreases bytes.len(),
{
    if bytes.len() == 0 {
        Seq::empty()
    } else {
        seq![hex_digit(bytes[0] / 16), hex_digit(bytes[0] % 16)] + hex_of(bytes.drop_first())
    }
}

/// One byte prepended to the first line of `rest`, opening a new line when
/// `rest` has none.
pub open spec fn cons_line(c: u8, rest: Seq<Seq<u8>>) -> Seq<Seq<u8>> {
    if rest.len() == 0 {
        seq![seq![c]]
    } else {
        seq![seq![c] + rest[0]] + rest.drop_first()
    }
}

/// The lines of `data`, split at every line feed; a carriage return directly
/// before a line feed is dropped with it. A trailing terminator opens no
/// empty final line.
pub open spec fn manifest_lines(data: Seq<u8>) -> Seq<Seq<u8>>
    decreases data.len(),
{
    if data.len() == 0 {
        Seq::empty()
    } else if data[0] == 10u8 {
        seq![Seq::<u8>::empty()] + manifest_lines(data.skip(1))
    } else if data[0] == 13u8 && data.len() >= 2 && data[1] == 10u8 {
        seq![Seq::<u8>::empty()] + manifest_lines(data.skip(2))
    } else {
        cons_line(data[0], manifest_lines(data.skip(1)))
    }
}

/// Whether one decoded manifest line accepts the digest: it begins with the
/// digest and ends with the artifact name, or it is the bare digest.
pub open spec fn line_matches(line: Seq<char>, digest: Seq<char>, name: Seq<char>) -> bool {
    (digest.is_prefix_of(line) && name.is_suffix_of(line)) || line == digest
}

/// Whether one raw manifest line accepts the digest: it decodes as UTF-8 and
/// the decoded text matches.
pub open spec fn raw_line_matches(raw: Seq<u8>, digest: Seq<char>, name: Seq<char>) -> bool {
    valid_utf8(raw) && line_matches(decode_utf8(raw), digest, name)
}

/// Whether some line of the manifest accepts the digest.
pub open spec fn manifest_has_match(data: Seq<u8>, digest: Seq<char>, name: Seq<char>) -> bool {
    exists|i: int|
        0 <= i < manifest_lines(data).len() && raw_line_matches(
            manifest_lines(data)[i],
            digest,
            name,
        )
}

/// The part of a path after its last `/` separator; empty when the path ends
/// with a separator.
pub open spec fn base_name_of(path: Seq<char>) -> Seq<char>
    decreases path.len(),
{
    if path.len() == 0 {
        Seq::empty()
    } else if path.last() == '/' {
        Seq::empty()
    } else {
        base_name_of(path.drop_last()).push(path.last())
    }
}

/// The base name of `path`, as [`base_name_of`] describes it.
pub fn file_base_name(path: &str) -> (r: String)
    ensures
        r@ == base_name_of(path@),
{
    let chars = chars_of(path);
    let mut start: usize = 0;
    let mut k: usize = 0;
    while k < chars.len()
        invariant
            start <= k <= chars@.len(),
            start > 0 ==> chars@[start - 1] == '/',
            forall|j: int| start <= j < k ==> chars@[j] != '/',
        decreases chars@.len() - k,
    {
        if chars[k] == '/' {
            start = k + 1;
        }
        k = k + 1;
    }
    let mut out: Vec<char> = Vec::new();
    let mut i: usize = start;
    proof {
        lemma_base_name_after_sep(chars@, start as int);
        assert(out@ =~= chars@.subrange(start as int, start as int));
    }
    while i < chars.len()
        invariant
            start <= i <= chars@.len(),
            out@ =~= chars@.subrange(start as int, i as int),
        decreases chars@.len() - i,
    {
        out.push(chars[i]);
        i = i + 1;
    }
    proof {
        assert(out@ =~= chars@.subrange(start as int, chars@.len() as int));
    }
    chars_to_string(&out)
}

/// When no character from `start` on is a separator, and either `start` is 0
/// or a separator stands just before it, the base name is the tail from
/// `start`.
proof fn lemma_base_name_after_sep(path: Seq<char>, start: int)
    requires
        0 <= start <= path.len(),
        forall|j: int| start <= j < path.len() ==> path[j] != '/',
        start > 0 ==> path[start - 1] == '/',
    ensures
        base_name_of(path) == path.subrange(start, path.len() as int),
    decreases path.len(),
{
    if path.len() == 0 {
        assert(base_name_of(path) =~= path.subrange(start, path.len() as int));
    } else if start == path.len() {
        assert(path.last() == '/');
        assert(base_name_of(path) =~= path.subrange(start, path.len() as int));
    } else {
        assert(path.last() != '/');
        lemma_base_name_after_sep(path.drop_last(), start);
        assert(base_name_of(path) == base_name_of(path.drop_last()).push(path.last()));
        assert(base_name_of(path) =~= path.subrange(start, path.len() as int));
    }
}

/// The digest bytes written as lowercase hexadecimal characters.
pub fn bytes_to_hex(bytes: &Vec<u8>) -> (r: Vec<char>)
    ensures
        r@ == hex_of(bytes@),
{
    let mut out: Vec<char> = Vec::new();
    let mut i: usize = 0;
    proof {
        assert(bytes@.skip(0) =~= bytes@);
        assert(Seq::<char>::empty() + hex_of(bytes@) =~= hex_of(bytes@));
    }
    while i < bytes.len()
        invariant
            i <= bytes@.len(),
            hex_of(bytes@) == out@ + hex_of(bytes@.skip(i as int)),
        decreases bytes@.len() - i,
    {
        let b = bytes[i];
        let hi: u8 = b / 16;
        let lo: u8 = b % 16;
        let hic: char = if hi < 10 {
            (hi + 48) as char
        } else {
            (hi + 87) as char
        };
        let loc: char = if lo < 10 {
            (lo + 48) as char
        } else {
            (lo + 87) as char
        };
        out.push(hic);
        out.push(loc);
        proof {
            let rest = bytes@.skip(i as int);
            assert(rest[0] == bytes@[i as int]);
            assert(rest.drop_first() =~= bytes@.skip(i + 1));
            assert(out@ =~= (out@.drop_last().drop_last() + seq![hex_digit(bytes@[i as int] / 16), hex_digit(bytes@[i as int] % 16)]));
            assert(out@ + hex_of(bytes@.skip(i + 1)) =~= out@.drop_last().drop_last() + (seq![
                hex_digit(bytes@[i as int] / 16),
                hex_digit(bytes@[i as int] % 16),
            ] + hex_of(bytes@.skip(i + 1))));
        }
        i = i + 1;
    }
    proof {
        assert(bytes@.skip(bytes@.len() as int) =~= Seq::<u8>::empty());
        assert(out@ + hex_of(bytes@.skip(bytes@.len() as int)) =~= out@);
    }
    out
}

/// The views of a sequence of byte vectors.
pub open spec fn views_of(ls: Seq<Vec<u8>>) -> Seq<Seq<u8>> {
    ls.map_values(|l: Vec<u8>| l@)
}

/// The raw lines of `data`, as [`manifest_lines`] describes them.
pub fn split_lines(data: &Vec<u8>) -> (r: Vec<Vec<u8>>)
    ensures
        views_of(r@) == manifest_lines(data@),
{
    let mut out: Vec<Vec<u8>> = Vec::new();
    let mut cur: Vec<u8> = Vec::new();
    let mut i: usize = 0;
    proof {
        assert(data@.skip(0) =~= data@);
        assert(glue(cur@, manifest_lines(data@)) =~= views_of(out@) + glue(
            cur@,
            manifest_lines(data@),
        ));
    }
    while i < data.len()
        invariant
            i <= data@.len(),
            manifest_lines(data@) == views_of(out@) + glue(
                cur@,
                manifest_lines(data@.skip(i as int)),
            ),
        decreases data@.len() - i,
    {
        let ghost rest = data@.skip(i as int);
        let ghost out0 = views_of(out@);
        let ghost cur0 = cur@;
        if data[i] == 10u8 {
            proof {
                assert(rest[0] == 10u8);
                assert(rest.skip(1) =~= data@.skip(i + 1));
                lemma_glue_newline(cur0, manifest_lines(data@.skip(i + 1)));
            }
            out.push(cur);
            cur = Vec::new();
            proof {
                assert(views_of(out@) =~= out0.push(cur0));
                assert(out0.push(cur0) + glue(Seq::<u8>::empty(), manifest_lines(data@.skip(i + 1)))
                    =~= out0 + (seq![cur0] + glue(
                    Seq::<u8>::empty(),
                    manifest_lines(data@.skip(i + 1)),
                )));
            }
            i = i + 1;
        } else if data[i] == 13u8 && i + 1 < data.len() && data[i + 1] == 10u8 {
            proof {
                assert(rest[0] == 13u8);
                assert(rest.len() >= 2 && rest[1] == 10u8);
                assert(rest.skip(2) =~= data@.skip(i + 2));
                lemma_glue_newline(cur0, manifest_lines(data@.skip(i + 2)));
            }
            out.push(cur);
            cur = Vec::new();
            proof {
                assert(views_of(out@) =~= out0.push(cur0));
                assert(out0.push(cur0) + glue(Seq::<u8>::empty(), manifest_lines(data@.skip(i + 2)))
                    =~= out0 + (seq![cur0] + glue(
                    Seq::<u8>::empty(),
                    manifest_lines(data@.skip(i + 2)),
                )));
            }
            i = i + 2;
        } else {
            proof {
                assert(rest[0] == data@[i as int]);
                assert(rest[0] != 10u8);
                assert(!(rest[0] == 13u8 && rest.len() >= 2 && rest[1] == 10u8)) by {
                    if rest[0] == 13u8 && rest.len() >= 2 && rest[1] == 10u8 {
                        assert(data@[i + 1] == rest[1]);
                    }
                }
                assert(rest.skip(1) =~= data@.skip(i + 1));
                lemma_glue_cons(cur0, data@[i as int], manifest_lines(data@.skip(i + 1)));
            }
            let c = data[i];
            cur.push(c);
            proof {
                assert(cur@ =~= cur0.push(data@[i as int]));
            }
            i = i + 1;
        }
    }
    proof {
        assert(data@.skip(data@.len() as int) =~= Seq::<u8>::empty());
    }
    if cur.len() > 0 {
        let ghost out0 = views_of(out@);
        let ghost cur0 = cur@;
        out.push(cur);
        proof {
            assert(views_of(out@) =~= out0.push(cur0));
            assert(out0 + glue(cur0, Seq::<Seq<u8>>::empty()) =~= out0.push(cur0));
        }
    } else {
        proof {
            assert(views_of(out@) + glue(cur@, Seq::<Seq<u8>>::empty()) =~= views_of(out@));
        }
    }
    out
}

/// The partial line `cur` prepended to the lines `rest`; a non-empty partial
/// line with nothing behind it stands as a line of its own.
pub open spec fn glue(cur: Seq<u8>, rest: Seq<Seq<u8>>) -> Seq<Seq<u8>> {
    if rest.len() == 0 {
        if cur.len() == 0 {
            Seq::empty()
        } else {
            seq![cur]
        }
    } else {
        seq![cur + rest[0]] + rest.drop_first()
    }
}

/// Ending the current line at a terminator: the glued form gains `cur` as a
/// finished line.
proof fn lemma_glue_newline(cur: Seq<u8>, rest: Seq<Seq<u8>>)
    ensures
        glue(cur, seq![Seq::<u8>::empty()] + rest) =~= seq![cur] + glue(Seq::<u8>::empty(), rest),
{
    if rest.len() == 0 {
        assert(glue(cur, seq![Seq::<u8>::empty()] + rest) =~= seq![cur]);
    } else {
        assert((seq![Seq::<u8>::empty()] + rest)[0] =~= Seq::<u8>::empty());
        assert(cur + (seq![Seq::<u8>::empty()] + rest)[0] =~= cur);
        assert((seq![Seq::<u8>::empty()] + rest).drop_first() =~= rest);
        assert(glue(cur, seq![Seq::<u8>::empty()] + rest) =~= seq![cur] + glue(
            Seq::<u8>::empty(),
            rest,
        ));
    }
}

/// Extending the current line by one byte commutes with gluing.
proof fn lemma_glue_cons(cur: Seq<u8>, c: u8, rest: Seq<Seq<u8>>)
    ensures
        glue(cur, cons_line(c, rest)) =~= glue(cur.push(c), rest),
{
    if rest.len() == 0 {
        assert(cur + seq![c] =~= cur.push(c));
        assert(glue(cur, cons_line(c, rest)) =~= seq![cur.push(c)]);
    } else {
        assert(cons_line(c, rest)[0] =~= seq![c] + rest[0]);
        assert(cur + (seq![c] + rest[0]) =~= cur.push(c) + rest[0]);
        assert(cons_line(c, rest).drop_first() =~= rest.drop_first());
        assert(glue(cur, cons_line(c, rest)) =~= glue(cur.push(c), rest));
    }
}

/// Whether the decoded `line` accepts the digest, as [`line_matches`] says.
fn line_match(line: &Vec<char>, digest: &Vec<char>, name: &Vec<char>) -> (r: bool)
    ensures
        r == line_matches(line@, digest@, name@),
{
    (starts_with_chars(line, digest) && ends_with_chars(line, name)) || eq_chars(line, digest)
}

/// Scan the manifest for a line that accepts `digest` for an artifact named
/// `name`. Undecodable lines are skipped. On success the answer is `true`;
/// with no matching line the error carries both paths.
fn scan_manifest(
    checksum_file: &str,
    download_file: &str,
    manifest_data: &Vec<u8>,
    digest: &Vec<char>,
    name: &Vec<char>,
) -> (r: Result<bool, VerifyError>)
    ensures
        r is Ok <==> manifest_has_match(manifest_data@, digest@, name@),
        r matches Ok(b) ==> b,
        r matches Err(e) ==> (e matches VerifyError::InvalidChecksum {
            download_file: d,
            checksum_file: c,
        } && d@ == download_file@ && c@ == checksum_file@),
{
    let lines = split_lines(manifest_data);
    let ghost all = manifest_lines(manifest_data@);
    let mut i: usize = 0;
    while i < lines.len()
        invariant
            i <= lines@.len(),
            views_of(lines@) == all,
            all == manifest_lines(manifest_data@),
            forall|j: int| 0 <= j < i ==> !raw_line_matches(all[j], digest@, name@),
        decreases lines@.len() - i,
    {
        let ghost raw = all[i as int];
        proof {
            assert(lines@[i as int]@ == raw);
        }
        match utf8_to_string(lines[i].as_slice()) {
            Some(text) => {
                let text_chars = chars_of(text.as_str());
                if line_match(&text_chars, digest, name) {
                    proof {
                        assert(raw_line_matches(all[i as int], digest@, name@));
                        assert(manifest_has_match(manifest_data@, digest@, name@)) by {
                            assert(0 <= i < all.len() && raw_line_matches(
                                all[i as int],
                                digest@,
                                name@,
                            ));
                        }
                    }
                    return Ok(true);
                }
            },
            None => {
                proof {
                    assert(!valid_utf8(raw));
                }
            },
        }
        i = i + 1;
    }
    proof {
        if manifest_has_match(manifest_data@, digest@, name@) {
            let j = choose|j: int|
                0 <= j < all.len() && raw_line_matches(all[j], digest@, name@);
            assert(!raw_line_matches(all[j], digest@, name@));
        }
    }
    Err(VerifyError::InvalidChecksum {
        download_file: download_file.to_owned(),
        checksum_file: checksum_file.to_owned(),
    })
}

/// Match an already-computed digest, written as text, against the manifest.
/// The artifact's name is the base name of `download_file`.
pub fn verify_checksum_digest(
    checksum_file: &str,
    download_file: &str,
    manifest_data: &Vec<u8>,
    digest: &str,
) -> (r: Result<bool, VerifyError>)
    ensures
        r is Ok <==> manifest_has_match(
            manifest_data@,
            digest@,
            base_name_of(download_file@),
        ),
        r matches Ok(b) ==> b,
        r matches Err(e) ==> (e matches VerifyError::InvalidChecksum {
            download_file: d,
            checksum_file: c,
        } && d@ == download_file@ && c@ == checksum_file@),
{
    let digest_chars = chars_of(digest);
    let name = file_base_name(download_file);
    let name_chars = chars_of(name.as_str());
    scan_manifest(checksum_file, download_file, manifest_data, &digest_chars, &name_chars)
}

/// Verify a downloaded artifact against a checksum manifest: the SHA-256
/// digest of `download_data`, in lowercase hexadecimal, must be accepted by
/// some manifest line for the base name of `download_file`.
pub fn verify_checksum(
    checksum_file: &str,
    download_file: &str,
    manifest_data: &Vec<u8>,
    download_data: &Vec<u8>,
) -> (r: Result<bool, VerifyError>)
    ensures
        r is Ok <==> manifest_has_match(
            manifest_data@,
            hex_of(sha256_of(download_data@)),
            base_name_of(download_file@),
        ),
        r matches Ok(b) ==> b,
        r matches Err(e) ==> (e matches VerifyError::InvalidChecksum {
            download_file: d,
            checksum_file: c,
        } && d@ == download_file@ && c@ == checksum_file@),
{
    let digest_bytes = sha256_digest(download_data.as_slice());
    let digest_chars = bytes_to_hex(&digest_bytes);
    let name = file_base_name(download_file);
    let name_chars = chars_of(name.as_str());
    scan_manifest(checksum_file, download_file, manifest_data, &digest_chars, &name_chars)
}

/// The path of the checksum manifest inside `temp_dir`, joined with a `/`
/// separator.
pub fn get_checksum_path(temp_dir: &str, checksum_file: &str) -> (r: String)
    ensures
        r@ == temp_dir@ + "/"@ + checksum_file@,
{
    let head = concat_str(temp_dir, "/");
    concat_str(head.as_str(), checksum_file)
}

/// The checksum download URL: the template, when there is one, with every
/// `{checksum_file}` token replaced by the manifest's file name. Any other
/// token is left for the download layer.
pub fn get_checksum_url(checksum_url: &Option<String>, checksum_file: &str) -> (r: Option<
    String,
>)
    ensures
        match r {
            Some(u) => checksum_url matches Some(t) && u@ == replaced(
                t@,
                "{checksum_file}"@,
                checksum_file@,
            ),
            None => checksum_url is None,
        },
{
    match checksum_url {
        Some(template) => {
            let tchars = chars_of(template.as_str());
            let token = chars_of("{checksum_file}");
            let value = chars_of(checksum_file);
            let out = replace_all(&tchars, &token, &value);
            Some(chars_to_string(&out))
        },
        None => None,
    }
}

} // verus!
