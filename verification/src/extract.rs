//! Archive extraction planning for the four supported container and
//! compression formats.
//!
//! The outside crates decode an in-memory archive into plain entries; the
//! verified planner turns those entries into a list of filesystem operations,
//! rejecting any entry whose name or link target would escape the destination
//! directory. A single bad entry fails the whole extraction, and nothing is
//! written for it.
//!
//! `zip` and `tar` are multi-entry container formats. `lzma` and `bzip2`
//! decode a single compressed stream into a single output file.

use vstd::prelude::*;

use crate::paths::is_safe_entry;
use crate::paths::is_safe_link;
use crate::paths::spec_safe_entry;
use crate::paths::spec_safe_link;

verus! {

/// One entry of a zip archive, as decoded from the archive bytes.
pub struct ZipEntry {
    pub name: String,
    pub data: Vec<u8>,
    pub is_dir: bool,
}

/// The mathematical model of a [`ZipEntry`].
pub struct ZipEntryV {
    pub name: Seq<char>,
    pub data: Seq<u8>,
    pub is_dir: bool,
}

impl View for ZipEntry {
    type V = ZipEntryV;

    open spec fn view(&self) -> ZipEntryV {
        ZipEntryV { name: self.name@, data: self.data@, is_dir: self.is_dir }
    }
}

impl DeepView for ZipEntry {
    type V = ZipEntryV;

    open spec fn deep_view(&self) -> ZipEntryV {
        self.view()
    }
}

/// What decoding a zip archive yields: `None` on a malformed archive,
/// otherwise its entries in archive order.
pub uninterp spec fn zip_parse(bytes: Seq<u8>) -> Option<Seq<ZipEntryV>>;

/// Relies on zip::ZipArchive (new, len, by_index) and zip::read::ZipFile
/// (name, is_dir, read): decoding an in-memory archive is a function of the
/// bytes alone; it fails exactly on a malformed archive or entry.
#[verifier::external_body]
fn read_zip_entries(bytes: &Vec<u8>) -> (r: Result<Vec<ZipEntry>, String>)
    ensures
        r is Ok <==> zip_parse(bytes@) is Some,
        r matches Ok(v) ==> v.deep_view() == zip_parse(bytes@)->0,
{
    let cursor = std::io::Cursor::new(bytes.as_slice());
    let mut zip = zip::ZipArchive::new(cursor).map_err(|e| e.to_string())?;
    let mut out: Vec<ZipEntry> = Vec::new();
    let mut i: usize = 0;
    while i < zip.len() {
        let mut f = zip.by_index(i).map_err(|e| e.to_string())?;
        let mut data: Vec<u8> = Vec::new();
        if !f.is_dir() {
            std::io::Read::read_to_end(&mut f, &mut data).map_err(|e| e.to_string())?;
        }
        out.push(ZipEntry { name: f.name().to_string(), is_dir: f.is_dir(), data });
        i += 1;
    }
    Ok(out)
}

/// One filesystem operation of an extraction plan. Paths are the destination
/// argument joined with the entry name; the caller performs them in order,
/// creating parent directories as needed.
#[derive(Debug, PartialEq)]
pub enum ExtractOp {
    /// Create a directory.
    Dir { path: String },
    /// Write a file with the given contents; `mode` carries the permission
    /// bits of formats that record them.
    File { path: String, data: Vec<u8>, mode: Option<u32> },
    /// Create a symbolic link pointing at `target`.
    Symlink { path: String, target: String },
}

/// The mathematical model of an [`ExtractOp`].
pub enum ExtractOpV {
    Dir { path: Seq<char> },
    File { path: Seq<char>, data: Seq<u8>, mode: Option<u32> },
    Symlink { path: Seq<char>, target: Seq<char> },
}

impl View for ExtractOp {
    type V = ExtractOpV;

    open spec fn view(&self) -> ExtractOpV {
        match self {
            ExtractOp::Dir { path } => ExtractOpV::Dir { path: path@ },
            ExtractOp::File { path, data, mode } => ExtractOpV::File {
                path: path@,
                data: data@,
                mode: *mode,
            },
            ExtractOp::Symlink { path, target } => ExtractOpV::Symlink {
                path: path@,
                target: target@,
            },
        }
    }
}

impl DeepView for ExtractOp {
    type V = ExtractOpV;

    open spec fn deep_view(&self) -> ExtractOpV {
        self.view()
    }
}

/// Why an extraction was refused.
#[derive(Debug)]
pub enum ExtractError {
    /// The archive itself could not be decoded.
    Archive { message: String },
    /// An entry's name would escape the destination directory.
    UnsafeName { name: String },
    /// An entry's type is not supported.
    Unsupported { name: String },
    /// A symbolic link entry has no target or a target that would escape the
    /// destination directory.
    BadLink { name: String },
}

/// Whether every entry of a zip archive is safe to extract.
pub open spec fn spec_zip_all_safe(entries: Seq<ZipEntryV>) -> bool {
    forall|i: int| 0 <= i < entries.len() ==> spec_safe_entry(#[trigger] entries[i].name)
}

/// The operation one zip entry turns into.
pub open spec fn spec_zip_op(e: ZipEntryV, dest: Seq<char>) -> ExtractOpV {
    if e.is_dir {
        ExtractOpV::Dir { path: dest + "/"@ + e.name }
    } else {
        ExtractOpV::File { path: dest + "/"@ + e.name, data: e.data, mode: Option::None }
    }
}

/// The plan a safe zip archive turns into, in archive order.
pub open spec fn spec_zip_plan(entries: Seq<ZipEntryV>, dest: Seq<char>) -> Seq<ExtractOpV> {
    entries.map_values(|e: ZipEntryV| spec_zip_op(e, dest))
}

/// Plans the extraction of a zip archive into the destination directory.
///
/// Succeeds exactly when the archive decodes and every entry name is safe;
/// the plan then holds one operation per entry, in archive order. A malformed
/// archive reports `Archive`; the first unsafe entry name reports
/// `UnsafeName`, and nothing is extracted.
pub fn extract_zip(archive: &Vec<u8>, dest: &str) -> (r: Result<Vec<ExtractOp>, ExtractError>)
    ensures
        r is Ok <==> (zip_parse(archive@) is Some && spec_zip_all_safe(zip_parse(archive@)->0)),
        r matches Ok(ops) ==> ops.deep_view() == spec_zip_plan(zip_parse(archive@)->0, dest@),
        r matches Err(e) ==> match e {
            ExtractError::Archive { message } => zip_parse(archive@) is None,
            ExtractError::UnsafeName { name } => exists|k: int|
                {
                    &&& 0 <= k < zip_parse(archive@)->0.len()
                    &&& forall|j: int|
                        0 <= j < k ==> spec_safe_entry(#[trigger] zip_parse(archive@)->0[j].name)
                    &&& !spec_safe_entry(zip_parse(archive@)->0[k].name)
                    &&& name@ == zip_parse(archive@)->0[k].name
                },
            _ => false,
        },
{
    let entries = match read_zip_entries(archive) {
        Ok(v) => v,
        Err(message) => {
            return Err(ExtractError::Archive { message });
        },
    };
    let ghost model = zip_parse(archive@)->0;
    let mut ops: Vec<ExtractOp> = Vec::new();
    let mut i: usize = 0;
    while i < entries.len()
        invariant
            0 <= i <= entries.len(),
            entries.deep_view() == model,
            model == zip_parse(archive@)->0,
            zip_parse(archive@) is Some,
            forall|j: int| 0 <= j < i ==> spec_safe_entry(#[trigger] model[j].name),
            ops.deep_view() =~= spec_zip_plan(model.subrange(0, i as int), dest@),
        decreases entries.len() - i,
    {
        let e = &entries[i];
        if !is_safe_entry(e.name.as_str()) {
            proof {
                assert(!spec_safe_entry(model[i as int].name));
            }
            return Err(ExtractError::UnsafeName { name: e.name.clone() });
        }
        let path = crate::paths::join_under(dest, e.name.as_str());
        let ghost old_ops = ops.deep_view();
        if e.is_dir {
            ops.push(ExtractOp::Dir { path });
        } else {
            ops.push(ExtractOp::File { path, data: e.data.clone(), mode: Option::None });
        }
        proof {
            assert(ops.deep_view() =~= old_ops.push(spec_zip_op(model[i as int], dest@)));
            assert(model.subrange(0, i + 1) =~= model.subrange(0, i as int).push(
                model[i as int],
            ));
            assert(ops.deep_view() =~= spec_zip_plan(model.subrange(0, i + 1), dest@));
        }
        i = i + 1;
    }
    proof {
        assert(model.subrange(0, model.len() as int) =~= model);
        assert(ops.deep_view() =~= spec_zip_plan(model, dest@));
    }
    Ok(ops)
}

/// One entry of a tar archive, as decoded from the archive bytes: its name,
/// the link target of a link entry, the raw entry-type byte of its header,
/// its permission bits and its contents.
pub struct TarEntry {
    pub name: String,
    pub target: Option<String>,
    pub typeflag: u8,
    pub mode: u32,
    pub data: Vec<u8>,
}

/// The mathematical model of a [`TarEntry`].
pub struct TarEntryV {
    pub name: Seq<char>,
    pub target: Option<Seq<char>>,
    pub typeflag: u8,
    pub mode: u32,
    pub data: Seq<u8>,
}

impl View for TarEntry {
    type V = TarEntryV;

    open spec fn view(&self) -> TarEntryV {
        TarEntryV {
            name: self.name@,
            target: match self.target {
                Option::Some(t) => Option::Some(t@),
                Option::None => Option::None,
            },
            typeflag: self.typeflag,
            mode: self.mode,
            data: self.data@,
        }
    }
}

impl DeepView for TarEntry {
    type V = TarEntryV;

    open spec fn deep_view(&self) -> TarEntryV {
        self.view()
    }
}

/// What decoding a tar archive yields: `None` on a malformed archive,
/// otherwise its entries in archive order.
pub uninterp spec fn tar_parse(bytes: Seq<u8>) -> Option<Seq<TarEntryV>>;

#[verifier::external_type_specification]
#[verifier::external_body]
pub struct ExIoError(std::io::Error);

/// Relies on std::io::Error's own rendering of its message.
#[verifier::external_body]
fn io_error_message(e: &std::io::Error) -> String {
    e.to_string()
}

/// Relies on tar::Archive (entries) and tar::Entry (path_bytes,
/// link_name_bytes, header, read): decoding an in-memory archive is a
/// function of the bytes alone; it fails exactly on a malformed archive,
/// header or entry name. A link target that is not unicode keeps its valid
/// part, with the replacement character elsewhere.
#[verifier::external_body]
fn read_tar_entries(bytes: &Vec<u8>) -> (r: Result<Vec<TarEntry>, std::io::Error>)
    ensures
        r is Ok <==> tar_parse(bytes@) is Some,
        r matches Ok(v) ==> v.deep_view() == tar_parse(bytes@)->0,
{
    let mut ar = tar::Archive::new(bytes.as_slice());
    let mut out: Vec<TarEntry> = Vec::new();
    for ent in ar.entries()? {
        let mut ent = ent?;
        let name = String::from_utf8(ent.path_bytes().to_vec()).map_err(std::io::Error::other)?;
        let target = ent.link_name_bytes().map(|b| String::from_utf8_lossy(&b).into_owned());
        let mode = ent.header().mode()?;
        let typeflag = ent.header().entry_type().as_byte();
        let mut data: Vec<u8> = Vec::new();
        std::io::Read::read_to_end(&mut ent, &mut data)?;
        out.push(TarEntry { name, target, typeflag, mode, data });
    }
    Ok(out)
}

/// The entry-type byte of a regular file written as an ASCII zero.
pub const TAR_TYPE_REGULAR: u8 = 48;

/// The entry-type byte of a regular file written as a NUL byte.
pub const TAR_TYPE_REGULAR_OLD: u8 = 0;

/// The entry-type byte of a symbolic link.
pub const TAR_TYPE_SYMLINK: u8 = 50;

/// The entry-type byte of a directory.
pub const TAR_TYPE_DIRECTORY: u8 = 53;

/// The tar entry types the extractor supports: regular files (both type
/// bytes), directories and symbolic links.
pub open spec fn spec_tar_supported(flag: u8) -> bool {
    flag == TAR_TYPE_REGULAR_OLD || flag == TAR_TYPE_REGULAR || flag == TAR_TYPE_DIRECTORY
        || flag == TAR_TYPE_SYMLINK
}

/// Whether one tar entry is safe to extract: a safe name, a supported entry
/// type, and for a symbolic link a present target that stays inside the
/// destination.
pub open spec fn spec_tar_entry_ok(e: TarEntryV) -> bool {
    &&& spec_safe_entry(e.name)
    &&& spec_tar_supported(e.typeflag)
    &&& (e.typeflag == TAR_TYPE_SYMLINK ==> (e.target matches Some(t) && spec_safe_link(e.name, t)))
}

/// Whether every entry of a tar archive is safe to extract.
pub open spec fn spec_tar_all_ok(entries: Seq<TarEntryV>) -> bool {
    forall|i: int| 0 <= i < entries.len() ==> #[trigger] spec_tar_entry_ok(entries[i])
}

/// The operation one safe tar entry turns into.
pub open spec fn spec_tar_op(e: TarEntryV, dest: Seq<char>) -> ExtractOpV {
    if e.typeflag == TAR_TYPE_DIRECTORY {
        ExtractOpV::Dir { path: dest + "/"@ + e.name }
    } else if e.typeflag == TAR_TYPE_SYMLINK {
        ExtractOpV::Symlink { path: dest + "/"@ + e.name, target: e.target->0 }
    } else {
        ExtractOpV::File { path: dest + "/"@ + e.name, data: e.data, mode: Option::Some(e.mode) }
    }
}

/// The plan a safe tar archive turns into, in archive order.
pub open spec fn spec_tar_plan(entries: Seq<TarEntryV>, dest: Seq<char>) -> Seq<ExtractOpV> {
    entries.map_values(|e: TarEntryV| spec_tar_op(e, dest))
}

/// Plans the extraction of a tar archive into the destination directory,
/// preserving permissions and symbolic links per entry metadata.
///
/// Succeeds exactly when the archive decodes and every entry is safe; the
/// plan then holds one operation per entry, in archive order. A malformed
/// archive reports `Archive`; the first bad entry reports `UnsafeName`,
/// `Unsupported` or `BadLink`, and nothing is extracted.
pub fn extract_tar_archive(archive: &Vec<u8>, dest: &str) -> (r: Result<
    Vec<ExtractOp>,
    ExtractError,
>)
    ensures
        r is Ok <==> (tar_parse(archive@) is Some && spec_tar_all_ok(tar_parse(archive@)->0)),
        r matches Ok(ops) ==> ops.deep_view() == spec_tar_plan(tar_parse(archive@)->0, dest@),
        r matches Err(e) ==> (e is Archive <==> tar_parse(archive@) is None),
        r matches Err(e) ==> match e {
            ExtractError::Archive { message } => true,
            ExtractError::UnsafeName { name } => exists|k: int|
                {
                    &&& #[trigger] spec_tar_first_bad(tar_parse(archive@)->0, k)
                    &&& !spec_safe_entry(tar_parse(archive@)->0[k].name)
                    &&& name@ == tar_parse(archive@)->0[k].name
                },
            ExtractError::Unsupported { name } => exists|k: int|
                {
                    &&& #[trigger] spec_tar_first_bad(tar_parse(archive@)->0, k)
                    &&& spec_safe_entry(tar_parse(archive@)->0[k].name)
                    &&& !spec_tar_supported(tar_parse(archive@)->0[k].typeflag)
                    &&& name@ == tar_parse(archive@)->0[k].name
                },
            ExtractError::BadLink { name } => exists|k: int|
                {
                    &&& #[trigger] spec_tar_first_bad(tar_parse(archive@)->0, k)
                    &&& spec_safe_entry(tar_parse(archive@)->0[k].name)
                    &&& tar_parse(archive@)->0[k].typeflag == TAR_TYPE_SYMLINK
                    &&& name@ == tar_parse(archive@)->0[k].name
                },
        },
{
    let entries = match read_tar_entries(archive) {
        Ok(v) => v,
        Err(e) => {
            return Err(ExtractError::Archive { message: io_error_message(&e) });
        },
    };
    let ghost model = tar_parse(archive@)->0;
    let mut ops: Vec<ExtractOp> = Vec::new();
    let mut i: usize = 0;
    while i < entries.len()
        invariant
            0 <= i <= entries.len(),
            entries.deep_view() == model,
            model == tar_parse(archive@)->0,
            tar_parse(archive@) is Some,
            forall|j: int| 0 <= j < i ==> #[trigger] spec_tar_entry_ok(model[j]),
            ops.deep_view() =~= spec_tar_plan(model.subrange(0, i as int), dest@),
        decreases entries.len() - i,
    {
        let e = &entries[i];
        if !is_safe_entry(e.name.as_str()) {
            proof {
                assert(spec_tar_first_bad(model, i as int));
            }
            return Err(ExtractError::UnsafeName { name: e.name.clone() });
        }
        let path = crate::paths::join_under(dest, e.name.as_str());
        let ghost old_ops = ops.deep_view();
        if e.typeflag == TAR_TYPE_DIRECTORY {
            ops.push(ExtractOp::Dir { path });
        } else if e.typeflag == TAR_TYPE_SYMLINK {
            match &e.target {
                Option::Some(t) => {
                    if is_safe_link(e.name.as_str(), t.as_str()) {
                        ops.push(ExtractOp::Symlink { path, target: t.clone() });
                    } else {
                        proof {
                            assert(spec_tar_first_bad(model, i as int));
                        }
                        return Err(ExtractError::BadLink { name: e.name.clone() });
                    }
                },
                Option::None => {
                    proof {
                        assert(spec_tar_first_bad(model, i as int));
                    }
                    return Err(ExtractError::BadLink { name: e.name.clone() });
                },
            }
        } else if e.typeflag == TAR_TYPE_REGULAR_OLD || e.typeflag == TAR_TYPE_REGULAR {
            ops.push(ExtractOp::File { path, data: e.data.clone(), mode: Option::Some(e.mode) });
        } else {
            proof {
                assert(spec_tar_first_bad(model, i as int));
            }
            return Err(ExtractError::Unsupported { name: e.name.clone() });
        }
        proof {
            assert(ops.deep_view() =~= old_ops.push(spec_tar_op(model[i as int], dest@)));
            assert(model.subrange(0, i + 1) =~= model.subrange(0, i as int).push(
                model[i as int],
            ));
            assert(ops.deep_view() =~= spec_tar_plan(model.subrange(0, i + 1), dest@));
        }
        i = i + 1;
    }
    proof {
        assert(model.subrange(0, model.len() as int) =~= model);
        assert(ops.deep_view() =~= spec_tar_plan(model, dest@));
    }
    Ok(ops)
}

/// Whether position `k` holds the first unsafe entry of a tar archive.
pub open spec fn spec_tar_first_bad(entries: Seq<TarEntryV>, k: int) -> bool {
    &&& 0 <= k < entries.len()
    &&& forall|j: int| 0 <= j < k ==> #[trigger] spec_tar_entry_ok(entries[j])
    &&& !spec_tar_entry_ok(entries[k])
}

/// What decompressing an lzma (xz) stream yields: `None` on corrupt input,
/// otherwise the decompressed bytes.
pub uninterp spec fn lzma_plain(bytes: Seq<u8>) -> Option<Seq<u8>>;

/// Relies on lzma::decompress: decoding an in-memory buffer is a function of
/// the bytes alone; it fails exactly on corrupt input.
#[verifier::external_body]
fn lzma_decode(bytes: &Vec<u8>) -> (r: Result<Vec<u8>, String>)
    ensures
        r is Ok <==> lzma_plain(bytes@) is Some,
        r matches Ok(v) ==> v@ == lzma_plain(bytes@)->0,
{
    lzma::decompress(bytes.as_slice()).map_err(|e| e.to_string())
}

/// What decompressing a bzip2 stream yields: `None` on corrupt input,
/// otherwise the decompressed bytes.
pub uninterp spec fn bzip2_plain(bytes: Seq<u8>) -> Option<Seq<u8>>;

/// Relies on bzip2_rs::DecoderReader: decoding an in-memory buffer is a
/// function of the bytes alone; it fails exactly on corrupt input.
#[verifier::external_body]
fn bzip2_decode(bytes: &Vec<u8>) -> (r: Result<Vec<u8>, String>)
    ensures
        r is Ok <==> bzip2_plain(bytes@) is Some,
        r matches Ok(v) ==> v@ == bzip2_plain(bytes@)->0,
{
    let mut reader = bzip2_rs::DecoderReader::new(bytes.as_slice());
    let mut out: Vec<u8> = Vec::new();
    std::io::Read::read_to_end(&mut reader, &mut out).map_err(|e| e.to_string())?;
    Ok(out)
}

/// Plans the extraction of an lzma-compressed stream to one output file.
///
/// The output path must be a safe relative path; the plan then holds exactly
/// one file write of the decompressed bytes. An unsafe path reports
/// `UnsafeName` without decoding; corrupt input reports `Archive`.
pub fn extract_lzma(archive: &Vec<u8>, path: &str) -> (r: Result<Vec<ExtractOp>, ExtractError>)
    ensures
        r is Ok <==> (spec_safe_entry(path@) && lzma_plain(archive@) is Some),
        r matches Ok(ops) ==> ops.deep_view() =~= seq![
            (ExtractOpV::File { path: path@, data: lzma_plain(archive@)->0, mode: Option::None }),
        ],
        r matches Err(e) ==> match e {
            ExtractError::UnsafeName { name } => !spec_safe_entry(path@) && name@ == path@,
            ExtractError::Archive { message } => spec_safe_entry(path@) && lzma_plain(archive@)
                is None,
            _ => false,
        },
{
    if !is_safe_entry(path) {
        return Err(ExtractError::UnsafeName { name: String::from_str(path) });
    }
    match lzma_decode(archive) {
        Ok(data) => {
            let mut ops: Vec<ExtractOp> = Vec::new();
            ops.push(ExtractOp::File { path: String::from_str(path), data, mode: Option::None });
            Ok(ops)
        },
        Err(message) => Err(ExtractError::Archive { message }),
    }
}

/// Plans the extraction of a bzip2-compressed stream to one output file.
///
/// The output path must be a safe relative path; the plan then holds exactly
/// one file write of the decompressed bytes. An unsafe path reports
/// `UnsafeName` without decoding; corrupt input reports `Archive`.
pub fn extract_bzip2(archive: &Vec<u8>, path: &str) -> (r: Result<Vec<ExtractOp>, ExtractError>)
    ensures
        r is Ok <==> (spec_safe_entry(path@) && bzip2_plain(archive@) is Some),
        r matches Ok(ops) ==> ops.deep_view() =~= seq![
            (ExtractOpV::File { path: path@, data: bzip2_plain(archive@)->0, mode: Option::None }),
        ],
        r matches Err(e) ==> match e {
            ExtractError::UnsafeName { name } => !spec_safe_entry(path@) && name@ == path@,
            ExtractError::Archive { message } => spec_safe_entry(path@) && bzip2_plain(archive@)
                is None,
            _ => false,
        },
{
    if !is_safe_entry(path) {
        return Err(ExtractError::UnsafeName { name: String::from_str(path) });
    }
    match bzip2_decode(archive) {
        Ok(data) => {
            let mut ops: Vec<ExtractOp> = Vec::new();
            ops.push(ExtractOp::File { path: String::from_str(path), data, mode: Option::None });
            Ok(ops)
        },
        Err(message) => Err(ExtractError::Archive { message }),
    }
}

/// The path an extraction operation writes, creates or links at.
pub open spec fn spec_op_path(op: ExtractOpV) -> Seq<char> {
    match op {
        ExtractOpV::Dir { path } => path,
        ExtractOpV::File { path, data, mode } => path,
        ExtractOpV::Symlink { path, target } => path,
    }
}

/// Every operation of a successful zip extraction plan writes underneath
/// the destination directory: its path is the destination extended with one
/// safe, non-escaping relative entry name.
pub proof fn lemma_zip_plan_writes_under_destination(
    entries: Seq<ZipEntryV>,
    dest: Seq<char>,
    i: int,
)
    requires
        spec_zip_all_safe(entries),
        0 <= i < entries.len(),
    ensures
        spec_op_path(spec_zip_plan(entries, dest)[i]) == dest + "/"@ + entries[i].name,
        spec_safe_entry(entries[i].name),
{
}

/// Every operation of a successful tar extraction plan writes underneath
/// the destination directory: its path is the destination extended with one
/// safe, non-escaping relative entry name.
pub proof fn lemma_tar_plan_writes_under_destination(
    entries: Seq<TarEntryV>,
    dest: Seq<char>,
    i: int,
)
    requires
        spec_tar_all_ok(entries),
        0 <= i < entries.len(),
    ensures
        spec_op_path(spec_tar_plan(entries, dest)[i]) == dest + "/"@ + entries[i].name,
        spec_safe_entry(entries[i].name),
{
    assert(spec_tar_entry_ok(entries[i]));
}

} // verus!
