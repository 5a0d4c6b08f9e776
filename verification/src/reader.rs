//! Acquisition of a bundle from its three sources, and transcoding of the
//! legacy single-byte member-file text.
//!
//! Reading bytes from disk stays outside the library; the reader types here
//! classify a source by the shape of its path, unpack in-memory archives,
//! and assemble member entries into a bundle.

use vstd::prelude::*;

use crate::bundle::{bundle_from_entries_rel, EdigeoBundle, MemberEntry};
use crate::error::EdigeoError;
use crate::text::{rfind_char, rfind_idx};

verus! {

/// The text that the legacy decoding yields for a byte sequence: the
/// windows-1252 decoding, after byte-order-mark sniffing.
pub uninterp spec fn latin1_of(bytes: Seq<u8>) -> Seq<char>;

/// Whether a byte sequence starts with one of the three byte-order marks
/// that switch the decoding away from windows-1252.
pub open spec fn has_bom_prefix(bytes: Seq<u8>) -> bool {
    ||| (bytes.len() >= 3 && bytes[0] == 0xef && bytes[1] == 0xbb && bytes[2] == 0xbf)
    ||| (bytes.len() >= 2 && bytes[0] == 0xff && bytes[1] == 0xfe)
    ||| (bytes.len() >= 2 && bytes[0] == 0xfe && bytes[1] == 0xff)
}

/// Decodes the raw bytes of a member file to text.
///
/// Relies on `encoding_rs`: `WINDOWS_1252.decode` sniffs a leading
/// byte-order mark and otherwise decodes with the windows-1252 table, a
/// single-byte encoding whose 256 positions are all defined, so that
/// without such a mark every byte yields exactly one character, bytes below
/// 128 yield themselves, and no error can occur.
#[verifier::external_body]
pub fn decode_file(data: &[u8]) -> (r: String)
    ensures
        r@ == latin1_of(data@),
        !has_bom_prefix(data@) ==> r@.len() == data@.len(),
        !has_bom_prefix(data@) ==> forall|i: int|
            0 <= i < data@.len() && data@[i] < 128 ==> r@[i] == data@[i] as char,
{
    let (cow, _encoding_used, _had_errors) = encoding_rs::WINDOWS_1252.decode(data);
    cow.into_owned()
}

/// The member entries that unpacking a compressed tape archive yields for
/// a byte sequence, in archive order, or nothing when the bytes do not
/// unpack: a function of the bytes alone.
pub uninterp spec fn tar_bz2_entries(bytes: Seq<u8>) -> Option<Seq<(Seq<char>, Seq<u8>)>>;

/// Unpacks an in-memory compressed tape archive into its member entries.
///
/// Relies on `bzip2`'s `BzDecoder` and `tar`'s `Archive`: decompressing a
/// byte buffer and walking the entries of the resulting tape archive, each
/// entry read to its end, is deterministic in the buffer's bytes alone.
#[verifier::external_body]
fn unpack_archive(data: &[u8]) -> (r: Result<Vec<MemberEntry>, EdigeoError>)
    ensures
        match tar_bz2_entries(data@) {
            Some(es) => r matches Ok(v) && v@.map_values(|e: MemberEntry| e@) == es,
            None => r matches Err(e) && e == EdigeoError::InvalidArchive,
        },
{
    let bad = |_e: std::io::Error| EdigeoError::InvalidArchive;
    let mut out: Vec<MemberEntry> = Vec::new();
    let mut ar = tar::Archive::new(bzip2::read::BzDecoder::new(data));
    for entry in ar.entries().map_err(bad)? {
        let mut entry = entry.map_err(bad)?;
        let name = entry.path().map_err(bad)?.to_string_lossy().into_owned();
        let mut buf: Vec<u8> = Vec::new();
        std::io::Read::read_to_end(&mut entry, &mut buf).map_err(bad)?;
        out.push(MemberEntry { name, data: buf });
    }
    Ok(out)
}

/// The raw contents of one source, as handed to a reader: the bytes of a
/// compressed archive, or the member files found beside a manifest or in a
/// directory.
#[derive(Debug, PartialEq, Eq)]
pub enum RawSource {
    /// The bytes of a compressed tape archive.
    Archive(Vec<u8>),
    /// Member files already read, one entry per file.
    Files(Vec<MemberEntry>),
}

/// Building the bundle of one lot from a raw source's contents.
pub trait ExchangeReader {
    /// What reading a bundle from a raw source must satisfy for this
    /// reader.
    spec fn read_bundle_ok(&self, source: RawSource, r: Result<EdigeoBundle, EdigeoError>) -> bool;

    /// Builds the bundle of one lot from the raw source's contents.
    fn read_bundle(&self, source: &RawSource) -> (r: Result<EdigeoBundle, EdigeoError>)
        ensures
            self.read_bundle_ok(*source, r),
    ;
}

/// Reader for a compressed tape archive holding the member files of one
/// lot.
#[derive(Debug, PartialEq, Eq)]
pub struct TarReader {
    /// Path of the archive file.
    pub path: String,
}

/// Reader for a directory holding the member files of one lot.
#[derive(Debug, PartialEq, Eq)]
pub struct DirReader {
    /// Path of the directory.
    pub path: String,
}

/// Reader for a manifest file whose parent directory holds the member
/// files of one lot.
#[derive(Debug, PartialEq, Eq)]
pub struct THFReader {
    /// Path of the manifest file.
    pub path: String,
}

impl TarReader {
    /// A reader for the archive at a path.
    pub fn new(path: &str) -> (r: TarReader)
        ensures
            r.path@ == path@,
    {
        TarReader { path: path.to_owned() }
    }
}

impl DirReader {
    /// A reader for the directory at a path.
    pub fn new(path: &str) -> (r: DirReader)
        ensures
            r.path@ == path@,
    {
        DirReader { path: path.to_owned() }
    }
}

impl THFReader {
    /// A reader for the manifest file at a path.
    pub fn new(path: &str) -> (r: THFReader)
        ensures
            r.path@ == path@,
    {
        THFReader { path: path.to_owned() }
    }
}

impl ExchangeReader for TarReader {
    open spec fn read_bundle_ok(
        &self,
        source: RawSource,
        r: Result<EdigeoBundle, EdigeoError>,
    ) -> bool {
        match source {
            RawSource::Archive(data) => match tar_bz2_entries(data@) {
                Some(es) => bundle_from_entries_rel(es, r),
                None => r matches Err(e) && e == EdigeoError::InvalidArchive,
            },
            RawSource::Files(_) => r matches Err(e) && e == EdigeoError::SourceMismatch,
        }
    }

    fn read_bundle(&self, source: &RawSource) -> (r: Result<EdigeoBundle, EdigeoError>) {
        match source {
            RawSource::Archive(data) => match unpack_archive(data.as_slice()) {
                Ok(entries) => EdigeoBundle::from_entries(&entries),
                Err(e) => Err(e),
            },
            RawSource::Files(_) => Err(EdigeoError::SourceMismatch),
        }
    }
}

impl ExchangeReader for DirReader {
    open spec fn read_bundle_ok(
        &self,
        source: RawSource,
        r: Result<EdigeoBundle, EdigeoError>,
    ) -> bool {
        match source {
            RawSource::Files(entries) => bundle_from_entries_rel(
                entries@.map_values(|e: MemberEntry| e@),
                r,
            ),
            RawSource::Archive(_) => r matches Err(e) && e == EdigeoError::SourceMismatch,
        }
    }

    fn read_bundle(&self, source: &RawSource) -> (r: Result<EdigeoBundle, EdigeoError>) {
        match source {
            RawSource::Files(entries) => EdigeoBundle::from_entries(entries),
            RawSource::Archive(_) => Err(EdigeoError::SourceMismatch),
        }
    }
}

impl ExchangeReader for THFReader {
    open spec fn read_bundle_ok(
        &self,
        source: RawSource,
        r: Result<EdigeoBundle, EdigeoError>,
    ) -> bool {
        match source {
            RawSource::Files(entries) => bundle_from_entries_rel(
                entries@.map_values(|e: MemberEntry| e@),
                r,
            ),
            RawSource::Archive(_) => r matches Err(e) && e == EdigeoError::SourceMismatch,
        }
    }

    fn read_bundle(&self, source: &RawSource) -> (r: Result<EdigeoBundle, EdigeoError>) {
        match source {
            RawSource::Files(entries) => EdigeoBundle::from_entries(entries),
            RawSource::Archive(_) => Err(EdigeoError::SourceMismatch),
        }
    }
}

/// The source kind behind an exchange reader.
#[derive(Debug, PartialEq, Eq)]
pub enum Reader {
    /// A directory holding the member files.
    Dir(DirReader),
    /// A compressed tape archive holding the member files.
    Tar(TarReader),
    /// A manifest file whose parent directory holds the member files.
    File(THFReader),
}

/// The file-name component of a path: what follows the last separator.
pub open spec fn file_name_of(s: Seq<char>) -> Seq<char> {
    match rfind_idx(s, '/') {
        Some(i) => s.subrange(i + 1, s.len() as int),
        None => s,
    }
}

/// The extension of a path: what follows the last `.` of its file name,
/// absent when the file name has no `.` past its first character.
pub open spec fn ext_of(s: Seq<char>) -> Option<Seq<char>> {
    let name = file_name_of(s);
    match rfind_idx(name, '.') {
        Some(j) => {
            if j > 0 {
                Some(name.subrange(j + 1, name.len() as int))
            } else {
                None
            }
        },
        None => None,
    }
}

/// Extracts the extension of a path.
fn path_extension(path: &str) -> (r: Option<String>)
    ensures
        match r {
            Some(e) => ext_of(path@) == Some(e@),
            None => ext_of(path@) is None,
        },
{
    let n: usize = path.unicode_len();
    proof {
        crate::text::lemma_rfind_idx(path@, '/');
    }
    let start: usize = match rfind_char(path, '/') {
        Some(i) => i + 1,
        None => 0,
    };
    let name: &str = path.substring_char(start, n);
    proof {
        assert(name@ =~= file_name_of(path@));
    }
    let m: usize = name.unicode_len();
    proof {
        crate::text::lemma_rfind_idx(name@, '.');
    }
    match rfind_char(name, '.') {
        Some(j) => {
            if j > 0 {
                Some(name.substring_char(j + 1, m).to_owned())
            } else {
                None
            }
        },
        None => None,
    }
}

/// Reader over any of the three sources of an exchange, chosen from the
/// shape of the input path.
#[derive(Debug, PartialEq, Eq)]
pub struct EdigeoReader {
    /// The source kind chosen at construction.
    pub reader: Reader,
}

impl EdigeoReader {
    /// Chooses the source kind from the shape of a path: a directory is
    /// read as a directory, a `bz2` file as a compressed archive, a `THF`
    /// file as a manifest, and any other shape is rejected.
    pub fn new(path: &str, path_is_dir: bool) -> (r: Result<EdigeoReader, EdigeoError>)
        ensures
            path_is_dir ==> (r matches Ok(rd) && rd.reader matches Reader::Dir(d) && d.path@
                == path@),
            !path_is_dir ==> match ext_of(path@) {
                Some(e) => {
                    if e == seq!['b', 'z', '2'] {
                        r matches Ok(rd) && rd.reader matches Reader::Tar(t) && t.path@ == path@
                    } else if e == seq!['T', 'H', 'F'] {
                        r matches Ok(rd) && rd.reader matches Reader::File(f) && f.path@ == path@
                    } else {
                        r matches Err(er) && er matches EdigeoError::InvalidSource(t) && t@
                            == path@
                    }
                },
                None => r matches Err(er) && er matches EdigeoError::InvalidSource(t) && t@
                    == path@,
            },
    {
        if path_is_dir {
            return Ok(EdigeoReader { reader: Reader::Dir(DirReader::new(path)) });
        }
        match path_extension(path) {
            Some(ext) => {
                let e: &str = ext.as_str();
                let elen: usize = e.unicode_len();
                if elen == 3 && e.get_char(0) == 'b' && e.get_char(1) == 'z' && e.get_char(2)
                    == '2' {
                    proof {
                        assert(ext@ =~= seq!['b', 'z', '2']);
                    }
                    Ok(EdigeoReader { reader: Reader::Tar(TarReader::new(path)) })
                } else if elen == 3 && e.get_char(0) == 'T' && e.get_char(1) == 'H' && e.get_char(
                    2,
                ) == 'F' {
                    proof {
                        assert(ext@ =~= seq!['T', 'H', 'F']);
                    }
                    Ok(EdigeoReader { reader: Reader::File(THFReader::new(path)) })
                } else {
                    proof {
                        assert(ext@ != seq!['b', 'z', '2'] && ext@ != seq!['T', 'H', 'F']);
                    }
                    Err(EdigeoError::InvalidSource(path.to_owned()))
                }
            },
            None => Err(EdigeoError::InvalidSource(path.to_owned())),
        }
    }

    /// Builds the bundle of one lot from a raw source's contents, under the
    /// reader kind chosen at construction.
    pub fn read_bundle(&self, source: &RawSource) -> (r: Result<EdigeoBundle, EdigeoError>)
        ensures
            match self.reader {
                Reader::Dir(d) => d.read_bundle_ok(*source, r),
                Reader::Tar(t) => t.read_bundle_ok(*source, r),
                Reader::File(f) => f.read_bundle_ok(*source, r),
            },
    {
        match self.into_inner() {
            Reader::Dir(dir_reader) => dir_reader.read_bundle(source),
            Reader::Tar(tar_reader) => tar_reader.read_bundle(source),
            Reader::File(thf_reader) => thf_reader.read_bundle(source),
        }
    }

    /// A reader over a compressed tape archive.
    pub fn with_tar(path: &str) -> (r: EdigeoReader)
        ensures
            r.reader matches Reader::Tar(t) && t.path@ == path@,
    {
        EdigeoReader { reader: Reader::Tar(TarReader::new(path)) }
    }

    /// A reader over a manifest file.
    pub fn with_thf(path: &str) -> (r: EdigeoReader)
        ensures
            r.reader matches Reader::File(f) && f.path@ == path@,
    {
        EdigeoReader { reader: Reader::File(THFReader::new(path)) }
    }

    /// A reader over a directory.
    pub fn with_dir(path: &str) -> (r: EdigeoReader)
        ensures
            r.reader matches Reader::Dir(d) && d.path@ == path@,
    {
        EdigeoReader { reader: Reader::Dir(DirReader::new(path)) }
    }

    /// The inner source-kind reader.
    fn into_inner(&self) -> (r: &Reader)
        ensures
            r == &self.reader,
    {
        &self.reader
    }
}

} // verus!
