//! Reading the zip archives that the tool downloads, through the `zip` crate.
//! An open archive is a collection of entries; each entry is read out as its
//! name, its names as made safe for extraction and, where they are needed,
//! its decompressed bytes.
use vstd::prelude::*;
use std::io::Cursor;
use zip::ZipArchive;
use zip::result::ZipError;
use crate::text::{contains_str, ends_with_str, seq_contains, seq_ends_with};

verus! {

#[verifier::external_type_specification]
#[verifier::external_body]
#[verifier::reject_recursive_types(R)]
pub struct ExZipArchive<R>(ZipArchive<R>);

#[verifier::external_type_specification]
#[verifier::external_body]
pub struct ExZipError(ZipError);

#[verifier::external_type_specification]
#[verifier::external_body]
#[verifier::reject_recursive_types(T)]
pub struct ExCursor<T>(Cursor<T>);

/// What `ZipArchive::new` makes of `bytes`: `None` where it refuses them;
/// else the archive's entries in order, each `None` where `by_index` fails on
/// it, else its name and, where reading it to its end succeeds, its
/// decompressed contents.
pub uninterp spec fn zip_contents(bytes: Seq<u8>) -> Option<Seq<Option<(Seq<char>, Option<Seq<u8>>)>>>;

/// The entries that an open archive holds, in order, of the same shape as
/// `zip_contents`.
pub uninterp spec fn archive_entries(archive: ZipArchive<Cursor<Vec<u8>>>) -> Seq<Option<(Seq<char>, Option<Seq<u8>>)>>;

/// The stored entry `stored` can be read to its end.
pub open spec fn entry_reads(stored: Option<(Seq<char>, Option<Seq<u8>>)>) -> bool {
    stored matches Some((_, c)) && c is Some
}

/// The contents of the stored entry `stored`, where it can be read to its end.
pub open spec fn stored_contents(stored: Option<(Seq<char>, Option<Seq<u8>>)>) -> Option<Seq<u8>> {
    match stored {
        Some((_, c)) => c,
        None => None,
    }
}

/// `bytes` open as a zip archive and every entry of it reads to its end.
pub open spec fn zip_reads(bytes: Seq<u8>) -> bool {
    &&& zip_contents(bytes) is Some
    &&& forall|i: int| 0 <= i < zip_contents(bytes)->0.len() ==> entry_reads(#[trigger] zip_contents(bytes)->0[i])
}

/// The pieces of `p` between its `/`s, in order: `"a//b/"` has the pieces
/// `a`, ``, `b` and ``.
pub open spec fn pieces(p: Seq<char>) -> Seq<Seq<char>>
    decreases p.len(),
{
    if p.len() == 0 {
        seq![seq![]]
    } else {
        let ps = pieces(p.drop_last());
        if p.last() == '/' {
            ps.push(seq![])
        } else {
            ps.update(ps.len() - 1, ps.last().push(p.last()))
        }
    }
}

/// Walking the pieces `ps` from the depth `depth`, up to the first piece that
/// holds a `\`: `..` goes up one, an empty piece or `.` stays, any other
/// piece goes down one; the walk never goes above the start.
pub open spec fn stays_within(ps: Seq<Seq<char>>, depth: int) -> bool
    decreases ps.len(),
{
    if ps.len() == 0 {
        true
    } else if ps[0].contains('\\') {
        true
    } else if ps[0] == ".."@ {
        depth >= 1 && stays_within(ps.drop_first(), depth - 1)
    } else if ps[0].len() == 0 || ps[0] == "."@ {
        stays_within(ps.drop_first(), depth)
    } else {
        stays_within(ps.drop_first(), depth + 1)
    }
}

/// What an enclosed name is, whatever the platform's path syntax: it holds no
/// NUL, does not begin with `/`, and its `/`-separated pieces never climb
/// above its start (up to a piece holding `\`, which only some platforms
/// read as a separator).
pub open spec fn enclosed_shape(p: Seq<char>) -> bool {
    &&& !p.contains('\0')
    &&& !(p.len() > 0 && p[0] == '/')
    &&& stays_within(pieces(p), 0)
}

/// The pieces of `p` between its separators, `/` and `\` alike.
pub open spec fn all_pieces(p: Seq<char>) -> Seq<Seq<char>>
    decreases p.len(),
{
    if p.len() == 0 {
        seq![seq![]]
    } else {
        let ps = all_pieces(p.drop_last());
        if p.last() == '/' || p.last() == '\\' {
            ps.push(seq![])
        } else {
            ps.update(ps.len() - 1, ps.last().push(p.last()))
        }
    }
}

/// What a mangled name is, whatever the platform's path syntax: it holds no
/// NUL and, unless empty, every piece between its separators is a plain
/// name, neither empty nor `.` nor `..`.
pub open spec fn mangled_shape(m: Seq<char>) -> bool {
    &&& !m.contains('\0')
    &&& m.len() > 0 ==> forall|k: int| 0 <= k < all_pieces(m).len() ==> {
        let q = #[trigger] all_pieces(m)[k];
        q.len() > 0 && q != "."@ && q != ".."@
    }
}

/// A name that every platform reads as a relative path inside its folder:
/// no NUL, no `\`, no `:`, not beginning with `/`, and its pieces never
/// climb above its start.
pub open spec fn plain_name(p: Seq<char>) -> bool {
    &&& !p.contains('\0')
    &&& !p.contains('\\')
    &&& !p.contains(':')
    &&& !(p.len() > 0 && p[0] == '/')
    &&& stays_within(pieces(p), 0)
}

/// One entry of an archive.
pub struct ZipEntry {
    /// The name as stored in the archive.
    pub name: String,
    /// The name where it is safe to extract to (no absolute path, no escape
    /// above the target directory, no NUL), as `enclosed_name` gives it.
    pub enclosed_name: Option<String>,
    /// The name with its absolute and parent parts dropped, as
    /// `mangled_name` gives it.
    pub mangled_name: String,
    /// The decompressed contents, where they were read; else empty.
    pub contents: Vec<u8>,
}

/// The view of a `ZipEntry`.
pub struct EntryView {
    pub name: Seq<char>,
    pub enclosed_name: Option<Seq<char>>,
    pub mangled_name: Seq<char>,
    pub contents: Seq<u8>,
}

impl View for ZipEntry {
    type V = EntryView;

    open spec fn view(&self) -> EntryView {
        EntryView {
            name: self.name@,
            enclosed_name: match self.enclosed_name {
                Some(p) => Some(p@),
                None => None,
            },
            mangled_name: self.mangled_name@,
            contents: self.contents@,
        }
    }
}

/// The names of `e` are as the zip crate gives them: the enclosed name,
/// where there is one, is the name itself and has the shape of an enclosed
/// name; a plain name always has an enclosed name; the mangled name has the
/// shape of a mangled name.
pub open spec fn well_named(e: EntryView) -> bool {
    &&& e.enclosed_name matches Some(p) ==> p == e.name && enclosed_shape(p)
    &&& plain_name(e.name) ==> e.enclosed_name == Some(e.name)
    &&& mangled_shape(e.mangled_name)
}

/// `e` holds the names of the stored entry `stored`.
pub open spec fn header_of(e: EntryView, stored: Option<(Seq<char>, Option<Seq<u8>>)>) -> bool {
    &&& stored matches Some((n, _)) && n == e.name
    &&& well_named(e)
}

/// `e` is what reading out the stored entry `stored` to its end gives.
pub open spec fn read_out(e: EntryView, stored: Option<(Seq<char>, Option<Seq<u8>>)>) -> bool {
    &&& stored == Some((e.name, Some(e.contents)))
    &&& well_named(e)
}

/// `es` are the stored entries `stored`, read out one by one.
pub open spec fn read_out_all(es: Seq<EntryView>, stored: Seq<Option<(Seq<char>, Option<Seq<u8>>)>>) -> bool {
    &&& es.len() == stored.len()
    &&& forall|i: int| 0 <= i < es.len() ==> read_out(#[trigger] es[i], stored[i])
}

/// `es` are the entries of the archive held in `bytes`, read out one by one.
pub open spec fn read_out_bytes(es: Seq<EntryView>, bytes: Seq<u8>) -> bool {
    &&& zip_contents(bytes) is Some
    &&& read_out_all(es, zip_contents(bytes)->0)
}

/// The views of the entries `v`.
pub open spec fn entry_views(v: Seq<ZipEntry>) -> Seq<EntryView> {
    v.map_values(|e: ZipEntry| e@)
}

// ---------------------------------------------------------------------------
// Reading for extraction
// ---------------------------------------------------------------------------

/// Which entries an extraction passes over.
#[derive(Clone, Copy, Debug, PartialEq, Eq, Structural)]
pub enum NameRule {
    /// Passes over macOS metadata and entries without an enclosed name.
    SafeNames,
    /// Passes over no entry.
    StoredNames,
}

/// The entry `e` is a directory: its name ends with `/`.
pub open spec fn is_dir_entry(e: EntryView) -> bool {
    seq_ends_with(e.name, "/"@)
}

/// An extraction under `rule` passes over the entry `e`.
pub open spec fn passed_over(rule: NameRule, e: EntryView) -> bool {
    rule == NameRule::SafeNames && (seq_contains(e.name, "__MACOSX"@) || e.enclosed_name is None)
}

/// An extraction under `rule` reads the contents of the entry `e`: it is a
/// file that is not passed over.
pub open spec fn needs_contents(rule: NameRule, e: EntryView) -> bool {
    !passed_over(rule, e) && !is_dir_entry(e)
}

/// `e` is what reading the stored entry `stored` for an extraction under
/// `rule` gives: its names and, where the extraction needs them, its
/// contents.
pub open spec fn read_for(rule: NameRule, e: EntryView, stored: Option<(Seq<char>, Option<Seq<u8>>)>) -> bool {
    &&& header_of(e, stored)
    &&& needs_contents(rule, e) ==> stored == Some((e.name, Some(e.contents)))
}

/// Reading the stored entry `stored` for an extraction under `rule` fails:
/// `by_index` fails on it (`None`), or it is the file with the header `h`
/// whose contents are needed and cannot be read to their end.
pub open spec fn read_fails(rule: NameRule, failure: Option<EntryView>, stored: Option<(Seq<char>, Option<Seq<u8>>)>) -> bool {
    match failure {
        None => stored is None,
        Some(h) => {
            &&& header_of(h, stored)
            &&& needs_contents(rule, h)
            &&& !entry_reads(stored)
            &&& h.contents == Seq::<u8>::empty()
        },
    }
}

/// `es` are the entries of the archive held in `bytes`, read one by one for
/// an extraction under `rule` up to the first whose reading fails, which
/// `stop` gives (`None` where every entry was read).
pub open spec fn read_for_extraction(
    rule: NameRule,
    bytes: Seq<u8>,
    es: Seq<EntryView>,
    stop: Option<Option<EntryView>>,
) -> bool {
    &&& zip_contents(bytes) is Some
    &&& es.len() <= zip_contents(bytes)->0.len()
    &&& forall|i: int| 0 <= i < es.len() ==> read_for(rule, #[trigger] es[i], zip_contents(bytes)->0[i])
    &&& (stop is None <==> es.len() == zip_contents(bytes)->0.len())
    &&& stop matches Some(f) ==> read_fails(rule, f, zip_contents(bytes)->0[es.len() as int])
}

/// The view of where a reading for extraction stopped.
pub open spec fn stop_view(stop: Option<(Option<ZipEntry>, ZipError)>) -> Option<Option<EntryView>> {
    match stop {
        None => None,
        Some((h, _)) => Some(
            match h {
                None => None,
                Some(e) => Some(e@),
            },
        ),
    }
}

// ---------------------------------------------------------------------------
// Calls into the zip crate
// ---------------------------------------------------------------------------

/// Opens the archive held in `bytes` with `ZipArchive::new`. It opens exactly
/// where `zip_contents` of the bytes is some, and then holds those entries.
#[verifier::external_body]
pub(crate) fn open_archive(bytes: Vec<u8>) -> (r: Result<ZipArchive<Cursor<Vec<u8>>>, ZipError>)
    ensures
        r is Ok <==> zip_contents(bytes@) is Some,
        r matches Ok(a) ==> zip_contents(bytes@) == Some(archive_entries(a)),
{
    ZipArchive::new(Cursor::new(bytes))
}

/// `ZipArchive::len`: the number of entries.
#[verifier::external_body]
pub(crate) fn archive_len(archive: &ZipArchive<Cursor<Vec<u8>>>) -> (n: usize)
    ensures
        n == archive_entries(*archive).len(),
{
    archive.len()
}

/// `ZipArchive::by_index`, with the entry's `name`, `enclosed_name` and
/// `mangled_name`, its contents left unread. The archive keeps its entries.
/// It succeeds exactly where `i` is in range and `by_index` opens the `i`-th
/// entry, and then gives that entry's name, with names that are `well_named`:
/// - The enclosed name, where there is one, is the name itself, holds no
///   NUL, does not begin with `/`, and its `/`-separated pieces never climb
///   above its start up to a piece holding `\` (`enclosed_name` refuses a
///   root, and a `..` beyond the depth reached, on every platform).
/// - A plain name (no NUL, `\` or `:`, not beginning with `/`, never
///   climbing) has an enclosed name on every platform: it can form no prefix
///   and no root, so `enclosed_name` keeps it.
/// - The mangled name (`file_name_sanitized`: cut at a NUL, the other
///   platform's separator turned into this one's, only normal components
///   kept) holds no NUL, and its pieces between separators are normal ones.
/// Which names beyond these have an enclosed name (with `\` or `:`), and
/// which separator the mangled name uses, depends on the platform's path
/// syntax and is not stated.
#[verifier::external_body]
pub(crate) fn archive_entry_header(archive: &mut ZipArchive<Cursor<Vec<u8>>>, i: usize) -> (r: Result<ZipEntry, ZipError>)
    ensures
        archive_entries(*final(archive)) == archive_entries(*old(archive)),
        r is Ok <==> (i < archive_entries(*old(archive)).len() && archive_entries(*old(archive))[i as int] is Some),
        r matches Ok(e) ==> header_of(e@, archive_entries(*old(archive))[i as int]) && e.contents@ == Seq::<u8>::empty(),
{
    let file = archive.by_index(i)?;
    let enclosed_name = file.enclosed_name().map(|p| p.to_string_lossy().into_owned());
    let mangled_name = file.mangled_name().to_string_lossy().into_owned();
    Ok(ZipEntry { name: file.name().to_string(), enclosed_name, mangled_name, contents: Vec::new() })
}

/// `ZipArchive::by_index` with the entry read to its end. The archive keeps
/// its entries. It succeeds exactly where `i` is in range and the `i`-th
/// entry can be read to its end, and then gives its decompressed contents.
#[verifier::external_body]
pub(crate) fn archive_entry_contents(archive: &mut ZipArchive<Cursor<Vec<u8>>>, i: usize) -> (r: Result<Vec<u8>, ZipError>)
    ensures
        archive_entries(*final(archive)) == archive_entries(*old(archive)),
        r is Ok <==> (i < archive_entries(*old(archive)).len() && entry_reads(archive_entries(*old(archive))[i as int])),
        r matches Ok(c) ==> stored_contents(archive_entries(*old(archive))[i as int]) == Some(c@),
{
    let mut file = archive.by_index(i)?;
    let mut contents = Vec::new();
    std::io::Read::read_to_end(&mut file, &mut contents)?;
    Ok(contents)
}

// ---------------------------------------------------------------------------
// Reading
// ---------------------------------------------------------------------------

/// Whether an extraction under `rule` reads the contents of the entry `e`.
pub fn needs_contents_exec(rule: NameRule, e: &ZipEntry) -> (b: bool)
    ensures
        b == needs_contents(rule, e@),
{
    let passed = match rule {
        NameRule::SafeNames => contains_str(&e.name, "__MACOSX") || e.enclosed_name.is_none(),
        NameRule::StoredNames => false,
    };
    !passed && !ends_with_str(&e.name, "/")
}

/// The entries of the archive held in `bytes`, read in order for an
/// extraction under `rule` (their names, and the contents of the files the
/// extraction writes) up to the first whose reading fails; that failure, with
/// the header of the entry where only its contents failed; or the failure to
/// open the archive. The archive opens exactly where `zip_contents` of the
/// bytes is some.
pub fn read_for_extraction_exec(rule: NameRule, bytes: Vec<u8>) -> (r: Result<(Vec<ZipEntry>, Option<(Option<ZipEntry>, ZipError)>), ZipError>)
    ensures
        r is Ok <==> zip_contents(bytes@) is Some,
        r matches Ok((v, stop)) ==> read_for_extraction(rule, bytes@, entry_views(v@), stop_view(stop)),
{
    let ghost b = bytes@;
    let mut archive = match open_archive(bytes) {
        Ok(a) => a,
        Err(e) => return Err(e),
    };
    let ghost stored = archive_entries(archive);
    let n = archive_len(&archive);
    let mut out: Vec<ZipEntry> = Vec::new();
    let mut i: usize = 0;
    while i < n
        invariant
            b == bytes@,
            zip_contents(b) == Some(stored),
            archive_entries(archive) == stored,
            n == stored.len(),
            i <= n,
            out.len() == i,
            forall|j: int| 0 <= j < i ==> read_for(rule, #[trigger] out@[j]@, stored[j]),
        decreases n - i,
    {
        let mut e = match archive_entry_header(&mut archive, i) {
            Ok(e) => e,
            Err(err) => {
                proof {
                    lemma_views_read_for(rule, out@, stored);
                }
                return Ok((out, Some((None, err))));
            },
        };
        if needs_contents_exec(rule, &e) {
            match archive_entry_contents(&mut archive, i) {
                Ok(c) => {
                    e.contents = c;
                },
                Err(err) => {
                    proof {
                        lemma_views_read_for(rule, out@, stored);
                    }
                    return Ok((out, Some((Some(e), err))));
                },
            }
        }
        out.push(e);
        i = i + 1;
    }
    proof {
        lemma_views_read_for(rule, out@, stored);
    }
    Ok((out, None))
}

proof fn lemma_views_read_for(rule: NameRule, out: Seq<ZipEntry>, stored: Seq<Option<(Seq<char>, Option<Seq<u8>>)>>)
    requires
        out.len() <= stored.len(),
        forall|j: int| 0 <= j < out.len() ==> read_for(rule, #[trigger] out[j]@, stored[j]),
    ensures
        entry_views(out).len() == out.len(),
        forall|j: int| 0 <= j < out.len() ==> read_for(rule, #[trigger] entry_views(out)[j], stored[j]),
{
    assert forall|j: int| 0 <= j < out.len() implies read_for(rule, #[trigger] entry_views(out)[j], stored[j]) by {
        assert(entry_views(out)[j] == out[j]@);
    }
}

/// Every entry of the archive held in `bytes`, read out to its end, in order;
/// the first failure to open the archive or to read an entry. It succeeds
/// exactly where the bytes open as an archive whose every entry reads to its
/// end.
pub fn read_archive(bytes: Vec<u8>) -> (r: Result<Vec<ZipEntry>, ZipError>)
    ensures
        r is Ok <==> zip_reads(bytes@),
        r matches Ok(v) ==> read_out_bytes(entry_views(v@), bytes@),
{
    let ghost b = bytes@;
    let mut archive = match open_archive(bytes) {
        Ok(a) => a,
        Err(e) => return Err(e),
    };
    let ghost stored = archive_entries(archive);
    let n = archive_len(&archive);
    let mut out: Vec<ZipEntry> = Vec::new();
    let mut i: usize = 0;
    while i < n
        invariant
            b == bytes@,
            zip_contents(b) == Some(stored),
            archive_entries(archive) == stored,
            n == stored.len(),
            i <= n,
            out.len() == i,
            forall|j: int| 0 <= j < i ==> read_out(#[trigger] out@[j]@, stored[j]),
        decreases n - i,
    {
        let mut e = match archive_entry_header(&mut archive, i) {
            Ok(e) => e,
            Err(err) => {
                proof {
                    assert(!entry_reads(zip_contents(b)->0[i as int]));
                }
                return Err(err);
            },
        };
        match archive_entry_contents(&mut archive, i) {
            Ok(c) => {
                e.contents = c;
            },
            Err(err) => {
                proof {
                    assert(!entry_reads(zip_contents(b)->0[i as int]));
                }
                return Err(err);
            },
        }
        out.push(e);
        i = i + 1;
    }
    proof {
        assert forall|j: int| 0 <= j < entry_views(out@).len() implies read_out(#[trigger] entry_views(out@)[j], stored[j]) by {
            assert(entry_views(out@)[j] == out@[j]@);
        }
        assert forall|j: int| 0 <= j < zip_contents(b)->0.len() implies entry_reads(#[trigger] zip_contents(b)->0[j]) by {
            assert(read_out(out@[j]@, stored[j]));
        }
    }
    Ok(out)
}

/// The error's `Debug` text (its `Debug` impl), as a failed `expect` shows
/// it. Nothing is stated of the text: it is produced by the crate's `Debug`
/// impl of an opaque error, which no contract here describes.
#[verifier::external_body]
pub(crate) fn zip_error_text(e: &ZipError) -> String {
    format!("{:?}", e)
}

/// The error's message (its `Display` impl). Nothing is stated of the text:
/// it is produced by the crate's `Display` impl of an opaque error, which no
/// contract here describes.
#[verifier::external_body]
pub(crate) fn zip_error_message(e: &ZipError) -> String {
    format!("{}", e)
}

} // verus!
