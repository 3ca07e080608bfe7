//! The index at the start of a package: which files it holds, and where
//! their bytes lie.

use crate::cursor::{in_bounds, spec_read_n_string, u32_at, ByteCursor};
use crate::error::TexError;
use vstd::prelude::*;

verus! {

/// What kind of file an entry of a package is.
#[derive(Debug, Clone, Copy, PartialEq, Eq, Structural)]
pub enum ItemType {
    /// A texture: its path has the extension `tex`.
    TexFile,
    /// Anything else.
    OtherFile,
}

/// One file of a package.
#[derive(Debug, Clone, PartialEq, Eq)]
pub struct PkgItem {
    file_path: String,
    offset: u32,
    length: u32,
    file_type: ItemType,
}

/// What a `PkgItem` holds.
pub struct ItemData {
    pub file_path: Seq<char>,
    /// Where the file's bytes start, counted from the end of the index.
    pub offset: u32,
    /// How many bytes the file has.
    pub length: u32,
    pub file_type: ItemType,
}

/// One entry of an index as it is stored: an item without its kind.
pub struct EntryData {
    pub file_path: Seq<char>,
    pub offset: u32,
    pub length: u32,
}

impl View for PkgItem {
    type V = ItemData;

    closed spec fn view(&self) -> ItemData {
        ItemData {
            file_path: self.file_path@,
            offset: self.offset,
            length: self.length,
            file_type: self.file_type,
        }
    }
}

/// The kind of a file whose path has the extension `extension`.
pub open spec fn spec_item_type(extension: Seq<char>) -> ItemType {
    if extension == "tex"@ {
        ItemType::TexFile
    } else {
        ItemType::OtherFile
    }
}

/// `Path::extension` of std, on the path that `path` spells: the extension
/// as text, or `None` where the path has none. Nothing is claimed of it:
/// what counts as a path's last component differs between platforms.
#[verifier::external_body]
fn path_extension(path: &str) -> (extension: Option<String>) {
    match std::path::Path::new(path).extension() {
        Some(extension) => Some(extension.to_string_lossy().into_owned()),
        None => None,
    }
}

impl ItemType {
    /// Tells the kind of a file by the extension of its path.
    pub fn of_extension(extension: &str) -> (kind: ItemType)
        ensures
            kind == spec_item_type(extension@),
    {
        let given = extension.to_owned();
        let tex = "tex".to_owned();
        if given == tex {
            ItemType::TexFile
        } else {
            ItemType::OtherFile
        }
    }
}

impl PkgItem {
    /// The item for a file whose path is known to have the extension
    /// `extension`.
    pub fn with_extension(file_path: &str, extension: &str, offset: u32, length: u32) -> (item:
        PkgItem)
        ensures
            item@ == (ItemData {
                file_path: file_path@,
                offset,
                length,
                file_type: spec_item_type(extension@),
            }),
    {
        PkgItem {
            file_path: file_path.to_owned(),
            offset,
            length,
            file_type: ItemType::of_extension(extension),
        }
    }

    /// The item for the file at `file_path`, its kind told by the path's
    /// extension; `None` where the path has no extension.
    pub fn new(file_path: &str, offset: u32, length: u32) -> (item: Option<PkgItem>)
        ensures
            item matches Some(it) ==> it@.file_path == file_path@ && it@.offset == offset
                && it@.length == length,
    {
        PkgItem::with_found_extension(file_path, path_extension(file_path), offset, length)
    }

    /// The item for a file once the extension of its path has been looked
    /// for: `found` is the extension, or `None` where the path has none, and
    /// then there is no item.
    pub fn with_found_extension(
        file_path: &str,
        found: Option<String>,
        offset: u32,
        length: u32,
    ) -> (item: Option<PkgItem>)
        ensures
            match spec_item_for(
                file_path@,
                match found {
                    Some(extension) => Some(extension@),
                    None => None,
                },
                offset,
                length,
            ) {
                Some(data) => item matches Some(it) && it@ == data,
                None => item is None,
            },
    {
        match found {
            Some(extension) => Some(
                PkgItem::with_extension(file_path, extension.as_str(), offset, length),
            ),
            None => None,
        }
    }

    pub fn file_path(&self) -> (path: &String)
        ensures
            path@ == self@.file_path,
    {
        &self.file_path
    }

    pub fn offset(&self) -> (offset: u32)
        ensures
            offset == self@.offset,
    {
        self.offset
    }

    pub fn length(&self) -> (length: u32)
        ensures
            length == self@.length,
    {
        self.length
    }

    pub fn file_type(&self) -> (kind: ItemType)
        ensures
            kind == self@.file_type,
    {
        self.file_type
    }
}

/// What a file is held as once the extension of its path has been looked
/// for: an item of the kind that the extension tells, and nothing for a path
/// without one.
pub open spec fn spec_item_for(
    file_path: Seq<char>,
    found: Option<Seq<char>>,
    offset: u32,
    length: u32,
) -> Option<ItemData> {
    match found {
        Some(extension) => Some(
            ItemData { file_path, offset, length, file_type: spec_item_type(extension) },
        ),
        None => None,
    }
}

/// A length-prefixed text at `pos`: a little-endian `u32` count of bytes,
/// and that many bytes of UTF-8.
pub open spec fn spec_read_string(bytes: Seq<u8>, pos: int) -> (Result<Seq<char>, TexError>, int) {
    if !in_bounds(bytes, pos, 4) {
        (Err(TexError::TruncatedStream), pos)
    } else {
        spec_read_n_string(bytes, pos + 4, u32_at(bytes, pos) as int)
    }
}

/// One entry at `pos`: the file's path, its offset and its length.
pub open spec fn spec_read_entry(bytes: Seq<u8>, pos: int) -> (Result<EntryData, TexError>, int) {
    match spec_read_string(bytes, pos) {
        (Err(e), end) => (Err(e), end),
        (Ok(file_path), end) => if !in_bounds(bytes, end, 4) {
            (Err(TexError::TruncatedStream), end)
        } else if !in_bounds(bytes, end + 4, 4) {
            (Err(TexError::TruncatedStream), end + 4)
        } else {
            (
                Ok(
                    EntryData {
                        file_path,
                        offset: u32_at(bytes, end),
                        length: u32_at(bytes, end + 4),
                    },
                ),
                end + 8,
            )
        },
    }
}

/// `count` entries from `pos` on, added to `done`. The first failure ends
/// the reading.
pub open spec fn spec_read_entries(bytes: Seq<u8>, pos: int, count: nat, done: Seq<EntryData>) -> (
    Result<Seq<EntryData>, TexError>,
    int,
)
    decreases count,
{
    if count == 0 {
        (Ok(done), pos)
    } else {
        match spec_read_entry(bytes, pos) {
            (Ok(entry), end) => spec_read_entries(bytes, end, (count - 1) as nat, done.push(entry)),
            (Err(e), end) => (Err(e), end),
        }
    }
}

/// The head of the index at `pos`: a length-prefixed text that names the
/// package format, and the number of entries. The outcome is that number,
/// and the position is where the entries begin.
pub open spec fn spec_read_index_head(bytes: Seq<u8>, pos: int) -> (Result<u32, TexError>, int) {
    match spec_read_string(bytes, pos) {
        (Err(e), end) => (Err(e), end),
        (Ok(_), end) => if !in_bounds(bytes, end, 4) {
            (Err(TexError::TruncatedStream), end)
        } else {
            (Ok(u32_at(bytes, end)), end + 4)
        },
    }
}

/// The index at `pos`: its head, and as many entries as the head counts. It
/// ends where the files' bytes begin.
pub open spec fn spec_read_index(bytes: Seq<u8>, pos: int) -> (
    Result<Seq<EntryData>, TexError>,
    int,
) {
    match spec_read_index_head(bytes, pos) {
        (Err(e), end) => (Err(e), end),
        (Ok(count), start) => spec_read_entries(bytes, start, count as nat, Seq::empty()),
    }
}

/// Whether the index at `pos` has an entry number `k`, counted from 0, that
/// can be read as all the entries before it can, and that ends at `end`.
pub open spec fn spec_entry_ends_at(bytes: Seq<u8>, pos: int, k: nat, end: int) -> bool {
    match spec_read_index_head(bytes, pos) {
        (Ok(count), start) => {
            &&& k < count
            &&& spec_read_entries(bytes, start, k + 1, Seq::empty()).0 is Ok
            &&& spec_read_entries(bytes, start, k + 1, Seq::empty()).1 == end
        },
        (Err(_), _) => false,
    }
}

/// Where `n` entries can be read and one more after them, `n + 1` entries
/// can be read, and they are those entries in that order.
pub proof fn lemma_one_more_entry(bytes: Seq<u8>, pos: int, n: nat, done: Seq<EntryData>)
    requires
        spec_read_entries(bytes, pos, n, done).0 is Ok,
        spec_read_entry(bytes, spec_read_entries(bytes, pos, n, done).1).0 is Ok,
    ensures
        spec_read_entries(bytes, pos, n + 1, done) == (
            Ok::<Seq<EntryData>, TexError>(
                spec_read_entries(bytes, pos, n, done).0->Ok_0.push(
                    spec_read_entry(bytes, spec_read_entries(bytes, pos, n, done).1).0->Ok_0,
                ),
            ),
            spec_read_entry(bytes, spec_read_entries(bytes, pos, n, done).1).1,
        ),
    decreases n,
{
    reveal_with_fuel(spec_read_entries, 2);
    if n > 0 {
        if let (Ok(first), end) = spec_read_entry(bytes, pos) {
            lemma_one_more_entry(bytes, end, (n - 1) as nat, done.push(first));
        }
    }
}

/// The entry that an item was made from.
pub open spec fn entry_of(item: ItemData) -> EntryData {
    EntryData { file_path: item.file_path, offset: item.offset, length: item.length }
}

/// The entries that a sequence of items was made from.
pub open spec fn entries_of(items: Seq<PkgItem>) -> Seq<EntryData> {
    items.map_values(|item: PkgItem| entry_of(item@))
}

/// Reads a length-prefixed text.
fn read_string(reader: &mut ByteCursor) -> (r: Result<String, TexError>)
    ensures
        final(reader).bytes() == old(reader).bytes(),
        match spec_read_string(old(reader).bytes(), old(reader).position()) {
            (Ok(text), end) => r matches Ok(v) && v@ == text && final(reader).position() == end,
            (Err(e), end) => r == Err::<String, TexError>(e) && final(reader).position() == end,
        },
{
    let length = match reader.read_u32() {
        Ok(n) => n,
        Err(e) => return Err(e),
    };
    reader.read_n_string(length as usize)
}

/// Reads the index of a package and tells the kind of each of its files.
///
/// The entries are taken one by one: each is read and, once read, held as an
/// item of the kind that its path's extension tells. Where all of them can
/// be read and have an extension, the items are the entries of the index in
/// its order, and the reader ends where the index ends. An entry that cannot
/// be read ends the reading with the failure that the bytes give, at the
/// position where they give it. A path without an extension ends the
/// reading with `MissingExtension`, right after the entry that has it. So an
/// index without entries is always read, and a failure before the first
/// entry has been read is always the one that the bytes give.
pub fn parse_pkg(reader: &mut ByteCursor) -> (r: Result<Vec<PkgItem>, TexError>)
    ensures
        final(reader).bytes() == old(reader).bytes(),
        match r {
            Ok(items) => spec_read_index(old(reader).bytes(), old(reader).position()) == (
                Ok::<Seq<EntryData>, TexError>(entries_of(items@)),
                final(reader).position(),
            ),
            Err(e) => if e == TexError::MissingExtension {
                exists|k: nat|
                    spec_entry_ends_at(
                        old(reader).bytes(),
                        old(reader).position(),
                        k,
                        final(reader).position(),
                    )
            } else {
                spec_read_index(old(reader).bytes(), old(reader).position()) == (
                    Err::<Seq<EntryData>, TexError>(e),
                    final(reader).position(),
                )
            },
        },
{
    let ghost bytes = reader.bytes();
    let ghost goal = spec_read_index(bytes, reader.position());
    let mut items: Vec<PkgItem> = Vec::new();
    match read_string(reader) {
        Ok(_) => {},
        Err(e) => return Err(e),
    }
    let item_num = match reader.read_u32() {
        Ok(n) => n,
        Err(e) => return Err(e),
    };
    let ghost start = reader.position();
    assert(entries_of(items@) =~= Seq::empty());
    let mut i: u32 = 0;
    while i < item_num
        invariant
            reader.bytes() == old(reader).bytes(),
            bytes == old(reader).bytes(),
            goal == spec_read_index(bytes, old(reader).position()),
            spec_read_index_head(bytes, old(reader).position()) == (
                Ok::<u32, TexError>(item_num),
                start,
            ),
            i <= item_num,
            goal == spec_read_entries(
                bytes,
                reader.position(),
                (item_num - i) as nat,
                entries_of(items@),
            ),
            spec_read_entries(bytes, start, i as nat, Seq::empty()) == (
                Ok::<Seq<EntryData>, TexError>(entries_of(items@)),
                reader.position(),
            ),
        decreases item_num - i,
    {
        let ghost entry_start = reader.position();
        let full_path = match read_string(reader) {
            Ok(v) => v,
            Err(e) => return Err(e),
        };
        let offset = match reader.read_u32() {
            Ok(v) => v,
            Err(e) => return Err(e),
        };
        let length = match reader.read_u32() {
            Ok(v) => v,
            Err(e) => return Err(e),
        };
        proof {
            assert(spec_read_entry(bytes, entry_start).0 is Ok);
            lemma_one_more_entry(bytes, start, i as nat, Seq::empty());
        }
        let item = match PkgItem::new(full_path.as_str(), offset, length) {
            Some(item) => item,
            None => {
                assert(spec_entry_ends_at(
                    bytes,
                    old(reader).position(),
                    i as nat,
                    reader.position(),
                ));
                return Err(TexError::MissingExtension);
            },
        };
        let ghost before = items@;
        items.push(item);
        assert(entries_of(items@) =~= entries_of(before).push(entry_of(item@)));
        i = i + 1;
    }
    Ok(items)
}

} // verus!
