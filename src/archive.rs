//! An archive opened from its bytes: the header, the lump directory, and
//! access to each lump by its name.
use vstd::prelude::*;
use crate::decode::{info_from, lump_from, i32_at, decode_all, records_of, Record};
use crate::schema::{RecordKind, record_size};
use crate::error::WadError;
use crate::name::{logical_name, same_name, upper_seq};
use crate::types::{WadInfo, WadLump};

verus! {

/// Size of the header at the start of an archive.
pub const HEADER_SIZE: usize = 12;

/// Size of one entry of the lump directory.
pub const LUMP_ENTRY_SIZE: usize = 16;

/// The identifiers of the two kinds of archive: `IWAD` and `PWAD`.
pub open spec fn is_magic(id: Seq<u8>) -> bool {
    id == seq![0x49u8, 0x57u8, 0x41u8, 0x44u8] || id == seq![0x50u8, 0x57u8, 0x41u8, 0x44u8]
}

/// The directory described by the header of `data` lies inside `data`.
pub open spec fn directory_in_bounds(data: Seq<u8>) -> bool {
    let num = i32_at(data, 4);
    let off = i32_at(data, 8);
    0 <= num && 0 <= off && off + LUMP_ENTRY_SIZE * num <= data.len()
}

/// Bytes of entry `i` of the directory that starts at `off`.
pub open spec fn entry_window(data: Seq<u8>, off: int, i: int) -> Seq<u8> {
    data.subrange(off + LUMP_ENTRY_SIZE * i, off + LUMP_ENTRY_SIZE * i + LUMP_ENTRY_SIZE)
}

/// The lump `l` bears the name `name`, regardless of case.
pub open spec fn lump_named(l: WadLump, name: Seq<u8>) -> bool {
    same_name(logical_name(l.name.bytes@), name)
}

/// No lump of `dir` at or after `from` bears the name `name`.
pub open spec fn no_match_from(dir: Seq<WadLump>, name: Seq<u8>, from: int) -> bool {
    forall|j: int| from <= j < dir.len() ==> !lump_named(#[trigger] dir[j], name)
}

/// `i` is the first lump of `dir` at or after `from` that bears `name`.
pub open spec fn first_match(dir: Seq<WadLump>, name: Seq<u8>, from: int, i: int) -> bool {
    &&& 0 <= from <= i < dir.len()
    &&& lump_named(dir[i], name)
    &&& forall|j: int| from <= j < i ==> !lump_named(#[trigger] dir[j], name)
}

/// The bytes that the lump `l` spans lie inside a source of `len` bytes.
pub open spec fn lump_in_bounds(l: WadLump, len: nat) -> bool {
    0 <= l.file_pos && 0 <= l.size && l.file_pos + l.size <= len
}

/// Lookup ignores case: two queries that agree once upper-cased find the
/// same lump, or both find none.
pub proof fn lemma_lookup_ignores_case(dir: Seq<WadLump>, q1: Seq<u8>, q2: Seq<u8>, i: int)
    requires
        upper_seq(q1) == upper_seq(q2),
    ensures
        first_match(dir, q1, 0, i) == first_match(dir, q2, 0, i),
        no_match_from(dir, q1, 0) == no_match_from(dir, q2, 0),
{
}

/// The bytes of `src` that the lump `l` spans.
pub open spec fn lump_bytes(src: Seq<u8>, l: WadLump) -> Seq<u8> {
    src.subrange(l.file_pos as int, l.file_pos + l.size)
}

/// A copy of `b[from..to]`.
fn copy_range(b: &[u8], from: usize, to: usize) -> (r: Vec<u8>)
    requires
        from <= to <= b@.len(),
    ensures
        r@ == b@.subrange(from as int, to as int),
{
    let mut out: Vec<u8> = Vec::new();
    let mut k: usize = from;
    while k < to
        invariant
            from <= k <= to,
            to <= b@.len(),
            out@ == b@.subrange(from as int, k as int),
        decreases to - k,
    {
        out.push(b[k]);
        k += 1;
        assert(out@ =~= b@.subrange(from as int, k as int));
    }
    out
}

/// An opened archive. It keeps its own copy of the source bytes and never
/// changes after it was opened.
pub struct Archive {
    data: Vec<u8>,
    metadata: Vec<u8>,
    info: WadInfo,
    lumps: Vec<WadLump>,
}

impl Archive {
    /// The bytes the archive was opened from.
    pub closed spec fn source(&self) -> Seq<u8> {
        self.data@
    }

    /// The lump directory, in the order of the file.
    pub closed spec fn directory(&self) -> Seq<WadLump> {
        self.lumps@
    }

    pub closed spec fn header(&self) -> WadInfo {
        self.info
    }

    pub closed spec fn metadata_bytes(&self) -> Seq<u8> {
        self.metadata@
    }

    /// Opens the archive held by `data`. `metadata` is the descriptor that
    /// goes with it; it is kept as it is, for the code that assembles levels.
    pub fn open(data: Vec<u8>, metadata: Vec<u8>) -> (r: Result<Archive, WadError>)
        ensures
            data@.len() < 4 ==> r == Err::<Archive, WadError>(WadError::IoError),
            data@.len() >= 4 && !is_magic(data@.subrange(0, 4)) ==> r == Err::<Archive, WadError>(
                WadError::MalformedHeader,
            ),
            4 <= data@.len() < HEADER_SIZE && is_magic(data@.subrange(0, 4)) ==> r == Err::<
                Archive,
                WadError,
            >(WadError::IoError),
            data@.len() >= HEADER_SIZE && is_magic(data@.subrange(0, 4))
                && !directory_in_bounds(data@) ==> r == Err::<Archive, WadError>(
                WadError::OutOfBounds,
            ),
            r is Ok <==> (data@.len() >= HEADER_SIZE && is_magic(data@.subrange(0, 4))
                && directory_in_bounds(data@)),
            r matches Ok(a) ==> {
                &&& a.source() == data@
                &&& a.metadata_bytes() == metadata@
                &&& info_from(data@.subrange(0, 12), a.header())
                &&& a.directory().len() == i32_at(data@, 4)
                &&& forall|i: int|
                    0 <= i < a.directory().len() ==> lump_from(
                        entry_window(data@, i32_at(data@, 8), i),
                        #[trigger] a.directory()[i],
                    )
            },
    {
        if data.len() < 4 {
            return Err(WadError::IoError);
        }
        let id = [data[0], data[1], data[2], data[3]];
        assert(id@ =~= data@.subrange(0, 4));
        let magic = (id[0] == 0x49 || id[0] == 0x50) && id[1] == 0x57 && id[2] == 0x41 && id[3]
            == 0x44;
        assert(magic == is_magic(id@)) by {
            if magic {
                assert(id@ =~= seq![0x49u8, 0x57u8, 0x41u8, 0x44u8] || id@ =~= seq![
                    0x50u8,
                    0x57u8,
                    0x41u8,
                    0x44u8,
                ]);
            }
        }
        if !magic {
            return Err(WadError::MalformedHeader);
        }
        if data.len() < HEADER_SIZE {
            return Err(WadError::IoError);
        }
        let head = vstd::slice::slice_subrange(data.as_slice(), 0, HEADER_SIZE);
        let info = WadInfo::decode(head);
        assert(i32_at(head@, 4) == i32_at(data@, 4));
        assert(i32_at(head@, 8) == i32_at(data@, 8));
        let num = info.num_lumps;
        let off = info.info_table_offset;
        if num < 0 || off < 0 || off as u64 + 16 * (num as u64) > data.len() as u64 {
            return Err(WadError::OutOfBounds);
        }
        let total = data.len();
        let num = num as usize;
        let off = off as usize;
        let mut lumps: Vec<WadLump> = Vec::new();
        let mut i: usize = 0;
        while i < num
            invariant
                total == data@.len(),
                off + LUMP_ENTRY_SIZE * num <= total,
                0 <= i <= num,
                lumps@.len() == i,
                forall|j: int|
                    0 <= j < i ==> lump_from(
                        entry_window(data@, off as int, j),
                        #[trigger] lumps@[j],
                    ),
            decreases num - i,
        {
            let start = off + LUMP_ENTRY_SIZE * i;
            let w = vstd::slice::slice_subrange(data.as_slice(), start, start + LUMP_ENTRY_SIZE);
            lumps.push(WadLump::decode(w));
            i += 1;
        }
        Ok(Archive { data, metadata, info, lumps })
    }

    /// The first lump at or after `from` that bears `name`, if any.
    fn find_from(&self, name: &[u8], from: usize) -> (r: Option<usize>)
        requires
            from <= self.directory().len(),
        ensures
            r matches Some(i) ==> first_match(self.directory(), name@, from as int, i as int),
            r is None ==> no_match_from(self.directory(), name@, from as int),
    {
        let mut i: usize = from;
        while i < self.lumps.len()
            invariant
                from <= i <= self.lumps@.len(),
                forall|j: int| from <= j < i ==> !lump_named(#[trigger] self.lumps@[j], name@),
            decreases self.lumps@.len() - i,
        {
            if self.lumps[i].name.matches(name) {
                return Some(i);
            }
            i += 1;
        }
        None
    }

    /// Index in the directory of the first lump named `name`, regardless of
    /// case.
    pub fn find_lump(&self, name: &[u8]) -> (r: Result<usize, WadError>)
        ensures
            r matches Ok(i) ==> first_match(self.directory(), name@, 0, i as int),
            r is Err <==> no_match_from(self.directory(), name@, 0),
            r is Err ==> r->Err_0 == WadError::NotFound,
    {
        match self.find_from(name, 0) {
            Some(i) => Ok(i),
            None => Err(WadError::NotFound),
        }
    }

    /// The directory entry, and so the byte range, of the first lump named
    /// `name`, regardless of case.
    pub fn lookup(&self, name: &[u8]) -> (r: Result<WadLump, WadError>)
        ensures
            r matches Ok(l) ==> exists|i: int|
                first_match(self.directory(), name@, 0, i) && #[trigger] self.directory()[i]
                    == l,
            r is Err <==> no_match_from(self.directory(), name@, 0),
            r is Err ==> r->Err_0 == WadError::NotFound,
    {
        match self.find_lump(name) {
            Ok(i) => Ok(self.lumps[i]),
            Err(e) => Err(e),
        }
    }

    /// The lumps that follow the first lump named `start`, up to the next
    /// lump named `end` or the end of the directory, in order. This is how
    /// the lumps of one level are found after its marker.
    pub fn lumps_between(&self, start: &[u8], end: &[u8]) -> (r: Result<Vec<WadLump>, WadError>)
        ensures
            r is Err <==> no_match_from(self.directory(), start@, 0),
            r is Err ==> r->Err_0 == WadError::NotFound,
            r matches Ok(v) ==> exists|i: int, j: int|
                {
                    &&& first_match(self.directory(), start@, 0, i)
                    &&& (first_match(self.directory(), end@, i + 1, j) || (j
                        == self.directory().len() && no_match_from(
                        self.directory(),
                        end@,
                        i + 1,
                    )))
                    &&& v@ == #[trigger] self.directory().subrange(i + 1, j)
                },
    {
        let first = match self.find_from(start, 0) {
            Some(i) => i,
            None => {
                return Err(WadError::NotFound);
            },
        };
        let n = self.lumps.len();
        let stop = match self.find_from(end, first + 1) {
            Some(j) => j,
            None => n,
        };
        let mut out: Vec<WadLump> = Vec::new();
        let mut k: usize = first + 1;
        while k < stop
            invariant
                first + 1 <= k <= stop,
                stop <= self.lumps@.len(),
                out@ == self.lumps@.subrange(first + 1, k as int),
            decreases stop - k,
        {
            out.push(self.lumps[k]);
            k += 1;
            assert(out@ =~= self.lumps@.subrange(first + 1, k as int));
        }
        Ok(out)
    }

    /// Number of lumps in the directory.
    pub fn num_lumps(&self) -> (r: usize)
        ensures
            r == self.directory().len(),
    {
        self.lumps.len()
    }

    /// Entry `index` of the directory.
    pub fn lump(&self, index: usize) -> (r: WadLump)
        requires
            index < self.directory().len(),
        ensures
            r == self.directory()[index as int],
    {
        self.lumps[index]
    }

    /// The header the archive was opened with.
    pub fn info(&self) -> (r: WadInfo)
        ensures
            r == self.header(),
    {
        self.info
    }

    /// The descriptor that was handed to `open` with the archive.
    pub fn metadata(&self) -> (r: &[u8])
        ensures
            r@ == self.metadata_bytes(),
    {
        self.metadata.as_slice()
    }

    /// A copy of the bytes of lump `index`. Fails when the range that its
    /// entry names does not lie inside the source.
    pub fn read_lump(&self, index: usize) -> (r: Result<Vec<u8>, WadError>)
        requires
            index < self.directory().len(),
        ensures
            r is Ok <==> lump_in_bounds(self.directory()[index as int], self.source().len()),
            r is Err ==> r->Err_0 == WadError::OutOfBounds,
            r matches Ok(v) ==> v@ == lump_bytes(self.source(), self.directory()[index as int]),
    {
        let l = self.lumps[index];
        if l.file_pos < 0 || l.size < 0 || l.file_pos as u64 + l.size as u64 > self.data.len() as u64 {
            return Err(WadError::OutOfBounds);
        }
        let pos = l.file_pos as usize;
        let end = pos + l.size as usize;
        Ok(copy_range(self.data.as_slice(), pos, end))
    }

    /// Decodes the first lump named `name` as an array of records of kind
    /// `kind`.
    pub fn decode_lump(&self, name: &[u8], kind: RecordKind) -> (r: Result<Vec<Record>, WadError>)
        ensures
            no_match_from(self.directory(), name@, 0) ==> r == Err::<Vec<Record>, WadError>(
                WadError::NotFound,
            ),
            forall|i: int| #[trigger]
                first_match(self.directory(), name@, 0, i) ==> {
                    let l = self.directory()[i];
                    let b = lump_bytes(self.source(), l);
                    &&& !lump_in_bounds(l, self.source().len()) ==> r == Err::<
                        Vec<Record>,
                        WadError,
                    >(WadError::OutOfBounds)
                    &&& lump_in_bounds(l, self.source().len()) ==> {
                        &&& r is Err <==> b.len() % record_size(kind) != 0
                        &&& r is Err ==> r->Err_0 == WadError::UnexpectedRecordSize
                        &&& r matches Ok(v) ==> records_of(kind, b, v@)
                    }
                },
    {
        let i = self.find_lump(name)?;
        let bytes = self.read_lump(i)?;
        decode_all(kind, bytes.as_slice())
    }
}

} // verus!
