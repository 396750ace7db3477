use vstd::prelude::*;
use crate::byte_stream::{dword_at, fits, word_at, ByteStream};
use crate::error::EmuError;
use crate::executable::Signature;

verus! {

/// One entry of the relocation table: a far pointer to patch.
#[derive(Debug, Clone, Copy, PartialEq, Eq, Structural)]
pub struct RelocationTable {
    pub offset: u16,
    pub segment: u16,
}

impl RelocationTable {
    /// Reads one entry (offset word, then segment word) under the cursor.
    pub fn read(bst: &mut ByteStream) -> (r: Result<Self, EmuError>)
        ensures
            final(bst)@ == old(bst)@,
            fits(old(bst)@.len() as int, old(bst).cursor() as int, 4) ==> r == Ok::<RelocationTable, EmuError>(
                reloc_at(old(bst)@, old(bst).cursor() as int),
            ) && final(bst).cursor() == old(bst).cursor() + 4,
            !fits(old(bst)@.len() as int, old(bst).cursor() as int, 4) ==> r == Err::<RelocationTable, EmuError>(
                EmuError::BufferUnderrun,
            ) && final(bst).cursor() == old(bst).cursor(),
    {
        let p = bst.pos();
        if bst.len() < 4 || p > bst.len() - 4 {
            return Err(EmuError::BufferUnderrun);
        }
        let offset = match bst.read_word() {
            Ok(w) => w,
            Err(e) => return Err(e),
        };
        let segment = match bst.read_word() {
            Ok(w) => w,
            Err(e) => return Err(e),
        };
        Ok(RelocationTable { offset, segment })
    }
}

/// The relocation entry stored at `i`.
pub open spec fn reloc_at(b: Seq<u8>, i: int) -> RelocationTable {
    RelocationTable { offset: word_at(b, i), segment: word_at(b, i + 2) }
}

/// The DOS (MZ) executable header.
pub struct MZ {
    pub last_page_bytes: u16,
    pub page_count: u16,
    pub relocation_table_entry_count: u16,
    pub header_size: u16,
    pub min_alloc: u16,
    pub max_alloc: u16,
    pub init_ss: u16,
    pub init_sp: u16,
    pub checksum: u16,
    pub init_ip: u16,
    pub init_cs: u16,
    pub relocation_table_offset: u16,
    pub overlay: u16,
    pub oem_id: Option<u16>,
    pub oem_info: Option<u16>,
    pub new_header_start: Option<u32>,
    pub relocation_tables: Vec<RelocationTable>,
    pub header_code: Vec<String>,
}

/// The bytes of the fixed header part after the signature.
pub const MZ_FIXED_LEN: usize = 50;

/// Whether the relocation table follows the fixed part directly: the header
/// says it starts where the fixed part ends and has entries.
pub open spec fn relocs_follow(b: Seq<u8>, p: int) -> bool {
    word_at(b, p + 22) as int == p + 50 && word_at(b, p + 4) > 0
}

/// The position after the fixed part and the relocation table, if it follows.
pub open spec fn relocs_end(b: Seq<u8>, p: int) -> int {
    if relocs_follow(b, p) {
        p + 50 + 4 * word_at(b, p + 4)
    } else {
        p + 50
    }
}

/// The position after the whole header: past the relocation table and any
/// padding up to `header_size` paragraphs.
pub open spec fn header_end(b: Seq<u8>, p: int) -> int {
    let e = relocs_end(b, p);
    let h = word_at(b, p + 6) * 16;
    if e < h {
        h
    } else {
        e
    }
}

/// Whether the header read from `p` lies inside the image.
pub open spec fn header_fits(b: Seq<u8>, p: int) -> bool {
    fits(b.len() as int, p, 50) && fits(b.len() as int, p, relocs_end(b, p) - p) && header_end(b, p) <= b.len()
}

impl MZ {
    /// The signature of this container format.
    pub fn signature() -> (s: Signature)
        ensures
            s == Signature::MZ,
    {
        Signature::MZ
    }

    /// Reads the header from the cursor at `p`: thirteen words (the field
    /// order of this struct) at `p .. p + 26`, eight reserved bytes, the OEM
    /// identifier and information words at `p + 34` and `p + 36`, eight more
    /// reserved bytes, and the new-header offset dword at `p + 46`. Where the relocation table starts right there and has entries,
    /// they are read too. Reserved and padding bytes (up to `header_size`
    /// paragraphs) are skipped whatever they hold. The cursor ends after the
    /// header.
    pub fn read(bst: &mut ByteStream) -> (r: Result<MZ, EmuError>)
        ensures
            final(bst)@ == old(bst)@,
            ({
                let b = old(bst)@;
                let p = old(bst).cursor() as int;
                &&& header_fits(b, p) ==> r is Ok && final(bst).cursor() == header_end(b, p) && ({
                    let h = r->Ok_0;
                    &&& h.last_page_bytes == word_at(b, p)
                    &&& h.page_count == word_at(b, p + 2)
                    &&& h.relocation_table_entry_count == word_at(b, p + 4)
                    &&& h.header_size == word_at(b, p + 6)
                    &&& h.min_alloc == word_at(b, p + 8)
                    &&& h.max_alloc == word_at(b, p + 10)
                    &&& h.init_ss == word_at(b, p + 12)
                    &&& h.init_sp == word_at(b, p + 14)
                    &&& h.checksum == word_at(b, p + 16)
                    &&& h.init_ip == word_at(b, p + 18)
                    &&& h.init_cs == word_at(b, p + 20)
                    &&& h.relocation_table_offset == word_at(b, p + 22)
                    &&& h.overlay == word_at(b, p + 24)
                    &&& h.oem_id == Some(word_at(b, p + 34))
                    &&& h.oem_info == Some(word_at(b, p + 36))
                    &&& h.new_header_start == Some(dword_at(b, p + 46))
                    &&& h.relocation_tables@.len() == if relocs_follow(b, p) { word_at(b, p + 4) as int } else { 0 }
                    &&& forall|i: int| 0 <= i < h.relocation_tables@.len() ==> #[trigger] h.relocation_tables@[i] == reloc_at(b, p + 50 + 4 * i)
                    &&& h.header_code@.len() == 0
                })
                &&& !header_fits(b, p) ==> r == Err::<MZ, EmuError>(EmuError::BufferUnderrun)
            }),
    {
        let ghost b = bst@;
        let p = bst.pos();
        let len = bst.len();
        if p > len || len - p < MZ_FIXED_LEN {
            return Err(EmuError::BufferUnderrun);
        }
        let mut words: Vec<u16> = Vec::new();
        let mut k: usize = 0;
        while k < 13
            invariant
                bst@ == b,
                p + 50 <= b.len(),
                k <= 13,
                bst.cursor() == p + 2 * k,
                words@.len() == k,
                forall|i: int| 0 <= i < k ==> #[trigger] words@[i] == word_at(b, p + 2 * i),
            decreases 13 - k,
        {
            match bst.read_word() {
                Ok(w) => words.push(w),
                Err(e) => return Err(e),
            }
            k = k + 1;
        }
        let _ = bst.skip_reserved(8);
        let oem_id = match bst.read_word() {
            Ok(w) => w,
            Err(e) => return Err(e),
        };
        let oem_info = match bst.read_word() {
            Ok(w) => w,
            Err(e) => return Err(e),
        };
        let _ = bst.skip_reserved(8);
        let new_header_start = match bst.read_dword() {
            Ok(d) => d,
            Err(e) => return Err(e),
        };
        let count = words[2];
        let table_offset = words[11];
        let mut relocation_tables: Vec<RelocationTable> = Vec::new();
        if bst.pos() == table_offset as usize && count > 0 {
            if (len - bst.pos()) / 4 < count as usize {
                return Err(EmuError::BufferUnderrun);
            }
            let mut i: u16 = 0;
            while i < count
                invariant
                    bst@ == b,
                    i <= count,
                    count == word_at(b, p + 4),
                    p + 50 + 4 * count <= b.len(),
                    bst.cursor() == p + 50 + 4 * i,
                    relocation_tables@.len() == i,
                    forall|j: int| 0 <= j < i ==> #[trigger] relocation_tables@[j] == reloc_at(b, p + 50 + 4 * j),
                decreases count - i,
            {
                match RelocationTable::read(bst) {
                    Ok(t) => relocation_tables.push(t),
                    Err(e) => return Err(e),
                }
                i = i + 1;
            }
        }
        let h = words[3] as usize * 16;
        let at = bst.pos();
        if at < h {
            if h > len {
                return Err(EmuError::BufferUnderrun);
            }
            let _ = bst.skip_reserved(h - at);
        }
        Ok(MZ {
            last_page_bytes: words[0],
            page_count: words[1],
            relocation_table_entry_count: words[2],
            header_size: words[3],
            min_alloc: words[4],
            max_alloc: words[5],
            init_ss: words[6],
            init_sp: words[7],
            checksum: words[8],
            init_ip: words[9],
            init_cs: words[10],
            relocation_table_offset: words[11],
            overlay: words[12],
            oem_id: Some(oem_id),
            oem_info: Some(oem_info),
            new_header_start: Some(new_header_start),
            relocation_tables,
            header_code: Vec::new(),
        })
    }
}

} // verus!
