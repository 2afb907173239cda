use vstd::prelude::*;

verus! {

/// Height of the sprite bitmap, in rows.
pub const FERRIS_HEIGHT: usize = 208;

/// Rows of slack kept at the end of the bitmap for vertical shifting.
pub const FERRIS_MARGIN: usize = 16;

/// Height of the visible screen, in scan lines.
pub const SCREEN_HEIGHT: usize = 232;

/// Bytes per bitmap row: the width of one line in the graphics mode used.
pub const ROW_STRIDE: usize = 64;

/// Frame-description entries rewritten per pass of the patcher.
pub const CHUNK_LINES: usize = 16;

/// Entries of the block above the text line.
pub const TOP_LINES: usize = 208;

/// Entries of the block below the text line.
pub const BOTTOM_LINES: usize = 16;

/// Rows between the end of the first block and the start of the second.
pub const BOTTOM_ROW_GAP: i16 = 8;

/// Instruction byte: eight blank scan lines.
pub const MODE_BLANK: u8 = 0x30;

/// Instruction byte: one graphics line with a new source address.
pub const MODE_GRAPHICS: u8 = 0x5e;

/// Instruction byte: one text line with a new source address.
pub const MODE_TEXT: u8 = 0x52;

/// Instruction byte: jump back to the table start and wait for vertical blank.
pub const MODE_JUMP: u8 = 0x41;

/// Address of the `i`-th bitmap row for a bitmap starting at `base`.
pub open spec fn row_addr(base: int, i: int) -> int {
    base + i * ROW_STRIDE
}

/// Lookup index used for a starting row: rows at or past the margin, or
/// before the bitmap, wrap to the first row.
pub open spec fn resolved_row(index: int) -> int {
    if 0 <= index < (FERRIS_HEIGHT - FERRIS_MARGIN) as int {
        index
    } else {
        0
    }
}

/// Two tables, one entry per sprite row, giving the low and the high byte of
/// that row's address in the sprite bitmap.
pub struct SubPixelAddressTable {
    base: usize,
    lo: Vec<u8>,
    hi: Vec<u8>,
}

impl SubPixelAddressTable {
    pub closed spec fn base_spec(&self) -> int {
        self.base as int
    }

    pub closed spec fn lo_view(&self) -> Seq<u8> {
        self.lo@
    }

    pub closed spec fn hi_view(&self) -> Seq<u8> {
        self.hi@
    }

    /// Every entry is the split address `base + i * ROW_STRIDE`.
    pub open spec fn wf(&self) -> bool {
        &&& self.lo_view().len() == FERRIS_HEIGHT
        &&& self.hi_view().len() == FERRIS_HEIGHT
        &&& forall|i: int|
            0 <= i < FERRIS_HEIGHT ==> {
                &&& #[trigger] self.lo_view()[i] as int == row_addr(self.base_spec(), i) % 256
                &&& self.hi_view()[i] as int == (row_addr(self.base_spec(), i) / 256) % 256
            }
    }

    /// Builds the tables for a bitmap whose first row starts at `base`.
    pub fn new(base: usize) -> (r: Self)
        requires
            base + FERRIS_HEIGHT * ROW_STRIDE <= usize::MAX,
        ensures
            r.wf(),
            r.base_spec() == base,
    {
        let mut lo: Vec<u8> = Vec::new();
        let mut hi: Vec<u8> = Vec::new();
        let mut addr: usize = base;
        let mut i: usize = 0;
        while i < FERRIS_HEIGHT
            invariant
                i <= FERRIS_HEIGHT,
                base + FERRIS_HEIGHT * ROW_STRIDE <= usize::MAX,
                addr == row_addr(base as int, i as int),
                lo@.len() == i,
                hi@.len() == i,
                forall|j: int|
                    0 <= j < i ==> {
                        &&& #[trigger] lo@[j] as int == row_addr(base as int, j) % 256
                        &&& hi@[j] as int == (row_addr(base as int, j) / 256) % 256
                    },
            decreases FERRIS_HEIGHT - i,
        {
            lo.push((addr % 256) as u8);
            hi.push(((addr / 256) % 256) as u8);
            addr = addr + ROW_STRIDE;
            i = i + 1;
        }
        let r = SubPixelAddressTable { base, lo, hi };
        assert(r.lo_view() == r.lo@ && r.hi_view() == r.hi@ && r.base_spec() == base);
        assert(r.lo_view().len() == FERRIS_HEIGHT);
        assert(forall|j: int| 0 <= j < FERRIS_HEIGHT ==> #[trigger] r.lo_view()[j] as int == row_addr(base as int, j) % 256);
        r
    }

    /// Address of the bitmap's first row.
    pub fn base(&self) -> (r: usize)
        ensures
            r == self.base_spec(),
    {
        self.base
    }

    /// Low address byte of row `i`.
    pub fn lo_at(&self, i: usize) -> (r: u8)
        requires
            self.wf(),
            i < FERRIS_HEIGHT,
        ensures
            r == self.lo_view()[i as int],
    {
        self.lo[i]
    }

    /// High address byte of row `i`.
    pub fn hi_at(&self, i: usize) -> (r: u8)
        requires
            self.wf(),
            i < FERRIS_HEIGHT,
        ensures
            r == self.hi_view()[i as int],
    {
        self.hi[i]
    }
}

/// Entry `i` of the tables, low and high byte put together, is the 16-bit
/// address `base + i * ROW_STRIDE` of bitmap row `i`.
pub proof fn lemma_table_entry_addr(table: SubPixelAddressTable, i: int)
    requires
        table.wf(),
        0 <= i < FERRIS_HEIGHT,
    ensures
        table.hi_view()[i] as int * 256 + table.lo_view()[i] as int == row_addr(table.base_spec(), i) % 65536,
{
    let a = row_addr(table.base_spec(), i);
    assert(table.lo_view()[i] as int == a % 256);
    let q = a / 256;
    assert(a == 256 * q + a % 256) by {
        vstd::arithmetic::div_mod::lemma_fundamental_div_mod(a, 256);
    }
    assert(q == 256 * (q / 256) + q % 256) by {
        vstd::arithmetic::div_mod::lemma_fundamental_div_mod(q, 256);
    }
    assert(a == 65536 * (q / 256) + (256 * (q % 256) + a % 256)) by (nonlinear_arith)
        requires
            a == 256 * q + a % 256,
            q == 256 * (q / 256) + q % 256,
    ;
    assert(0 <= a % 256 < 256 && 0 <= q % 256 < 256);
    vstd::arithmetic::div_mod::lemma_fundamental_div_mod_converse(a, 65536, q / 256, 256 * (q % 256) + a % 256);
}

/// One entry of the frame description: an instruction byte and a source
/// address.
#[derive(Clone, Copy, Debug, PartialEq, Eq, Structural)]
pub struct DisplayListLine {
    pub mode: u8,
    pub addr: usize,
}

/// The frame description read by the display hardware: a leading blank
/// instruction, the sprite block above the text line, the text line, the
/// sprite block below it, and a footer that jumps back to the start.
pub struct DisplayList {
    pub data: [u8; 1],
    pub lines: Vec<DisplayListLine>,
    pub text: DisplayListLine,
    pub lines2: Vec<DisplayListLine>,
    pub footer: DisplayListLine,
}

/// Low address byte of the four-line pattern: entry `m` (0 to 3) of a pass
/// that starts at row `index`.
pub open spec fn pattern_lo(table: SubPixelAddressTable, index: int, byte_offs: int, m: int) -> int {
    ((table.lo_view()[index % 4] as int + byte_offs) % 256 + 64 * m) % 256
}

/// Address written into entry `k` (0 to 15) of a pass that starts at row
/// `index`.
pub open spec fn pass_addr(table: SubPixelAddressTable, index: int, byte_offs: int, k: int) -> int {
    table.hi_view()[resolved_row(index) + k] as int * 256 + pattern_lo(table, index, byte_offs, k % 4)
}

/// Address written into entry `j` of a block patched from starting row
/// `index0`: each pass of sixteen entries starts sixteen rows further on.
pub open spec fn patched_addr(table: SubPixelAddressTable, index0: int, byte_offs: int, j: int) -> int {
    pass_addr(table, index0 + CHUNK_LINES * (j / CHUNK_LINES as int), byte_offs, j % CHUNK_LINES as int)
}

/// `lines` is `old` with every address rewritten as the patcher does from
/// starting row `index0`, and every instruction byte kept.
pub open spec fn block_patched(
    lines: Seq<DisplayListLine>,
    old: Seq<DisplayListLine>,
    table: SubPixelAddressTable,
    index0: int,
    byte_offs: int,
) -> bool {
    &&& lines.len() == old.len()
    &&& forall|j: int|
        0 <= j < lines.len() ==> {
            &&& (#[trigger] lines[j]).mode == old[j].mode
            &&& lines[j].addr == patched_addr(table, index0, byte_offs, j)
        }
}

/// The lookup row for a pass starting at `index`.
pub fn resolve_row(index: i16) -> (r: usize)
    ensures
        r == resolved_row(index as int),
{
    if index < 0 || index as usize >= FERRIS_HEIGHT - FERRIS_MARGIN {
        0
    } else {
        index as usize
    }
}

/// The four low address bytes of a pass starting at row `index`, shifted by
/// `byte_offs`; they are spaced by one row stride, wrapping within the byte.
pub fn sub_pixel_offsets(table: &SubPixelAddressTable, index: i16, byte_offs: u8) -> (r: (u8, u8, u8, u8))
    requires
        table.wf(),
    ensures
        r.0 == pattern_lo(*table, index as int, byte_offs as int, 0),
        r.1 == pattern_lo(*table, index as int, byte_offs as int, 1),
        r.2 == pattern_lo(*table, index as int, byte_offs as int, 2),
        r.3 == pattern_lo(*table, index as int, byte_offs as int, 3),
        r.1 as int == (r.0 as int + 64) % 256,
        r.2 as int == (r.0 as int + 128) % 256,
        r.3 as int == (r.0 as int + 192) % 256,
{
    let shifted: i32 = index as i32 + 65536;
    let m: usize = (shifted % 4) as usize;
    proof {
        vstd::arithmetic::div_mod::lemma_mod_multiples_vanish(16384, index as int, 4);
    }
    let lo0: u8 = table.lo_at(m).wrapping_add(byte_offs);
    let lo1: u8 = lo0.wrapping_add(64);
    let lo2: u8 = lo0.wrapping_add(128);
    let lo3: u8 = lo0.wrapping_add(192);
    (lo0, lo1, lo2, lo3)
}

proof fn lemma_chunk_pos(c: int, k: int)
    requires
        0 <= k < 16,
    ensures
        (16 * c + k) / 16 == c,
        (16 * c + k) % 16 == k,
{
    vstd::arithmetic::div_mod::lemma_fundamental_div_mod_converse(16 * c + k, 16, c, k);
}

/// Rewrites the addresses of `lines` in passes of sixteen entries, starting
/// at sprite row `*index` and advancing it by sixteen after each pass.
pub fn update_dlist(
    index: &mut i16,
    lines: &mut Vec<DisplayListLine>,
    byte_offs: u8,
    table: &SubPixelAddressTable,
)
    requires
        table.wf(),
        old(lines)@.len() % (CHUNK_LINES as nat) == 0,
        *old(index) as int + old(lines)@.len() <= i16::MAX,
    ensures
        *final(index) as int == *old(index) as int + old(lines)@.len(),
        block_patched(final(lines)@, old(lines)@, *table, *old(index) as int, byte_offs as int),
{
    let ghost index0 = *index as int;
    let ghost old_lines = lines@;
    let (lo0, lo1, lo2, lo3) = sub_pixel_offsets(table, *index, byte_offs);
    let n: usize = lines.len();
    let mut base: usize = 0;
    while base < n
        invariant
            table.wf(),
            n == lines@.len(),
            n == old_lines.len(),
            n % 16 == 0,
            base % 16 == 0,
            base <= n,
            index0 + n <= i16::MAX,
            *index as int == index0 + base,
            lo0 == pattern_lo(*table, index0, byte_offs as int, 0),
            lo1 == pattern_lo(*table, index0, byte_offs as int, 1),
            lo2 == pattern_lo(*table, index0, byte_offs as int, 2),
            lo3 == pattern_lo(*table, index0, byte_offs as int, 3),
            forall|j: int| base <= j < n ==> #[trigger] lines@[j] == old_lines[j],
            forall|j: int|
                0 <= j < base ==> {
                    &&& (#[trigger] lines@[j]).mode == old_lines[j].mode
                    &&& lines@[j].addr == patched_addr(*table, index0, byte_offs as int, j)
                },
        decreases n - base,
    {
        let row: usize = resolve_row(*index);
        let ghost c = base as int / 16;
        proof {
            lemma_chunk_pos(c, 0);
            assert(*index as int % 4 == index0 % 4) by {
                vstd::arithmetic::div_mod::lemma_mod_multiples_vanish(4 * c, index0, 4);
            }
        }
        let mut k: usize = 0;
        while k < CHUNK_LINES
            invariant
                table.wf(),
                n == lines@.len(),
                n == old_lines.len(),
                base % 16 == 0,
                base + 16 <= n,
                c == base as int / 16,
                base as int == 16 * c,
                *index as int == index0 + base,
                *index as int % 4 == index0 % 4,
                row == resolved_row(*index as int),
                k <= 16,
                lo0 == pattern_lo(*table, index0, byte_offs as int, 0),
                lo1 == pattern_lo(*table, index0, byte_offs as int, 1),
                lo2 == pattern_lo(*table, index0, byte_offs as int, 2),
                lo3 == pattern_lo(*table, index0, byte_offs as int, 3),
                forall|j: int| base + k <= j < n ==> #[trigger] lines@[j] == old_lines[j],
                forall|j: int|
                    0 <= j < base + k ==> {
                        &&& (#[trigger] lines@[j]).mode == old_lines[j].mode
                        &&& lines@[j].addr == patched_addr(*table, index0, byte_offs as int, j)
                    },
            decreases 16 - k,
        {
            let lo: u8 = if k % 4 == 0 {
                lo0
            } else if k % 4 == 1 {
                lo1
            } else if k % 4 == 2 {
                lo2
            } else {
                lo3
            };
            let hi: u8 = table.hi_at(row + k);
            let j: usize = base + k;
            proof {
                lemma_chunk_pos(c, k as int);
            }
            lines[j].addr = hi as usize * 256 + lo as usize;
            k = k + 1;
        }
        *index = *index + 16;
        base = base + CHUNK_LINES;
    }
}

impl DisplayList {
    /// The table's fixed shape: block lengths and instruction bytes.
    pub open spec fn wf(&self) -> bool {
        &&& self.data[0] == MODE_BLANK
        &&& self.lines@.len() == TOP_LINES
        &&& self.lines2@.len() == BOTTOM_LINES
        &&& forall|j: int| 0 <= j < TOP_LINES ==> (#[trigger] self.lines@[j]).mode == MODE_GRAPHICS
        &&& forall|j: int| 0 <= j < BOTTOM_LINES ==> (#[trigger] self.lines2@[j]).mode == MODE_GRAPHICS
        &&& self.text.mode == MODE_TEXT
        &&& self.footer.mode == MODE_JUMP
    }

    /// A frame description whose footer jumps back to `dl_addr`, where the
    /// table itself is placed; all other addresses start at zero.
    pub fn new(dl_addr: usize) -> (r: Self)
        ensures
            r.wf(),
            r.footer.addr == dl_addr,
            r.text.addr == 0,
            forall|j: int| 0 <= j < TOP_LINES ==> (#[trigger] r.lines@[j]).addr == 0,
            forall|j: int| 0 <= j < BOTTOM_LINES ==> (#[trigger] r.lines2@[j]).addr == 0,
    {
        let blank = DisplayListLine { mode: MODE_GRAPHICS, addr: 0 };
        let mut lines: Vec<DisplayListLine> = Vec::new();
        let mut i: usize = 0;
        while i < TOP_LINES
            invariant
                i <= TOP_LINES,
                lines@.len() == i,
                forall|j: int| 0 <= j < i ==> #[trigger] lines@[j] == blank,
            decreases TOP_LINES - i,
        {
            lines.push(blank);
            i = i + 1;
        }
        let mut lines2: Vec<DisplayListLine> = Vec::new();
        let mut i: usize = 0;
        while i < BOTTOM_LINES
            invariant
                i <= BOTTOM_LINES,
                lines2@.len() == i,
                forall|j: int| 0 <= j < i ==> #[trigger] lines2@[j] == blank,
            decreases BOTTOM_LINES - i,
        {
            lines2.push(blank);
            i = i + 1;
        }
        DisplayList {
            data: [MODE_BLANK],
            lines,
            text: DisplayListLine { mode: MODE_TEXT, addr: 0 },
            lines2,
            footer: DisplayListLine { mode: MODE_JUMP, addr: dl_addr },
        }
    }
}

/// Starting row of the top block for a vertical sprite offset `y`: the
/// bitmap is centred on the screen, then shifted by `y`.
pub open spec fn start_row(y: int) -> int {
    (FERRIS_HEIGHT as int - SCREEN_HEIGHT as int) / 2 + y
}

/// Starting row of the bottom block: past the top block and a gap of
/// `BOTTOM_ROW_GAP` rows.
pub open spec fn bottom_start_row(y: int) -> int {
    start_row(y) + TOP_LINES + BOTTOM_ROW_GAP
}

/// Low address byte of entry `k` of a pass, as an offset from the bitmap's
/// row addresses: in a bitmap aligned to 256 bytes it is the low byte of the
/// row `index + k`, shifted by `byte_offs`.
pub proof fn lemma_pattern_follows_rows(table: SubPixelAddressTable, index: int, byte_offs: int, k: int)
    requires
        table.wf(),
        table.base_spec() % 256 == 0,
        0 <= byte_offs < 64,
        0 <= k < 16,
    ensures
        pattern_lo(table, index, byte_offs, k % 4) == row_addr(table.base_spec(), index + k) % 256 + byte_offs,
{
    let b = table.base_spec();
    let m = index % 4;
    assert(0 <= m < 4);
    assert(table.lo_view()[m] as int == row_addr(b, m) % 256);
    assert(b == 256 * (b / 256));
    assert(row_addr(b, m) % 256 == 64 * m) by {
        vstd::arithmetic::div_mod::lemma_fundamental_div_mod_converse(row_addr(b, m), 256, b / 256, 64 * m);
    }
    let q = (index + k) / 4;
    let r = (index + k) % 4;
    assert(index + k == 4 * q + r) by {
        vstd::arithmetic::div_mod::lemma_fundamental_div_mod(index + k, 4);
    }
    assert(row_addr(b, index + k) == (b / 256 + q) * 256 + 64 * r);
    assert(row_addr(b, index + k) % 256 == 64 * r) by {
        vstd::arithmetic::div_mod::lemma_fundamental_div_mod_converse(row_addr(b, index + k), 256, b / 256 + q, 64 * r);
    }
    assert(r == (m + k % 4) % 4) by {
        vstd::arithmetic::div_mod::lemma_add_mod_noop(index, k, 4);
    }
    assert((64 * m + byte_offs) % 256 == 64 * m + byte_offs);
    let t = 64 * m + byte_offs + 64 * (k % 4);
    assert(t % 256 == 64 * r + byte_offs) by {
        if m + k % 4 < 4 {
            vstd::arithmetic::div_mod::lemma_small_mod((m + k % 4) as nat, 4);
            vstd::arithmetic::div_mod::lemma_small_mod(t as nat, 256);
        } else {
            vstd::arithmetic::div_mod::lemma_fundamental_div_mod_converse(m + k % 4, 4, 1, m + k % 4 - 4);
            vstd::arithmetic::div_mod::lemma_fundamental_div_mod_converse(t, 256, 1, t - 256);
        }
    }
}

/// With a bitmap aligned to 256 bytes and a starting row that needs no
/// wrap, entry `k` of a pass points at bitmap row `index + k`, shifted by
/// the coarse byte offset.
pub proof fn lemma_pass_addr_points_at_row(table: SubPixelAddressTable, index: int, byte_offs: int, k: int)
    requires
        table.wf(),
        table.base_spec() % 256 == 0,
        0 <= byte_offs < 64,
        0 <= k < 16,
        0 <= index < (FERRIS_HEIGHT - FERRIS_MARGIN) as int,
    ensures
        pass_addr(table, index, byte_offs, k) == row_addr(table.base_spec(), index + k) % 65536 + byte_offs,
{
    lemma_table_entry_addr(table, index + k);
    lemma_pattern_follows_rows(table, index, byte_offs, k);
}

/// Places the sprite at offset `(x, y)`: the top block is patched from row
/// `start_row(y)`, the bottom block from `bottom_start_row(y)`, both with the
/// coarse byte offset `(x + 128) / 4`. The text line, the footer and every
/// instruction byte are left as they were.
pub fn set_ferris_position(dl: &mut DisplayList, table: &SubPixelAddressTable, x: i8, y: i8)
    requires
        old(dl).wf(),
        table.wf(),
    ensures
        final(dl).wf(),
        block_patched(final(dl).lines@, old(dl).lines@, *table, start_row(y as int), (x as int + 128) / 4),
        block_patched(final(dl).lines2@, old(dl).lines2@, *table, bottom_start_row(y as int), (x as int + 128) / 4),
        final(dl).text == old(dl).text,
        final(dl).footer == old(dl).footer,
        final(dl).data == old(dl).data,
{
    let byte_offs: u8 = crate::motion::byte_offset(x);
    let mut index: i16 = (FERRIS_HEIGHT as i16 - SCREEN_HEIGHT as i16) / 2 + y as i16;
    update_dlist(&mut index, &mut dl.lines, byte_offs, table);
    index = index + BOTTOM_ROW_GAP;
    update_dlist(&mut index, &mut dl.lines2, byte_offs, table);
}

/// Points the text line at `text_base + pos`, leaving everything else.
pub fn scroll_text(dl: &mut DisplayList, text_base: usize, pos: usize)
    requires
        text_base + pos <= usize::MAX,
    ensures
        final(dl).text.addr == text_base + pos,
        final(dl).text.mode == old(dl).text.mode,
        final(dl).lines == old(dl).lines,
        final(dl).lines2 == old(dl).lines2,
        final(dl).footer == old(dl).footer,
        final(dl).data == old(dl).data,
{
    dl.text.addr = text_base + pos;
}

fn append_lines(all: &mut Vec<DisplayListLine>, src: &Vec<DisplayListLine>)
    requires
        old(all)@.len() + src@.len() <= usize::MAX,
    ensures
        final(all)@ == old(all)@ + src@,
{
    let ghost start = all@;
    let mut i: usize = 0;
    while i < src.len()
        invariant
            i <= src@.len(),
            all@ == start + src@.subrange(0, i as int),
            start.len() + src@.len() <= usize::MAX,
        decreases src@.len() - i,
    {
        all.push(src[i]);
        i = i + 1;
        assert(src@.subrange(0, i as int) == src@.subrange(0, i - 1) + seq![src@[i - 1]]);
    }
    assert(src@.subrange(0, src@.len() as int) == src@);
}

impl DisplayList {
    /// All entries in the order the hardware reads them.
    pub open spec fn entries(&self) -> Seq<DisplayListLine> {
        self.lines@ + seq![self.text] + self.lines2@ + seq![self.footer]
    }

    /// The table as the display hardware reads it from memory: the leading
    /// instruction byte, then for each entry its instruction byte and its
    /// address, low byte first.
    pub fn encode(&self) -> (r: Vec<u8>)
        requires
            self.wf(),
        ensures
            r@.len() == 1 + 3 * self.entries().len(),
            r@[0] == self.data[0],
            forall|j: int|
                0 <= j < self.entries().len() ==> {
                    &&& #[trigger] r@[1 + 3 * j] == self.entries()[j].mode
                    &&& r@[2 + 3 * j] as int == self.entries()[j].addr % 256
                    &&& r@[3 + 3 * j] as int == (self.entries()[j].addr / 256) % 256
                },
    {
        let mut all: Vec<DisplayListLine> = Vec::new();
        append_lines(&mut all, &self.lines);
        all.push(self.text);
        append_lines(&mut all, &self.lines2);
        all.push(self.footer);
        assert(all@ == self.entries());
        let mut out: Vec<u8> = Vec::new();
        out.push(self.data[0]);
        let mut i: usize = 0;
        while i < all.len()
            invariant
                i <= all@.len(),
                all@ == self.entries(),
                all@.len() == TOP_LINES + BOTTOM_LINES + 2,
                out@.len() == 1 + 3 * i,
                out@[0] == self.data[0],
                forall|j: int|
                    0 <= j < i ==> {
                        &&& #[trigger] out@[1 + 3 * j] == all@[j].mode
                        &&& out@[2 + 3 * j] as int == all@[j].addr % 256
                        &&& out@[3 + 3 * j] as int == (all@[j].addr / 256) % 256
                    },
            decreases all@.len() - i,
        {
            let line = all[i];
            out.push(line.mode);
            out.push((line.addr % 256) as u8);
            out.push(((line.addr / 256) % 256) as u8);
            i = i + 1;
        }
        out
    }
}

} // verus!
