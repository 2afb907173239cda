use vstd::prelude::*;

verus! {

/// Size of the machine's address space.
pub const IO_SPACE_SIZE: usize = 0x10000;

pub const TIMER: usize = 0x14;
pub const SDMCTL: usize = 0x22f;
pub const DLPTRS: usize = 0x230;
pub const HSCROLL: usize = 0xd404;
pub const PMBASE: usize = 0xd407;
pub const WSYNC: usize = 0xd40a;
pub const VCOUNT: usize = 0xd40b;
pub const PMCTL: usize = 0xd01d;
pub const HPOSP0: usize = 0xd000;
pub const HPOSP1: usize = 0xd001;
pub const RANDOM: usize = 0xd20a;

pub const COLPM0: usize = 0xd012;
pub const COLPM1: usize = 0xd013;
pub const COLPF0: usize = 0xd016;
pub const COLPF1: usize = 0xd017;
pub const COLPF2: usize = 0xd018;
pub const COLBK: usize = 0xd01a;

pub const COLPM0S: usize = 0x2c0;
pub const COLPM1S: usize = 0x2c1;
pub const COLPF0S: usize = 0x2c4;
pub const COLPF1S: usize = 0x2c5;
pub const COLPF2S: usize = 0x2c6;
pub const COLBKS: usize = 0x2c8;

/// Scan-line counter value (in units of two lines) at which the band starts.
pub const BAND_VCOUNT: u8 = 109;

/// Foreground colour of the band.
pub const BAND_COLPF1: u8 = 0x0c;

/// Background colour of the band.
pub const BAND_COLPF2: u8 = 0x00;

/// Horizontal positions of the two load-meter players, just inside the
/// right and the left screen edge.
pub const METER_P0_X: u8 = 0xcc - 6;
pub const METER_P1_X: u8 = 0x2c + 6;

/// DMA control values: display off, and normal playfield with players on.
pub const DMA_OFF: u8 = 0;
pub const DMA_ON: u8 = 0x18 | 0x21;

/// The value of every byte-wide register of the machine, indexed by address.
pub struct IoSpace {
    regs: Vec<u8>,
}

/// One byte written to one register.
#[derive(Clone, Copy, Debug, PartialEq, Eq, Structural)]
pub struct RegWrite {
    pub addr: usize,
    pub value: u8,
}

impl View for IoSpace {
    type V = Seq<u8>;

    closed spec fn view(&self) -> Seq<u8> {
        self.regs@
    }
}

impl IoSpace {
    pub open spec fn wf(&self) -> bool {
        self@.len() == IO_SPACE_SIZE
    }

    /// An address space with every register at zero.
    pub fn new() -> (r: Self)
        ensures
            r.wf(),
            forall|a: int| 0 <= a < IO_SPACE_SIZE ==> #[trigger] r@[a] == 0,
    {
        let mut regs: Vec<u8> = Vec::new();
        let mut i: usize = 0;
        while i < IO_SPACE_SIZE
            invariant
                i <= IO_SPACE_SIZE,
                regs@.len() == i,
                forall|a: int| 0 <= a < i ==> #[trigger] regs@[a] == 0,
            decreases IO_SPACE_SIZE - i,
        {
            regs.push(0);
            i = i + 1;
        }
        IoSpace { regs }
    }
}

/// Writes `value` to the register at `addr`.
pub fn io_write_u8(io: &mut IoSpace, addr: usize, value: u8)
    requires
        old(io).wf(),
        addr < IO_SPACE_SIZE,
    ensures
        final(io)@ == old(io)@.update(addr as int, value),
{
    io.regs.set(addr, value);
}

/// Reads the register at `addr`.
pub fn io_read_u8(io: &IoSpace, addr: usize) -> (r: u8)
    requires
        io.wf(),
        addr < IO_SPACE_SIZE,
    ensures
        r == io@[addr as int],
{
    io.regs[addr]
}

/// Register values after performing `writes` in order.
pub open spec fn apply_spec(m: Seq<u8>, writes: Seq<RegWrite>) -> Seq<u8>
    decreases writes.len(),
{
    if writes.len() == 0 {
        m
    } else {
        apply_spec(m, writes.drop_last()).update(writes.last().addr as int, writes.last().value)
    }
}

pub open spec fn writes_in_range(writes: Seq<RegWrite>) -> bool {
    forall|i: int| 0 <= i < writes.len() ==> (#[trigger] writes[i]).addr < IO_SPACE_SIZE
}

/// Performs `writes` in order.
pub fn apply_writes(io: &mut IoSpace, writes: &Vec<RegWrite>)
    requires
        old(io).wf(),
        writes_in_range(writes@),
    ensures
        final(io).wf(),
        final(io)@ == apply_spec(old(io)@, writes@),
{
    let ghost start = io@;
    let mut i: usize = 0;
    while i < writes.len()
        invariant
            io.wf(),
            i <= writes@.len(),
            writes_in_range(writes@),
            io@ == apply_spec(start, writes@.subrange(0, i as int)),
        decreases writes@.len() - i,
    {
        let w = writes[i];
        io_write_u8(io, w.addr, w.value);
        i = i + 1;
        assert(writes@.subrange(0, i as int).drop_last() == writes@.subrange(0, i - 1));
    }
    assert(writes@.subrange(0, writes@.len() as int) == writes@);
}

/// The write of `value` to the register at `addr`.
pub open spec fn reg_write(addr: usize, value: u8) -> RegWrite {
    RegWrite { addr, value }
}

/// The colour band: two line syncs, the test scroll value and the band
/// colours, eight more line syncs, then the sprite scroll value and the two
/// saved colours put back.
pub open spec fn band_spec(ferris_hscr: u8, test_hscr: u8, colpf1_save: u8, colpf2_save: u8) -> Seq<RegWrite> {
    seq![
        reg_write(WSYNC, test_hscr),
        reg_write(WSYNC, test_hscr),
        reg_write(HSCROLL, test_hscr),
        reg_write(COLPF1, BAND_COLPF1),
        reg_write(COLPF2, BAND_COLPF2),
        reg_write(WSYNC, test_hscr),
        reg_write(WSYNC, test_hscr),
        reg_write(WSYNC, test_hscr),
        reg_write(WSYNC, test_hscr),
        reg_write(WSYNC, test_hscr),
        reg_write(WSYNC, test_hscr),
        reg_write(WSYNC, test_hscr),
        reg_write(WSYNC, test_hscr),
        reg_write(HSCROLL, ferris_hscr),
        reg_write(COLPF1, colpf1_save),
        reg_write(COLPF2, colpf2_save),
    ]
}

fn push_write(out: &mut Vec<RegWrite>, addr: usize, value: u8)
    ensures
        final(out)@ == old(out)@.push(reg_write(addr, value)),
{
    out.push(RegWrite { addr, value });
}

/// The register writes of the colour band, in order.
pub fn raster_band_writes(ferris_hscr: u8, test_hscr: u8, colpf1_save: u8, colpf2_save: u8) -> (r: Vec<RegWrite>)
    ensures
        r@ == band_spec(ferris_hscr, test_hscr, colpf1_save, colpf2_save),
{
    let mut out: Vec<RegWrite> = Vec::new();
    push_write(&mut out, WSYNC, test_hscr);
    push_write(&mut out, WSYNC, test_hscr);
    push_write(&mut out, HSCROLL, test_hscr);
    push_write(&mut out, COLPF1, BAND_COLPF1);
    push_write(&mut out, COLPF2, BAND_COLPF2);
    push_write(&mut out, WSYNC, test_hscr);
    push_write(&mut out, WSYNC, test_hscr);
    push_write(&mut out, WSYNC, test_hscr);
    push_write(&mut out, WSYNC, test_hscr);
    push_write(&mut out, WSYNC, test_hscr);
    push_write(&mut out, WSYNC, test_hscr);
    push_write(&mut out, WSYNC, test_hscr);
    push_write(&mut out, WSYNC, test_hscr);
    push_write(&mut out, HSCROLL, ferris_hscr);
    push_write(&mut out, COLPF1, colpf1_save);
    push_write(&mut out, COLPF2, colpf2_save);
    assert(out@ =~= band_spec(ferris_hscr, test_hscr, colpf1_save, colpf2_save));
    out
}

/// The colour band leaves every register as it found it but the line-sync
/// strobe, provided the saved colours are the ones in place and the scroll
/// register holds the sprite's value.
pub proof fn lemma_band_restores(m: Seq<u8>, ferris_hscr: u8, test_hscr: u8)
    requires
        m.len() == IO_SPACE_SIZE,
        m[HSCROLL as int] == ferris_hscr,
    ensures
        apply_spec(m, band_spec(ferris_hscr, test_hscr, m[COLPF1 as int], m[COLPF2 as int]))
            == m.update(WSYNC as int, test_hscr),
{
    let b = band_spec(ferris_hscr, test_hscr, m[COLPF1 as int], m[COLPF2 as int]);
    reveal_with_fuel(apply_spec, 17);
    assert(b.subrange(0, 16) == b);
    assert(apply_spec(m, b) =~= m.update(WSYNC as int, test_hscr));
}

/// Paints the colour band on `io`: saves the two colours from their shadow
/// registers, then performs the band's writes. When the colour registers hold
/// their shadow values and the scroll register the sprite's value, every
/// register but the line-sync strobe ends as it began.
pub fn raster_band(io: &mut IoSpace, ferris_hscr: u8, test_hscr: u8)
    requires
        old(io).wf(),
    ensures
        final(io).wf(),
        final(io)@ == apply_spec(
            old(io)@,
            band_spec(ferris_hscr, test_hscr, old(io)@[COLPF1S as int], old(io)@[COLPF2S as int]),
        ),
        old(io)@[COLPF1 as int] == old(io)@[COLPF1S as int] && old(io)@[COLPF2 as int] == old(
            io,
        )@[COLPF2S as int] && old(io)@[HSCROLL as int] == ferris_hscr ==> final(io)@ == old(io)@.update(
            WSYNC as int,
            test_hscr,
        ),
{
    let colpf1_save: u8 = io_read_u8(io, COLPF1S);
    let colpf2_save: u8 = io_read_u8(io, COLPF2S);
    let writes = raster_band_writes(ferris_hscr, test_hscr, colpf1_save, colpf2_save);
    apply_writes(io, &writes);
    proof {
        if old(io)@[COLPF1 as int] == old(io)@[COLPF1S as int] && old(io)@[COLPF2 as int] == old(io)@[COLPF2S as int]
            && old(io)@[HSCROLL as int] == ferris_hscr {
            lemma_band_restores(old(io)@, ferris_hscr, test_hscr);
        }
    }
}

/// Enables the two players used as a load meter, places them and sets their
/// colours.
pub fn cpu_meter_init_writes() -> (r: Vec<RegWrite>)
    ensures
        r@ == seq![
            reg_write(PMCTL, 3),
            reg_write(PMBASE, 0xd8),
            reg_write(HPOSP0, METER_P0_X),
            reg_write(HPOSP1, METER_P1_X),
            reg_write(COLPM0S, 0xb4),
            reg_write(COLPM1S, 0x84),
        ],
{
    let mut out: Vec<RegWrite> = Vec::new();
    push_write(&mut out, PMCTL, 3);
    push_write(&mut out, PMBASE, 0xd8);
    push_write(&mut out, HPOSP0, METER_P0_X);
    push_write(&mut out, HPOSP1, METER_P1_X);
    push_write(&mut out, COLPM0S, 0xb4);
    push_write(&mut out, COLPM1S, 0x84);
    assert(out@ =~= seq![
            reg_write(PMCTL, 3),
            reg_write(PMBASE, 0xd8),
            reg_write(HPOSP0, METER_P0_X),
            reg_write(HPOSP1, METER_P1_X),
            reg_write(COLPM0S, 0xb4),
            reg_write(COLPM1S, 0x84),
        ]);
    out
}

/// Blanks the load-meter players at the end of the frame's work.
pub fn cpu_meter_done_writes() -> (r: Vec<RegWrite>)
    ensures
        r@ == seq![reg_write(COLPM0, 0), reg_write(COLPM1, 0)],
{
    let mut out: Vec<RegWrite> = Vec::new();
    push_write(&mut out, COLPM0, 0);
    push_write(&mut out, COLPM1, 0);
    assert(out@ =~= seq![reg_write(COLPM0, 0), reg_write(COLPM1, 0)]);
    out
}

/// Sets the sprite's palette and points the display hardware at the frame
/// description placed at `dl_addr` (two bytes, low byte first).
pub fn ferris_init_writes(dl_addr: u16) -> (r: Vec<RegWrite>)
    ensures
        r@ == seq![
            reg_write(COLBKS, 0),
            reg_write(COLPF2S, 0xf),
            reg_write(COLPF1S, 0x24),
            reg_write(COLPF0S, 0x20),
            reg_write(DLPTRS, (dl_addr % 256) as u8),
            reg_write((DLPTRS + 1) as usize, (dl_addr / 256) as u8),
        ],
{
    let mut out: Vec<RegWrite> = Vec::new();
    push_write(&mut out, COLBKS, 0);
    push_write(&mut out, COLPF2S, 0xf);
    push_write(&mut out, COLPF1S, 0x24);
    push_write(&mut out, COLPF0S, 0x20);
    push_write(&mut out, DLPTRS, (dl_addr % 256) as u8);
    push_write(&mut out, DLPTRS + 1, (dl_addr / 256) as u8);
    assert(out@ =~= seq![
            reg_write(COLBKS, 0),
            reg_write(COLPF2S, 0xf),
            reg_write(COLPF1S, 0x24),
            reg_write(COLPF0S, 0x20),
            reg_write(DLPTRS, (dl_addr % 256) as u8),
            reg_write((DLPTRS + 1) as usize, (dl_addr / 256) as u8),
        ]);
    out
}

} // verus!
