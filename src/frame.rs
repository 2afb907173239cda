use vstd::prelude::*;
use crate::dlist::{
    block_patched, bottom_start_row, scroll_text, set_ferris_position, start_row, DisplayList,
    SubPixelAddressTable, FERRIS_HEIGHT, ROW_STRIDE,
};
use crate::motion::{
    advance, advance_text_pos, ferris_hscroll, ferris_position, position_x, position_y,
    text_hscroll, text_period, ALPHA1_INC, ALPHA2_INC,
};

verus! {

/// The counters carried from one frame to the next.
#[derive(Clone, Copy, Debug, PartialEq, Eq, Structural)]
pub struct FrameState {
    pub frame_cnt: u16,
    pub alpha1: u16,
    pub alpha2: u16,
    pub text_pos: usize,
}

/// What the frame loop must do on the hardware for one frame.
#[derive(Clone, Copy, Debug, PartialEq, Eq, Structural)]
pub struct FramePlan {
    /// Sprite offset used for this frame.
    pub x: i8,
    pub y: i8,
    /// Fine scroll value for the sprite, written at once and again after the
    /// colour band.
    pub ferris_hscr: u8,
    /// Fine scroll value used while the colour band is shown.
    pub test_hscr: u8,
}

/// Everything the frame loop keeps: the frame description, the row address
/// tables of the sprite bitmap, the counters, and where the scrolling text
/// lies.
pub struct Demo {
    pub dlist: DisplayList,
    pub table: SubPixelAddressTable,
    pub state: FrameState,
    pub text_base: usize,
    pub text_period: usize,
}

impl Demo {
    pub open spec fn wf(&self) -> bool {
        &&& self.dlist.wf()
        &&& self.table.wf()
        &&& self.text_period > 0
        &&& self.state.text_pos < self.text_period
        &&& self.text_base + self.text_period / 4 <= usize::MAX
    }

    /// Sets everything up once: the frame description placed at `dl_addr`,
    /// the address tables of the bitmap at `ferris_addr`, counters at zero,
    /// and a scrolling text of `text_len` screen codes at `text_base`.
    pub fn new(dl_addr: usize, ferris_addr: usize, text_base: usize, text_len: usize) -> (r: Self)
        requires
            ferris_addr + FERRIS_HEIGHT * ROW_STRIDE <= usize::MAX,
            text_len > 32,
            (text_len - 32) * 4 <= usize::MAX,
            text_base + text_len <= usize::MAX,
        ensures
            r.wf(),
            r.dlist.footer.addr == dl_addr,
            r.table.base_spec() == ferris_addr,
            r.state == (FrameState { frame_cnt: 0, alpha1: 0, alpha2: 0, text_pos: 0 }),
            r.text_base == text_base,
            r.text_period == (text_len - 32) * 4,
    {
        let dlist = DisplayList::new(dl_addr);
        let table = SubPixelAddressTable::new(ferris_addr);
        let period = text_period(text_len);
        Demo {
            dlist,
            table,
            state: FrameState { frame_cnt: 0, alpha1: 0, alpha2: 0, text_pos: 0 },
            text_base,
            text_period: period,
        }
    }

    /// Computes one frame from the sine amplitudes of the two phase
    /// accumulators' current values: places the sprite, points the text line
    /// at the current scroll position, and advances every counter. The
    /// address tables are left untouched.
    pub fn frame(&mut self, sin_x: i8, sin_y: i8) -> (r: FramePlan)
        requires
            old(self).wf(),
        ensures
            final(self).wf(),
            final(self).table == old(self).table,
            final(self).text_base == old(self).text_base,
            final(self).text_period == old(self).text_period,
            r.x as int == position_x(old(self).state.frame_cnt as int, sin_x as int),
            r.y as int == position_y(old(self).state.frame_cnt as int, sin_y as int),
            r.ferris_hscr as int == 15 - (r.x as int) % 4,
            r.test_hscr as int == 3 - old(self).state.text_pos as int % 4,
            block_patched(
                final(self).dlist.lines@,
                old(self).dlist.lines@,
                old(self).table,
                start_row(r.y as int),
                (r.x as int + 128) / 4,
            ),
            block_patched(
                final(self).dlist.lines2@,
                old(self).dlist.lines2@,
                old(self).table,
                bottom_start_row(r.y as int),
                (r.x as int + 128) / 4,
            ),
            final(self).dlist.text.addr == old(self).text_base + old(self).state.text_pos / 4,
            final(self).dlist.text.mode == old(self).dlist.text.mode,
            final(self).dlist.footer == old(self).dlist.footer,
            final(self).dlist.data == old(self).dlist.data,
            final(self).state.alpha1 as int == (old(self).state.alpha1 as int + ALPHA1_INC as int) % 65536,
            final(self).state.alpha2 as int == (old(self).state.alpha2 as int + ALPHA2_INC as int) % 65536,
            final(self).state.text_pos as int == (old(self).state.text_pos as int + 1) % old(self).text_period as int,
            final(self).state.frame_cnt as int == (old(self).state.frame_cnt as int + 1) % 65536,
    {
        let st = self.state;
        let (x, y) = ferris_position(st.frame_cnt, sin_x, sin_y);
        let ferris_hscr = ferris_hscroll(x);
        set_ferris_position(&mut self.dlist, &self.table, x, y);
        proof {
            vstd::arithmetic::div_mod::lemma_div_is_ordered(st.text_pos as int, self.text_period as int, 4);
        }
        scroll_text(&mut self.dlist, self.text_base, st.text_pos / 4);
        let test_hscr = text_hscroll(st.text_pos);
        self.state = FrameState {
            frame_cnt: st.frame_cnt.wrapping_add(1),
            alpha1: advance(st.alpha1, ALPHA1_INC),
            alpha2: advance(st.alpha2, ALPHA2_INC),
            text_pos: advance_text_pos(st.text_pos, self.text_period),
        };
        FramePlan { x, y, ferris_hscr, test_hscr }
    }
}

} // verus!
