//! Codec descriptors and the lazy iteration protocols over their
//! capability arrays.
//!
//! A native descriptor exposes its supported channel layouts, sample formats
//! and sample rates as sentinel-terminated arrays whose base pointer may be
//! null when the codec does not restrict that property. The model holds a
//! snapshot of such an array's cells (empty for a null base pointer) and the
//! iterators stop, without error, the first time they run out of cells or
//! read the property's sentinel.

use vstd::prelude::*;

use crate::AV_SAMPLE_FMT_NONE;

verus! {

/// An available encoder or decoder implementation: its name and the
/// capability arrays of its native descriptor, cell for cell. A property the
/// codec does not restrict (a null native array) is an empty cell sequence.
#[derive(Clone, Debug)]
pub struct Codec {
    pub name: String,
    pub channel_layouts: Vec<u64>,
    pub sample_fmts: Vec<i32>,
    pub supported_samplerates: Vec<i32>,
}

fn copy_u64s(v: &Vec<u64>) -> (r: Vec<u64>)
    ensures
        r@ == v@,
{
    let mut r: Vec<u64> = Vec::new();
    let mut i: usize = 0;
    while i < v.len()
        invariant
            i <= v.len(),
            r@ == v@.subrange(0, i as int),
        decreases v.len() - i,
    {
        r.push(v[i]);
        i = i + 1;
    }
    proof {
        assert(v@.subrange(0, v@.len() as int) =~= v@);
    }
    r
}

fn copy_i32s(v: &Vec<i32>) -> (r: Vec<i32>)
    ensures
        r@ == v@,
{
    let mut r: Vec<i32> = Vec::new();
    let mut i: usize = 0;
    while i < v.len()
        invariant
            i <= v.len(),
            r@ == v@.subrange(0, i as int),
        decreases v.len() - i,
    {
        r.push(v[i]);
        i = i + 1;
    }
    proof {
        assert(v@.subrange(0, v@.len() as int) =~= v@);
    }
    r
}

impl Codec {
    /// The descriptor's name.
    pub fn name(&self) -> (r: &String)
        ensures
            r@ == self.name@,
    {
        &self.name
    }

    /// Iteration over the supported channel layouts, which the native array
    /// terminates with a zero sentinel.
    pub fn channel_layouts(&self) -> (it: ChannelLayoutIter)
        ensures
            it.cells@ == self.channel_layouts@,
            it.pos == 0,
    {
        ChannelLayoutIter { cells: copy_u64s(&self.channel_layouts), pos: 0 }
    }

    /// Iteration over the supported sample formats, which the native array
    /// terminates with the designated "none" sentinel.
    pub fn sample_formats(&self) -> (it: SampleFormatIter)
        ensures
            it.cells@ == self.sample_fmts@,
            it.pos == 0,
    {
        SampleFormatIter { cells: copy_i32s(&self.sample_fmts), pos: 0 }
    }

    /// Iteration over the supported sample rates, which the native array
    /// terminates with a zero sentinel.
    pub fn supported_sample_rates(&self) -> (it: SupportedSampleRateIter)
        ensures
            it.cells@ == self.supported_samplerates@,
            it.pos == 0,
    {
        SupportedSampleRateIter { cells: copy_i32s(&self.supported_samplerates), pos: 0 }
    }
}

/// The values a channel-layout array yields from position `pos` on: the
/// longest run of cells before the end of the snapshot or the zero sentinel,
/// whichever comes first.
pub open spec fn produced_layouts(cells: Seq<u64>, pos: int) -> Seq<u64>
    decreases cells.len() - pos,
{
    if pos < 0 || pos >= cells.len() {
        Seq::empty()
    } else if cells[pos] == 0 {
        Seq::empty()
    } else {
        seq![cells[pos]] + produced_layouts(cells, pos + 1)
    }
}

/// The values a sample-format array yields from position `pos` on, stopping
/// at the "none" sentinel.
pub open spec fn produced_sample_formats(cells: Seq<i32>, pos: int) -> Seq<i32>
    decreases cells.len() - pos,
{
    if pos < 0 || pos >= cells.len() {
        Seq::empty()
    } else if cells[pos] == AV_SAMPLE_FMT_NONE {
        Seq::empty()
    } else {
        seq![cells[pos]] + produced_sample_formats(cells, pos + 1)
    }
}

/// The values a sample-rate array yields from position `pos` on, stopping at
/// the zero sentinel.
pub open spec fn produced_sample_rates(cells: Seq<i32>, pos: int) -> Seq<i32>
    decreases cells.len() - pos,
{
    if pos < 0 || pos >= cells.len() {
        Seq::empty()
    } else if cells[pos] == 0 {
        Seq::empty()
    } else {
        seq![cells[pos]] + produced_sample_rates(cells, pos + 1)
    }
}

/// Emptiness law: a capability array with no cells (the model of a null
/// native base pointer) produces a zero-length sequence for every cursor
/// position, for each of the three properties — never an error.
pub proof fn lemma_null_array_produces_nothing(
    layouts: Seq<u64>,
    formats: Seq<i32>,
    rates: Seq<i32>,
    pos: int,
)
    requires
        layouts.len() == 0,
        formats.len() == 0,
        rates.len() == 0,
    ensures
        produced_layouts(layouts, pos) == Seq::<u64>::empty(),
        produced_sample_formats(formats, pos) == Seq::<i32>::empty(),
        produced_sample_rates(rates, pos) == Seq::<i32>::empty(),
{
}

/// Cursor over a channel-layout array snapshot.
#[derive(Clone, Debug)]
pub struct ChannelLayoutIter {
    pub cells: Vec<u64>,
    pub pos: usize,
}

impl ChannelLayoutIter {
    /// One step of the iteration protocol: yields the cell under the cursor
    /// and advances, or stops for good at the end of the cells or at the
    /// zero sentinel.
    pub fn next(&mut self) -> (r: Option<u64>)
        ensures
            ({
                let cs = old(self).cells@;
                let p = old(self).pos;
                if p < cs.len() && cs[p as int] != 0 {
                    &&& r == Some(cs[p as int])
                    &&& final(self).cells@ == cs
                    &&& final(self).pos == p + 1
                } else {
                    &&& r is None
                    &&& *final(self) == *old(self)
                }
            }),
    {
        if self.pos >= self.cells.len() {
            return None;
        }
        let v = self.cells[self.pos];
        if v == 0 {
            None
        } else {
            self.pos = self.pos + 1;
            Some(v)
        }
    }

    /// Runs the iteration to its stopping point and returns everything it
    /// yields: exactly the sentinel-free run of cells under the cursor.
    pub fn into_vec(self) -> (vals: Vec<u64>)
        ensures
            vals@ == produced_layouts(self.cells@, self.pos as int),
    {
        let mut it = self;
        let ghost orig_cells = it.cells@;
        let ghost orig_pos = it.pos as int;
        let mut vals: Vec<u64> = Vec::new();
        #[verifier::loop_isolation(false)]
        loop
            invariant
                it.cells@ == orig_cells,
                vals@ + produced_layouts(it.cells@, it.pos as int) == produced_layouts(
                    orig_cells,
                    orig_pos,
                ),
            decreases it.cells@.len() - it.pos,
        {
            match it.next() {
                Some(v) => {
                    vals.push(v);
                },
                None => {
                    proof {
                        assert(produced_layouts(it.cells@, it.pos as int) =~= Seq::<u64>::empty());
                        assert(vals@ + produced_layouts(it.cells@, it.pos as int) =~= vals@);
                    }
                    return vals;
                },
            }
        }
    }
}

/// Cursor over a sample-format array snapshot.
#[derive(Clone, Debug)]
pub struct SampleFormatIter {
    pub cells: Vec<i32>,
    pub pos: usize,
}

impl SampleFormatIter {
    /// One step of the iteration protocol: yields the cell under the cursor
    /// and advances, or stops for good at the end of the cells or at the
    /// "none" sentinel.
    pub fn next(&mut self) -> (r: Option<i32>)
        ensures
            ({
                let cs = old(self).cells@;
                let p = old(self).pos;
                if p < cs.len() && cs[p as int] != AV_SAMPLE_FMT_NONE {
                    &&& r == Some(cs[p as int])
                    &&& final(self).cells@ == cs
                    &&& final(self).pos == p + 1
                } else {
                    &&& r is None
                    &&& *final(self) == *old(self)
                }
            }),
    {
        if self.pos >= self.cells.len() {
            return None;
        }
        let v = self.cells[self.pos];
        if v == AV_SAMPLE_FMT_NONE {
            None
        } else {
            self.pos = self.pos + 1;
            Some(v)
        }
    }

    /// Runs the iteration to its stopping point and returns everything it
    /// yields.
    pub fn into_vec(self) -> (vals: Vec<i32>)
        ensures
            vals@ == produced_sample_formats(self.cells@, self.pos as int),
    {
        let mut it = self;
        let ghost orig_cells = it.cells@;
        let ghost orig_pos = it.pos as int;
        let mut vals: Vec<i32> = Vec::new();
        #[verifier::loop_isolation(false)]
        loop
            invariant
                it.cells@ == orig_cells,
                vals@ + produced_sample_formats(it.cells@, it.pos as int)
                    == produced_sample_formats(orig_cells, orig_pos),
            decreases it.cells@.len() - it.pos,
        {
            match it.next() {
                Some(v) => {
                    vals.push(v);
                },
                None => {
                    proof {
                        assert(produced_sample_formats(it.cells@, it.pos as int) =~= Seq::<i32>::empty());
                        assert(vals@ + produced_sample_formats(it.cells@, it.pos as int) =~= vals@);
                    }
                    return vals;
                },
            }
        }
    }
}

/// Cursor over a sample-rate array snapshot.
#[derive(Clone, Debug)]
pub struct SupportedSampleRateIter {
    pub cells: Vec<i32>,
    pub pos: usize,
}

impl SupportedSampleRateIter {
    /// One step of the iteration protocol: yields the cell under the cursor
    /// and advances, or stops for good at the end of the cells or at the
    /// zero sentinel.
    pub fn next(&mut self) -> (r: Option<i32>)
        ensures
            ({
                let cs = old(self).cells@;
                let p = old(self).pos;
                if p < cs.len() && cs[p as int] != 0 {
                    &&& r == Some(cs[p as int])
                    &&& final(self).cells@ == cs
                    &&& final(self).pos == p + 1
                } else {
                    &&& r is None
                    &&& *final(self) == *old(self)
                }
            }),
    {
        if self.pos >= self.cells.len() {
            return None;
        }
        let v = self.cells[self.pos];
        if v == 0 {
            None
        } else {
            self.pos = self.pos + 1;
            Some(v)
        }
    }

    /// Runs the iteration to its stopping point and returns everything it
    /// yields.
    pub fn into_vec(self) -> (vals: Vec<i32>)
        ensures
            vals@ == produced_sample_rates(self.cells@, self.pos as int),
    {
        let mut it = self;
        let ghost orig_cells = it.cells@;
        let ghost orig_pos = it.pos as int;
        let mut vals: Vec<i32> = Vec::new();
        #[verifier::loop_isolation(false)]
        loop
            invariant
                it.cells@ == orig_cells,
                vals@ + produced_sample_rates(it.cells@, it.pos as int) == produced_sample_rates(
                    orig_cells,
                    orig_pos,
                ),
            decreases it.cells@.len() - it.pos,
        {
            match it.next() {
                Some(v) => {
                    vals.push(v);
                },
                None => {
                    proof {
                        assert(produced_sample_rates(it.cells@, it.pos as int) =~= Seq::<i32>::empty());
                        assert(vals@ + produced_sample_rates(it.cells@, it.pos as int) =~= vals@);
                    }
                    return vals;
                },
            }
        }
    }
}

} // verus!
