//! `zwp_linux_buffer_params_v1`: the planes a client gathers before it
//! creates a DMA buffer from them.
use vstd::prelude::*;
use crate::util::rect::IVec2;
use crate::wl::buffer::DmabufFlags;

verus! {

/// A DMA buffer: its size in pixels, its fourcc format and its flags.
#[derive(Clone, Copy, PartialEq, Eq, Debug, Structural)]
pub struct DmaBuffer {
    pub size: IVec2,
    pub format: u32,
    pub flags: DmabufFlags,
}

/// One plane of a DMA buffer: the file descriptor it lives in, its index
/// among the planes, where it starts, its stride and its format modifier.
pub struct DmaBufferPlane<Fd> {
    pub fd: Fd,
    pub plane_idx: u32,
    pub offset: u32,
    pub stride: u32,
    pub modifier: u64,
}

/// The planes gathered so far, in the order they were added.
pub struct DmaBufferParams<Fd> {
    pub planes: Vec<DmaBufferPlane<Fd>>,
}

/// What the renderer is asked to import: the size of the buffer, its format
/// and flags, and its planes in order of their index.
pub struct ImportDmaBufferRequest<Fd> {
    pub width: u32,
    pub height: u32,
    pub format: u32,
    pub flags: DmabufFlags,
    pub planes: Vec<DmaBufferPlane<Fd>>,
}

/// The planes of index `k`.
pub open spec fn with_index<Fd>(k: u32) -> spec_fn(DmaBufferPlane<Fd>) -> bool {
    |p: DmaBufferPlane<Fd>| p.plane_idx == k
}

/// The planes come in order of their index.
pub open spec fn sorted_by_index<Fd>(s: Seq<DmaBufferPlane<Fd>>) -> bool {
    forall|i: int, j: int| 0 <= i < j < s.len() ==> s[i].plane_idx <= s[j].plane_idx
}

/// The 64-bit modifier made of its high and low halves.
pub open spec fn modifier_of(modifier_hi: u32, modifier_lo: u32) -> u64 {
    (modifier_hi * 0x1_0000_0000 + modifier_lo) as u64
}

impl<Fd> DmaBufferParams<Fd> {
    /// No planes yet.
    pub fn new() -> (r: DmaBufferParams<Fd>)
        ensures
            r.planes@.len() == 0,
    {
        DmaBufferParams { planes: Vec::new() }
    }

    /// `add`: one more plane, its modifier put together from two halves.
    pub fn add(
        &mut self,
        fd: Fd,
        plane_idx: u32,
        offset: u32,
        stride: u32,
        modifier_hi: u32,
        modifier_lo: u32,
    )
        ensures
            final(self).planes@ == old(self).planes@.push(
                DmaBufferPlane {
                    fd,
                    plane_idx,
                    offset,
                    stride,
                    modifier: modifier_of(modifier_hi, modifier_lo),
                },
            ),
    {
        let modifier: u64 = ((modifier_hi as u64) << 32u64) | (modifier_lo as u64);
        assert(((modifier_hi as u64) << 32u64) | (modifier_lo as u64) == modifier_hi * 0x1_0000_0000
            + modifier_lo) by (bit_vector);
        self.planes.push(DmaBufferPlane { fd, plane_idx, offset, stride, modifier });
    }

    /// Takes every plane out, sorted by index; planes of the same index keep
    /// the order they were added in.
    pub fn take_sorted_planes(&mut self) -> (r: Vec<DmaBufferPlane<Fd>>)
        ensures
            final(self).planes@.len() == 0,
            sorted_by_index(r@),
            forall|k: u32| #[trigger] r@.filter(with_index(k)) == old(self).planes@.filter(
                with_index(k),
            ),
            r@.len() == old(self).planes@.len(),
    {
        let mut input: Vec<DmaBufferPlane<Fd>> = Vec::new();
        std::mem::swap(&mut input, &mut self.planes);
        let ghost orig = input@;
        let total: usize = input.len();
        assert(orig.len() == total);
        let mut out: Vec<DmaBufferPlane<Fd>> = Vec::new();
        let mut n: usize = 0;
        while input.len() > 0
            invariant
                n <= orig.len(),
                orig.len() <= usize::MAX,
                input@ == orig.skip(n as int),
                out@.len() == n,
                sorted_by_index(out@),
                forall|k: u32| #[trigger] out@.filter(with_index(k)) == orig.take(n as int).filter(
                    with_index(k),
                ),
                self.planes@.len() == 0,
            decreases input.len(),
        {
            let p = input.remove(0);
            let ghost prev = out@;
            let mut pos: usize = 0;
            while pos < out.len() && out[pos].plane_idx <= p.plane_idx
                invariant
                    pos <= out.len(),
                    out@ == prev,
                    forall|i: int| 0 <= i < pos ==> out@[i].plane_idx <= p.plane_idx,
                decreases out.len() - pos,
            {
                pos = pos + 1;
            }
            proof {
                assert(forall|i: int| pos <= i < prev.len() ==> prev[i].plane_idx > p.plane_idx);
                assert(p == orig[n as int]);
                assert(orig.take(n + 1) =~= orig.take(n as int).push(p));
                assert forall|k: u32| #[trigger] prev.insert(pos as int, p).filter(with_index(k))
                    == orig.take(n + 1).filter(with_index(k)) by {
                    lemma_insert_keeps_groups(prev, pos as int, p, k);
                    orig.take(n as int).lemma_filter_push(p, with_index(k));
                }
                prev.insert_ensures(pos as int, p);
            }
            out.insert(pos, p);
            n = n + 1;
        }
        proof {
            assert(orig.take(n as int) =~= orig);
        }
        out
    }
}

impl<Fd> DmaBufferParams<Fd> {
    /// `create` (or `create_immed`): the buffer of the given size, format and
    /// flags, and the request that imports it from the planes gathered, which
    /// leave the parameters. The size is handed to the renderer as unsigned
    /// numbers, bit for bit.
    pub fn create(&mut self, width: i32, height: i32, format: u32, flags: DmabufFlags) -> (r: (
        DmaBuffer,
        ImportDmaBufferRequest<Fd>,
    ))
        ensures
            r.0 == (DmaBuffer { size: IVec2 { x: width, y: height }, format, flags }),
            r.1.width == width as u32,
            r.1.height == height as u32,
            r.1.format == format,
            r.1.flags == flags,
            final(self).planes@.len() == 0,
            sorted_by_index(r.1.planes@),
            forall|k: u32| #[trigger] r.1.planes@.filter(with_index(k)) == old(self).planes@.filter(
                with_index(k),
            ),
            r.1.planes@.len() == old(self).planes@.len(),
    {
        let planes = self.take_sorted_planes();
        let request = ImportDmaBufferRequest {
            width: width as u32,
            height: height as u32,
            format,
            flags,
            planes,
        };
        (DmaBuffer { size: IVec2::new(width, height), format, flags }, request)
    }
}

/// Inserting a plane after every plane of no greater index and before every
/// plane of greater index appends it to the planes of its own index and
/// leaves the other indices as they were.
proof fn lemma_insert_keeps_groups<Fd>(
    s: Seq<DmaBufferPlane<Fd>>,
    pos: int,
    e: DmaBufferPlane<Fd>,
    k: u32,
)
    requires
        0 <= pos <= s.len(),
        forall|i: int| 0 <= i < pos ==> s[i].plane_idx <= e.plane_idx,
        forall|i: int| pos <= i < s.len() ==> s[i].plane_idx > e.plane_idx,
    ensures
        s.insert(pos, e).filter(with_index(k)) == (if e.plane_idx == k {
            s.filter(with_index(k)).push(e)
        } else {
            s.filter(with_index(k))
        }),
{
    let f = with_index::<Fd>(k);
    let a = s.take(pos);
    let b = s.skip(pos);
    assert(s =~= a + b);
    assert(s.insert(pos, e) =~= a.push(e) + b);
    Seq::filter_distributes_over_add(a, b, f);
    Seq::filter_distributes_over_add(a.push(e), b, f);
    a.lemma_filter_push(e, f);
    if e.plane_idx == k {
        assert(b.all(|x: DmaBufferPlane<Fd>| !f(x)));
        b.lemma_all_neg_filter_empty(f);
        assert(b.filter(f) =~= Seq::<DmaBufferPlane<Fd>>::empty());
        assert(a.filter(f) + b.filter(f) =~= a.filter(f));
        assert(a.push(e).filter(f) + b.filter(f) =~= a.push(e).filter(f));
    }
}

} // verus!
