//! Laying out the waveform of a song across a widget.
//!
//! The peaks are grouped into consecutive chunks, one bar per chunk, so that
//! the bars, two pixels apart, fit the widget's width. Averaging the peaks of a
//! chunk and painting the bars is left to the drawing code.

use vstd::prelude::*;

verus! {

/// The direction a size is measured in.
#[derive(Clone, Copy, Debug, PartialEq, Eq, Structural)]
pub enum Orientation {
    Horizontal,
    Vertical,
    /// A direction that the toolkit does not name.
    Unknown,
}

/// The size request of the waveform for an orientation, as
/// (minimum, natural, minimum baseline, natural baseline): it takes any width
/// and is 48 pixels high; it has no baseline.
pub fn measure(orientation: Orientation) -> (size: (i32, i32, i32, i32))
    ensures
        size == (match orientation {
            Orientation::Vertical => (48i32, 48i32, -1i32, -1i32),
            _ => (0i32, 0i32, -1i32, -1i32),
        }),
{
    match orientation {
        Orientation::Horizontal => (0, 0, -1, -1),
        Orientation::Vertical => (48, 48, -1, -1),
        _ => (0, 0, -1, -1),
    }
}

/// The number of peaks averaged into one bar: the peaks per two pixels of
/// width, rounded up.
pub open spec fn spec_chunk_size(n_peaks: int, width: int) -> int
    recommends
        width > 0,
{
    (2 * n_peaks + width - 1) / width
}

/// The number of bars: the chunks needed to hold every peak.
pub open spec fn spec_bar_count(n_peaks: int, chunk: int) -> int
    recommends
        chunk > 0,
{
    (n_peaks + chunk - 1) / chunk
}

/// One bar of the waveform: the peaks `start..end` averaged, drawn `offset`
/// pixels from the left edge.
#[derive(Clone, Copy, Debug, PartialEq, Eq, Structural)]
pub struct BarSpan {
    pub start: usize,
    pub end: usize,
    pub offset: u32,
}

/// The `k`-th bar when `n_peaks` peaks are grouped `chunk` at a time: the first
/// bar is two pixels from the edge and the bars are two pixels apart.
pub open spec fn spec_bar(k: int, chunk: int, n_peaks: int) -> (int, int, int) {
    (
        k * chunk,
        if (k + 1) * chunk < n_peaks { (k + 1) * chunk } else { n_peaks },
        2 * (k + 1),
    )
}

/// Whether the bars are the waveform's layout for `n_peaks` peaks in a widget
/// of the given size. Nothing is drawn when there are no peaks or the widget
/// has no area.
pub open spec fn is_layout(bars: Seq<BarSpan>, n_peaks: int, width: int, height: int) -> bool {
    if n_peaks == 0 || width == 0 || height == 0 {
        bars.len() == 0
    } else {
        let chunk = spec_chunk_size(n_peaks, width);
        &&& bars.len() == spec_bar_count(n_peaks, chunk)
        &&& forall|k: int|
            0 <= k < bars.len() ==> (bars[k].start as int, bars[k].end as int, bars[k].offset as int)
                == #[trigger] spec_bar(k, chunk, n_peaks)
    }
}

/// With at least one peak and some width, a chunk holds at least one peak.
pub proof fn lemma_chunk_positive(n_peaks: int, width: int)
    requires
        n_peaks > 0,
        width > 0,
    ensures
        spec_chunk_size(n_peaks, width) >= 1,
        spec_chunk_size(n_peaks, width) * width >= 2 * n_peaks,
{
    let c = spec_chunk_size(n_peaks, width);
    let a = 2 * n_peaks + width - 1;
    assert(a >= width);
    assert(c * width <= a && a < c * width + width) by (nonlinear_arith)
        requires
            c == a / width,
            width > 0,
            a >= 0,
    ;
    assert(c >= 1) by (nonlinear_arith)
        requires
            c * width + width > a,
            a >= width,
            width > 0,
    ;
}

/// The bars fit the widget: the last bar is at most one pixel past its width.
pub proof fn lemma_bars_fit_width(n_peaks: int, width: int)
    requires
        n_peaks > 0,
        width > 0,
    ensures
        2 * spec_bar_count(n_peaks, spec_chunk_size(n_peaks, width)) <= width + 1,
{
    let c = spec_chunk_size(n_peaks, width);
    lemma_chunk_positive(n_peaks, width);
    let m = spec_bar_count(n_peaks, c);
    let a = n_peaks + c - 1;
    assert(m * c <= a) by (nonlinear_arith)
        requires
            m == a / c,
            c > 0,
            a >= 0,
    ;
    // (m - 1) * c <= n_peaks - 1, and 2 * n_peaks <= c * width
    assert(2 * (m - 1) * c < c * width) by (nonlinear_arith)
        requires
            m * c <= n_peaks + c - 1,
            c * width >= 2 * n_peaks,
            c > 0,
    ;
    assert(2 * (m - 1) < width) by (nonlinear_arith)
        requires
            2 * (m - 1) * c < c * width,
            c > 0,
    ;
}

/// Every peak lies in exactly one bar: the peak at `p` lies in bar `p / chunk`,
/// which is one of the bars drawn, and in no other.
pub proof fn lemma_each_peak_in_one_bar(n_peaks: int, width: int, p: int)
    requires
        n_peaks > 0,
        width > 0,
        0 <= p < n_peaks,
    ensures
        ({
            let c = spec_chunk_size(n_peaks, width);
            let k = p / c;
            &&& 0 <= k < spec_bar_count(n_peaks, c)
            &&& spec_bar(k, c, n_peaks).0 <= p < spec_bar(k, c, n_peaks).1
            &&& forall|j: int|
                0 <= j < spec_bar_count(n_peaks, c) && #[trigger] spec_bar(j, c, n_peaks).0 <= p
                    && p < spec_bar(j, c, n_peaks).1 ==> j == k
        }),
{
    let c = spec_chunk_size(n_peaks, width);
    lemma_chunk_positive(n_peaks, width);
    let k = p / c;
    let m = spec_bar_count(n_peaks, c);
    assert(k * c <= p < k * c + c) by (nonlinear_arith)
        requires
            k == p / c,
            c > 0,
            p >= 0,
    ;
    assert(0 <= k) by (nonlinear_arith)
        requires
            k == p / c,
            c > 0,
            p >= 0,
    ;
    assert(k < m) by (nonlinear_arith)
        requires
            m == (n_peaks + c - 1) / c,
            k * c <= p,
            p < n_peaks,
            c > 0,
    ;
    assert((k + 1) * c == k * c + c) by (nonlinear_arith);
    assert forall|j: int|
        0 <= j < m && #[trigger] spec_bar(j, c, n_peaks).0 <= p && p < spec_bar(j, c, n_peaks).1 implies j
        == k by {
        assert((j + 1) * c == j * c + c) by (nonlinear_arith);
        assert(j * c <= p < j * c + c);
        assert(j == k) by (nonlinear_arith)
            requires
                j * c <= p,
                p < j * c + c,
                k * c <= p,
                p < k * c + c,
                c > 0,
        ;
    }
}

/// The bars to draw for `n_peaks` peaks in a widget of the given size.
pub fn waveform_bars(n_peaks: usize, width: i32, height: i32) -> (bars: Vec<BarSpan>)
    requires
        n_peaks == 0 || height == 0 || width >= 0,
    ensures
        is_layout(bars@, n_peaks as int, width as int, height as int),
        forall|k: int| 0 <= k < bars@.len() ==> #[trigger] bars@[k].offset as int == 2 * (k + 1),
        forall|k: int|
            0 <= k < bars@.len() - 1 ==> #[trigger] bars@[k + 1].start == bars@[k].end,
        forall|k: int| 0 <= k < bars@.len() ==> #[trigger] bars@[k].start < bars@[k].end,
        bars@.len() > 0 ==> bars@[0].start == 0 && bars@[bars@.len() - 1].end == n_peaks,
        bars@.len() == 0 <==> (n_peaks == 0 || width == 0 || height == 0),
        2 * bars@.len() <= width as int + 1 || bars@.len() == 0,
{
    let mut bars: Vec<BarSpan> = Vec::new();
    if n_peaks == 0 || width == 0 || height == 0 {
        return bars;
    }
    let ghost n = n_peaks as int;
    let ghost w = width as int;
    let ghost c = spec_chunk_size(n, w);
    let ghost m = spec_bar_count(n, c);
    proof {
        lemma_chunk_positive(n, w);
        lemma_bars_fit_width(n, w);
    }
    let w128: u128 = width as u128;
    let chunk128: u128 = (2 * (n_peaks as u128) + w128 - 1) / w128;
    assert(chunk128 == c);
    // A chunk larger than the peaks holds them all in one bar.
    let chunk: usize = if chunk128 >= n_peaks as u128 {
        n_peaks
    } else {
        chunk128 as usize
    };
    let ghost chunk_eff = chunk as int;
    assert(chunk_eff == c || c >= n);
    assert(m >= 1) by (nonlinear_arith)
        requires
            m == (n + c - 1) / c,
            c >= 1,
            n >= 1,
    ;
    let mut start: usize = 0;
    let mut k: usize = 0;
    while start < n_peaks
        invariant
            n == n_peaks as int,
            w == width as int,
            c == spec_chunk_size(n, w),
            m == spec_bar_count(n, c),
            c >= 1,
            2 * m <= w + 1,
            1 <= chunk <= n_peaks,
            chunk as int == c || c >= n,
            c >= n ==> chunk == n_peaks,
            start <= n_peaks,
            bars@.len() == k,
            start == k * c || (start == n_peaks && k == m),
            start < n_peaks ==> start == k * c && k < m,
            start == n_peaks ==> k == m,
            forall|j: int|
                0 <= j < k ==> (bars@[j].start as int, bars@[j].end as int, bars@[j].offset as int)
                    == #[trigger] spec_bar(j, c, n),
            forall|j: int| 0 <= j < k ==> #[trigger] bars@[j].offset as int == 2 * (j + 1),
            forall|j: int| 0 <= j < k - 1 ==> #[trigger] bars@[j + 1].start == bars@[j].end,
            forall|j: int| 0 <= j < k ==> #[trigger] bars@[j].start < bars@[j].end,
            k > 0 ==> bars@[k - 1].end == start && bars@[0].start == 0,
        decreases n_peaks - start,
    {
        assert((k + 1) * c == k * c + c) by (nonlinear_arith);
        let end: usize = if n_peaks - start > chunk {
            start + chunk
        } else {
            n_peaks
        };
        proof {
            if c >= n {
                assert(k == 0) by (nonlinear_arith)
                    requires
                        start == k * c,
                        start < n,
                        c >= n,
                        k >= 0,
            ;
            }
        }
        assert(k < m);
        assert(end as int == spec_bar(k as int, c, n).1);
        assert(2 * (k + 1) <= w + 1);
        let offset: u32 = 2 * ((k + 1) as u32);
        bars.push(BarSpan { start, end, offset });
        proof {
            if end < n_peaks {
                assert(end as int == (k + 1) * c);
                assert(k + 1 < m) by (nonlinear_arith)
                    requires
                        m == (n + c - 1) / c,
                        (k + 1) * c < n,
                        c > 0,
                ;
            } else {
                assert(k + 1 == m) by (nonlinear_arith)
                    requires
                        m == (n + c - 1) / c,
                        k * c < n,
                        (k + 1) * c >= n,
                        c > 0,
                        k >= 0,
                ;
            }
        }
        start = end;
        k = k + 1;
    }
    bars
}

/// In any layout, the bars stand two pixels apart, the first two pixels from the
/// edge, and they take the peaks in order, each bar starting where the
/// previous one ended.
pub proof fn lemma_layout_bars_two_pixels_apart(bars: Seq<BarSpan>, n_peaks: int, width: int, height: int)
    requires
        is_layout(bars, n_peaks, width, height),
        n_peaks >= 0,
        width >= 0,
    ensures
        forall|k: int| 0 <= k < bars.len() ==> #[trigger] bars[k].offset as int == 2 * (k + 1),
        forall|k: int| 0 <= k < bars.len() - 1 ==> #[trigger] bars[k + 1].start == bars[k].end,
{
    if bars.len() > 0 {
        let c = spec_chunk_size(n_peaks, width);
        lemma_chunk_positive(n_peaks, width);
        assert forall|k: int| 0 <= k < bars.len() implies #[trigger] bars[k].offset as int == 2 * (k
            + 1) by {
            assert(spec_bar(k, c, n_peaks).2 == 2 * (k + 1));
        }
        assert forall|k: int| 0 <= k < bars.len() - 1 implies #[trigger] bars[k + 1].start
            == bars[k].end by {
            let _ = spec_bar(k, c, n_peaks);
            let _ = spec_bar(k + 1, c, n_peaks);
            assert((k + 1) * c < n_peaks) by (nonlinear_arith)
                requires
                    k + 1 < bars.len(),
                    bars.len() == (n_peaks + c - 1) / c,
                    c > 0,
                    k >= 0,
            ;
        }
    }
}

} // verus!
