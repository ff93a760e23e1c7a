//! The sample-accumulation render engine.
//!
//! Rendering is incremental: each invocation draws a number of full samples
//! for every pixel and adds them into a shared accumulation buffer, together
//! with a running total-sample counter; the displayed value is the running
//! average. The pixel-row space is partitioned into fixed-size row ranges
//! claimed from a cursor (`next_range`); the per-range work (`sample_range`)
//! produces local partial sums that are merged into the buffer in one step
//! (`merge_partials`), so a parallel driver needs the buffer lock only once
//! per claimed range.

use vstd::prelude::*;

use crate::camera::Camera;
use crate::fixed::Fx;
use crate::rng::Rng;
use crate::scene::Scene;
use crate::spectrum::{color_matches, spec_avg, spectrum_ge, ss_add3, Color, Spectrum};

verus! {

/// Rows per claimed work unit.
pub const WORKER_STEP: u32 = 4;

/// Cap on the running total-sample counter.
pub const SAMPLE_CAP: u64 = 0x4000_0000_0000_0000;

/// One merge step: add a partial sum into the buffer at its pixel index
/// (an out-of-range index leaves the buffer unchanged).
pub open spec fn merge_one(canvas: Seq<Spectrum>, p: (usize, Spectrum)) -> Seq<Spectrum> {
    if p.0 < canvas.len() {
        canvas.update(p.0 as int, ss_add3(canvas[p.0 as int], p.1))
    } else {
        canvas
    }
}

/// The buffer after merging a batch of partial sums, in order.
pub open spec fn spec_merge(canvas: Seq<Spectrum>, ps: Seq<(usize, Spectrum)>) -> Seq<Spectrum>
    decreases ps.len(),
{
    if ps.len() == 0 {
        canvas
    } else {
        spec_merge(merge_one(canvas, ps[0]), ps.drop_first())
    }
}

/// Merging one more partial sum after a batch equals appending it to the
/// batch.
pub proof fn lemma_merge_push(canvas: Seq<Spectrum>, ps: Seq<(usize, Spectrum)>, p: (
    usize,
    Spectrum,
))
    ensures
        spec_merge(canvas, ps.push(p)) == merge_one(spec_merge(canvas, ps), p),
    decreases ps.len(),
{
    reveal_with_fuel(spec_merge, 3);
    if ps.len() == 0 {
        assert(ps.push(p)[0] == p);
        assert(ps.push(p).drop_first() =~= Seq::<(usize, Spectrum)>::empty());
    } else {
        assert(ps.push(p)[0] == ps[0]);
        assert(ps.push(p).drop_first() =~= ps.drop_first().push(p));
        lemma_merge_push(merge_one(canvas, ps[0]), ps.drop_first(), p);
    }
    assert(spec_merge(canvas, ps.push(p)) =~= merge_one(spec_merge(canvas, ps), p));
}

/// Incremental accumulation is exact: merging one batch of partial sums and
/// then a second yields the same buffer as merging their concatenation in a
/// single batch. Together with the additive sample counter this is what
/// makes the running average independent of how samples were batched.
pub proof fn lemma_accumulation_incremental(
    canvas: Seq<Spectrum>,
    p1: Seq<(usize, Spectrum)>,
    p2: Seq<(usize, Spectrum)>,
)
    ensures
        spec_merge(spec_merge(canvas, p1), p2) == spec_merge(canvas, p1 + p2),
    decreases p1.len(),
{
    reveal_with_fuel(spec_merge, 3);
    if p1.len() == 0 {
        assert(p1 + p2 =~= p2);
    } else {
        assert((p1 + p2)[0] == p1[0]);
        assert((p1 + p2).drop_first() =~= p1.drop_first() + p2);
        lemma_accumulation_incremental(merge_one(canvas, p1[0]), p1.drop_first(), p2);
    }
    assert(spec_merge(spec_merge(canvas, p1), p2) =~= spec_merge(canvas, p1 + p2));
}

/// Every entry of a batch of partial sums is tagged below `limit` and
/// carries a well-formed radiance value.
pub open spec fn batch_entries_ok(ps: Seq<(usize, Spectrum)>, limit: int) -> bool {
    forall|k: int| 0 <= k < ps.len() ==> (#[trigger] ps[k]).0 < limit && ps[k].1.wf()
}

/// Merging a batch of well-formed partial sums never shrinks a pixel's
/// accumulator: the buffer keeps its length and grows channel-wise.
pub proof fn lemma_merge_grows(canvas: Seq<Spectrum>, ps: Seq<(usize, Spectrum)>)
    requires
        forall|i: int| 0 <= i < canvas.len() ==> (#[trigger] canvas[i]).wf(),
        forall|k: int| 0 <= k < ps.len() ==> (#[trigger] ps[k]).1.wf(),
    ensures
        spec_merge(canvas, ps).len() == canvas.len(),
        forall|i: int|
            0 <= i < canvas.len() ==> (#[trigger] spec_merge(canvas, ps)[i]).wf()
                && spectrum_ge(spec_merge(canvas, ps)[i], canvas[i]),
    decreases ps.len(),
{
    if ps.len() > 0 {
        let c1 = merge_one(canvas, ps[0]);
        assert(ps[0].1.wf());
        assert(forall|i: int| 0 <= i < c1.len() ==> (#[trigger] c1[i]).wf());
        assert(forall|i: int|
            0 <= i < canvas.len() ==> spectrum_ge(#[trigger] c1[i], canvas[i]));
        assert(forall|k: int|
            0 <= k < ps.drop_first().len() ==> (#[trigger] ps.drop_first()[k]).1.wf());
        lemma_merge_grows(c1, ps.drop_first());
    }
}

/// How many entries of a batch of partial sums carry the pixel index `p`.
pub open spec fn index_count(ps: Seq<(usize, Spectrum)>, p: int) -> nat
    decreases ps.len(),
{
    if ps.len() == 0 {
        0
    } else {
        index_count(ps.drop_first(), p) + (if ps[0].0 == p {
            1nat
        } else {
            0nat
        })
    }
}

/// Counting pixel tags distributes over batch concatenation.
pub proof fn lemma_index_count_concat(
    a: Seq<(usize, Spectrum)>,
    b: Seq<(usize, Spectrum)>,
    p: int,
)
    ensures
        index_count(a + b, p) == index_count(a, p) + index_count(b, p),
    decreases a.len(),
{
    if a.len() == 0 {
        assert(a + b =~= b);
    } else {
        assert((a + b)[0] == a[0]);
        assert((a + b).drop_first() =~= a.drop_first() + b);
        lemma_index_count_concat(a.drop_first(), b, p);
    }
}

/// Appending one entry bumps exactly its own index's count.
pub proof fn lemma_index_count_push(a: Seq<(usize, Spectrum)>, e: (usize, Spectrum), p: int)
    ensures
        index_count(a.push(e), p) == index_count(a, p) + (if e.0 == p {
            1nat
        } else {
            0nat
        }),
{
    reveal_with_fuel(index_count, 3);
    assert(a.push(e) =~= a + seq![e]);
    lemma_index_count_concat(a, seq![e], p);
    assert(seq![e].drop_first() =~= Seq::<(usize, Spectrum)>::empty());
}

/// The row-major pixel index the `k`-th partial sum of a range batch
/// carries: entries run column by column, row by row, pass by pass, so the
/// tag depends only on the position within one pass over the range's rows.
pub open spec fn range_tag(y0: int, rows: int, width: int, k: int) -> int {
    let within = k % (rows * width);
    (y0 + within / width) * width + within % width
}

/// The next unclaimed row range at `cursor`, for an image `height` rows
/// tall: none once the cursor has passed the height, otherwise the range's
/// bounds and the advanced cursor.
pub fn next_range(cursor: u32, height: u32, step: u32) -> (r: Option<(u32, u32, u32)>)
    requires
        1 <= step <= 4096,
        height <= 4096,
    ensures
        (cursor > height) == (r is None),
        match r {
            Some(t) => t.0 == cursor && t.0 <= t.1 <= height && t.1 == (if cursor + step
                <= height {
                cursor + step
            } else {
                height as int
            }) && t.2 == cursor + step,
            None => true,
        },
{
    if cursor > height {
        None
    } else {
        let y1 = if cursor + step <= height {
            cursor + step
        } else {
            height
        };
        Some((cursor, y1, cursor + step))
    }
}

/// Draw `samples` full samples (with independent sub-pixel jitter) for every
/// pixel of rows `y0..y1` and return the per-pixel partial sums, tagged with
/// their row-major pixel index. Pixels whose primary ray degenerates get
/// the sky radiance.
pub fn sample_range(
    scene: &Scene,
    camera: &Camera,
    width: u32,
    height: u32,
    y0: u32,
    y1: u32,
    samples: u32,
    rng: &mut Rng,
) -> (r: Vec<(usize, Spectrum)>)
    requires
        scene.wf(),
        scene.spec_objects().len() > 0,
        camera.wf(),
        1 <= width <= 4096,
        height <= 4096,
        y0 <= y1 <= height,
    ensures
        r@.len() == samples * (y1 - y0) * width,
        forall|k: int|
            0 <= k < r@.len() ==> (#[trigger] r@[k]).0 < width * height && r@[k].1.wf()
                && r@[k].0 == range_tag(y0 as int, (y1 - y0) as int, width as int, k),
        forall|p: int|
            #[trigger] index_count(r@, p) == (if (y0 as int) * width <= p < (y1 as int) * width {
                samples as nat
            } else {
                0nat
            }),
{
    let mut results: Vec<(usize, Spectrum)> = Vec::new();
    let mut s: u32 = 0;
    while s < samples
        invariant
            scene.wf(),
            scene.spec_objects().len() > 0,
            camera.wf(),
            1 <= width <= 4096,
            height <= 4096,
            y0 <= y1 <= height,
            s <= samples,
            results@.len() == s * (y1 - y0) * width,
            forall|p: int|
                #[trigger] index_count(results@, p) == (if (y0 as int) * width <= p < (
                y1 as int) * width {
                    s as nat
                } else {
                    0nat
                }),
            forall|k: int|
                0 <= k < results@.len() ==> (#[trigger] results@[k]).0 < width * height
                    && results@[k].1.wf()
                    && results@[k].0 == range_tag(y0 as int, (y1 - y0) as int, width as int, k),
        decreases samples - s,
    {
        let mut y = y0;
        while y < y1
            invariant
                scene.wf(),
                scene.spec_objects().len() > 0,
                camera.wf(),
                1 <= width <= 4096,
                height <= 4096,
                y0 <= y <= y1 <= height,
                results@.len() == s * (y1 - y0) * width + (y - y0) * width,
                forall|p: int|
                    #[trigger] index_count(results@, p) == (if (y0 as int) * width <= p < (
                    y1 as int) * width {
                        s as nat
                    } else {
                        0nat
                    }) + (if (y0 as int) * width <= p < (y as int) * width {
                        1nat
                    } else {
                        0nat
                    }),
                forall|k: int|
                    0 <= k < results@.len() ==> (#[trigger] results@[k]).0 < width * height
                        && results@[k].1.wf()
                        && results@[k].0 == range_tag(y0 as int, (y1 - y0) as int, width as int, k),
            decreases y1 - y,
        {
            let mut x: u32 = 0;
            while x < width
                invariant
                    scene.wf(),
                    scene.spec_objects().len() > 0,
                    camera.wf(),
                    1 <= width <= 4096,
                    height <= 4096,
                    y0 <= y < y1 <= height,
                    x <= width,
                    results@.len() == s * (y1 - y0) * width + (y - y0) * width + x,
                    forall|p: int|
                        #[trigger] index_count(results@, p) == (if (y0 as int) * width <= p < (
                        y1 as int) * width {
                            s as nat
                        } else {
                            0nat
                        }) + (if (y0 as int) * width <= p < (y as int) * width + x {
                            1nat
                        } else {
                            0nat
                        }),
                    forall|k: int|
                        0 <= k < results@.len() ==> (#[trigger] results@[k]).0 < width * height
                            && results@[k].1.wf()
                            && results@[k].0 == range_tag(
                            y0 as int,
                            (y1 - y0) as int,
                            width as int,
                            k,
                        ),
                decreases width - x,
            {
                let px = Fx::from_int(x as i32).add(rng.jitter());
                let py = Fx::from_int(y as i32).add(rng.jitter());
                let value = match camera.ray(px, py) {
                    Some(primary) => scene.trace(primary, 0, rng),
                    None => scene.sky(),
                };
                proof {
                    assert((y as int) * (width as int) + x < (height as int) * (width as int))
                        by (nonlinear_arith)
                        requires
                            0 <= x < width as int,
                            0 <= y < height as int,
                    ;
                    assert((height as int) * (width as int) == (width as int) * (height as int))
                        by (nonlinear_arith);
                    assert((y as int) * (width as int) <= 4096 * 4096) by (nonlinear_arith)
                        requires
                            0 <= y <= 4096,
                            0 <= width <= 4096,
                    ;
                    let rows = (y1 - y0) as int;
                    let wi = width as int;
                    let within = (y - y0) * wi + x;
                    let k0 = s * rows * wi + within;
                    assert((s as int) * (rows * wi) == (s as int) * rows * wi)
                        by (nonlinear_arith);
                    assert(0 <= within < rows * wi) by (nonlinear_arith)
                        requires
                            0 <= x < wi,
                            0 <= y - y0 < rows,
                            within == (y - y0) * wi + x,
                    ;
                    vstd::arithmetic::div_mod::lemma_fundamental_div_mod_converse(
                        k0,
                        rows * wi,
                        s as int,
                        within,
                    );
                    vstd::arithmetic::div_mod::lemma_fundamental_div_mod_converse(
                        within,
                        wi,
                        (y - y0) as int,
                        x as int,
                    );
                    assert(range_tag(y0 as int, rows, wi, k0) == (y as int) * wi + x);
                }
                let index: usize = (y as usize) * (width as usize) + (x as usize);
                let ghost pre = results@;
                results.push((index, value));
                proof {
                    assert(results@ == pre.push((index, value)));
                    assert((y0 as int) * width <= (y as int) * width && (y as int) * width
                        + width <= (y1 as int) * width) by (nonlinear_arith)
                        requires
                            0 <= y0 <= y < y1,
                            0 <= width,
                    ;
                    assert forall|p: int|
                        #[trigger] index_count(results@, p) == (if (y0 as int) * width <= p < (
                        y1 as int) * width {
                            s as nat
                        } else {
                            0nat
                        }) + (if (y0 as int) * width <= p < (y as int) * width + x + 1 {
                            1nat
                        } else {
                            0nat
                        }) by {
                        lemma_index_count_push(pre, (index, value), p);
                    };
                }
                x = x + 1;
            }
            proof {
                assert((y - y0) * width + width == (y + 1 - y0) * width) by (nonlinear_arith);
                assert((y as int) * width + width == ((y + 1) as int) * width)
                    by (nonlinear_arith);
            }
            y = y + 1;
        }
        proof {
            assert(s * (y1 - y0) * width + (y1 - y0) * width == (s + 1) * (y1 - y0) * width)
                by (nonlinear_arith);
        }
        s = s + 1;
    }
    results
}

/// The render engine: the scene and camera it samples, the accumulation
/// buffer, and the total-sample counter.
pub struct RenderEngine {
    scene: Scene,
    camera: Camera,
    width: u32,
    height: u32,
    canvas: Vec<Spectrum>,
    samples: u64,
}

impl RenderEngine {
    /// The accumulation buffer.
    pub closed spec fn spec_canvas(self) -> Seq<Spectrum> {
        self.canvas@
    }

    /// The total number of samples accumulated so far.
    pub closed spec fn spec_samples(self) -> u64 {
        self.samples
    }

    /// The image width in pixels.
    pub closed spec fn spec_width(self) -> u32 {
        self.width
    }

    /// The image height in pixels.
    pub closed spec fn spec_height(self) -> u32 {
        self.height
    }

    /// The scene being rendered.
    pub closed spec fn spec_scene(self) -> Scene {
        self.scene
    }

    /// The camera in use.
    pub closed spec fn spec_camera(self) -> Camera {
        self.camera
    }

    /// A valid engine: a non-empty well-formed scene, a buffer of exactly
    /// one well-formed accumulator per pixel, and a bounded counter.
    pub open spec fn wf(self) -> bool {
        &&& self.spec_scene().wf()
        &&& self.spec_scene().spec_objects().len() > 0
        &&& self.spec_camera().wf()
        &&& 1 <= self.spec_width() <= 4096
        &&& 1 <= self.spec_height() <= 4096
        &&& self.spec_canvas().len() == self.spec_width() * self.spec_height()
        &&& (forall|i: int|
            0 <= i < self.spec_canvas().len() ==> (#[trigger] self.spec_canvas()[i]).wf())
        &&& self.spec_samples() <= SAMPLE_CAP
    }

    /// An engine over a scene and camera with an all-black buffer and a
    /// zero sample counter.
    pub fn new(scene: Scene, camera: Camera, width: u32, height: u32) -> (r: RenderEngine)
        requires
            scene.wf(),
            scene.spec_objects().len() > 0,
            camera.wf(),
            1 <= width <= 4096,
            1 <= height <= 4096,
        ensures
            r.wf(),
            r.spec_scene() == scene,
            r.spec_camera() == camera,
            r.spec_width() == width,
            r.spec_height() == height,
            r.spec_samples() == 0,
            r.spec_canvas().len() == width * height,
            forall|i: int|
                0 <= i < r.spec_canvas().len() ==> r.spec_canvas()[i] == (Spectrum {
                    r: 0,
                    g: 0,
                    b: 0,
                }),
    {
        proof {
            assert((width as int) * (height as int) <= 4096 * 4096) by (nonlinear_arith)
                requires
                    0 <= width <= 4096,
                    0 <= height <= 4096,
            ;
            assert((width as int) * (height as int) >= 1) by (nonlinear_arith)
                requires
                    1 <= width,
                    1 <= height,
            ;
        }
        let total: usize = (width as usize) * (height as usize);
        let mut canvas: Vec<Spectrum> = Vec::new();
        let mut i: usize = 0;
        while i < total
            invariant
                i <= total,
                canvas@.len() == i,
                forall|j: int| 0 <= j < i ==> canvas@[j] == (Spectrum { r: 0, g: 0, b: 0 }),
            decreases total - i,
        {
            canvas.push(Spectrum::black());
            i = i + 1;
        }
        RenderEngine { scene, camera, width, height, canvas, samples: 0 }
    }

    /// Add a batch of partial sums into the accumulation buffer, in order.
    pub fn merge_partials(&mut self, partials: &Vec<(usize, Spectrum)>)
        requires
            old(self).wf(),
            forall|k: int|
                0 <= k < partials@.len() ==> (#[trigger] partials@[k]).0 < old(
                    self,
                ).spec_canvas().len() && partials@[k].1.wf(),
        ensures
            final(self).wf(),
            final(self).spec_canvas() == spec_merge(old(self).spec_canvas(), partials@),
            final(self).spec_samples() == old(self).spec_samples(),
            final(self).spec_scene() == old(self).spec_scene(),
            final(self).spec_camera() == old(self).spec_camera(),
            final(self).spec_width() == old(self).spec_width(),
            final(self).spec_height() == old(self).spec_height(),
    {
        let n = partials.len();
        let mut i: usize = 0;
        proof {
            assert(partials@.take(0) =~= Seq::<(usize, Spectrum)>::empty());
        }
        while i < n
            invariant
                n == partials@.len(),
                i <= n,
                forall|k: int|
                    0 <= k < partials@.len() ==> (#[trigger] partials@[k]).0 < old(
                        self,
                    ).spec_canvas().len() && partials@[k].1.wf(),
                self.canvas@ == spec_merge(old(self).spec_canvas(), partials@.take(i as int)),
                self.canvas@.len() == old(self).spec_canvas().len(),
                forall|j: int| 0 <= j < self.canvas@.len() ==> (#[trigger] self.canvas@[j]).wf(),
                self.samples == old(self).samples,
                self.scene == old(self).scene,
                self.camera == old(self).camera,
                self.width == old(self).width,
                self.height == old(self).height,
                old(self).wf(),
            decreases n - i,
        {
            let p = partials[i];
            proof {
                lemma_merge_push(
                    old(self).spec_canvas(),
                    partials@.take(i as int),
                    partials@[i as int],
                );
                assert(partials@.take(i + 1) =~= partials@.take(i as int).push(
                    partials@[i as int],
                ));
            }
            let index = p.0;
            if index < self.canvas.len() {
                let merged = self.canvas[index].add(p.1);
                self.canvas[index] = merged;
            }
            i = i + 1;
        }
        proof {
            assert(partials@.take(n as int) =~= partials@);
        }
    }

    /// Bump the total-sample counter, saturating at the cap. A parallel
    /// driver calls this once per finished batch, after every worker's
    /// partial sums are merged.
    pub fn record_samples(&mut self, count: u32)
        requires
            old(self).wf(),
        ensures
            final(self).wf(),
            final(self).spec_samples() == (if old(self).spec_samples() + count > SAMPLE_CAP {
                SAMPLE_CAP as int
            } else {
                old(self).spec_samples() + count
            }),
            final(self).spec_canvas() == old(self).spec_canvas(),
            final(self).spec_scene() == old(self).spec_scene(),
            final(self).spec_camera() == old(self).spec_camera(),
            final(self).spec_width() == old(self).spec_width(),
            final(self).spec_height() == old(self).spec_height(),
    {
        if (count as u64) > SAMPLE_CAP - self.samples {
            self.samples = SAMPLE_CAP;
        } else {
            self.samples = self.samples + (count as u64);
        }
    }

    /// Run one batch: claim row ranges from a cursor until the image is
    /// covered, draw `count` samples per pixel of each range, merge each
    /// range's partial sums, and add `count` to the sample counter. The
    /// final buffer is exactly the old one with one batch of well-formed
    /// partial sums merged in, so no pixel's accumulator ever shrinks.
    pub fn add_samples(&mut self, count: u32, rng: &mut Rng)
        requires
            old(self).wf(),
        ensures
            final(self).wf(),
            final(self).spec_samples() == (if old(self).spec_samples() + count > SAMPLE_CAP {
                SAMPLE_CAP as int
            } else {
                old(self).spec_samples() + count
            }),
            final(self).spec_scene() == old(self).spec_scene(),
            final(self).spec_camera() == old(self).spec_camera(),
            final(self).spec_width() == old(self).spec_width(),
            final(self).spec_height() == old(self).spec_height(),
            exists|ps: Seq<(usize, Spectrum)>|
                final(self).spec_canvas() == #[trigger] spec_merge(old(self).spec_canvas(), ps)
                    && batch_entries_ok(ps, old(self).spec_canvas().len() as int) && (forall|
                    p: int,
                |
                    0 <= p < old(self).spec_canvas().len() ==> #[trigger] index_count(ps, p)
                        == count as nat),
            forall|i: int|
                0 <= i < old(self).spec_canvas().len() ==> spectrum_ge(
                    #[trigger] final(self).spec_canvas()[i],
                    old(self).spec_canvas()[i],
                ),
    {
        let ghost mut batch: Seq<(usize, Spectrum)> = Seq::empty();
        let mut cursor: u32 = 0;
        while cursor <= self.height
            invariant
                self.wf(),
                self.samples == old(self).samples,
                self.scene == old(self).scene,
                self.camera == old(self).camera,
                self.width == old(self).width,
                self.height == old(self).height,
                cursor <= self.height + WORKER_STEP,
                old(self).wf(),
                self.canvas@ == spec_merge(old(self).spec_canvas(), batch),
                batch_entries_ok(batch, old(self).spec_canvas().len() as int),
                forall|p: int|
                    #[trigger] index_count(batch, p) == (if 0 <= p < (if cursor
                        <= old(self).spec_height() {
                        cursor as int
                    } else {
                        old(self).spec_height() as int
                    }) * old(self).spec_width() {
                        count as nat
                    } else {
                        0nat
                    }),
            decreases self.height + WORKER_STEP - cursor,
        {
            match next_range(cursor, self.height, WORKER_STEP) {
                Some(range) => {
                    let partials = sample_range(
                        &self.scene,
                        &self.camera,
                        self.width,
                        self.height,
                        range.0,
                        range.1,
                        count,
                        rng,
                    );
                    self.merge_partials(&partials);
                    proof {
                        lemma_accumulation_incremental(
                            old(self).spec_canvas(),
                            batch,
                            partials@,
                        );
                        assert forall|k: int|
                            0 <= k < (batch + partials@).len() implies ((#[trigger] (batch
                            + partials@)[k]).0 < old(self).spec_canvas().len() as int && (batch
                            + partials@)[k].1.wf()) by {
                            if k < batch.len() {
                                assert((batch + partials@)[k] == batch[k]);
                            } else {
                                assert((batch + partials@)[k] == partials@[k - batch.len()]);
                            }
                        };
                        let ghost wid = old(self).spec_width() as int;
                        assert((cursor as int) * wid <= (range.1 as int) * wid)
                            by (nonlinear_arith)
                            requires
                                cursor <= range.1,
                                0 <= wid,
                        ;
                        assert forall|p: int|
                            #[trigger] index_count(batch + partials@, p) == (if 0 <= p < (
                            range.1 as int) * old(self).spec_width() {
                                count as nat
                            } else {
                                0nat
                            }) by {
                            lemma_index_count_concat(batch, partials@, p);
                        };
                        batch = batch + partials@;
                    }
                    cursor = range.2;
                },
                None => {
                    cursor = cursor + WORKER_STEP;
                },
            }
        }
        self.record_samples(count);
        proof {
            assert(self.canvas@ == spec_merge(old(self).spec_canvas(), batch));
            let ghost wid = old(self).spec_width() as int;
            let ghost hei = old(self).spec_height() as int;
            assert(hei * wid == wid * hei) by (nonlinear_arith);
            assert(forall|p: int|
                0 <= p < old(self).spec_canvas().len() ==> #[trigger] index_count(batch, p)
                    == count as nat);
            lemma_merge_grows(old(self).spec_canvas(), batch);
        }
    }

    /// The display-ready image: every accumulated pixel averaged over the
    /// samples taken so far and mapped through the gamma curve, in row-major
    /// order.
    pub fn snapshot(&self) -> (r: Vec<Color>)
        requires
            self.wf(),
        ensures
            r@.len() == self.spec_canvas().len(),
            forall|i: int|
                0 <= i < r@.len() ==> color_matches(
                    spec_avg(self.spec_canvas()[i], self.spec_samples() as int),
                    #[trigger] r@[i],
                ),
    {
        let divisor: i64 = if self.samples < 1 {
            1
        } else {
            self.samples as i64
        };
        let n = self.canvas.len();
        let mut out: Vec<Color> = Vec::new();
        let mut i: usize = 0;
        while i < n
            invariant
                self.wf(),
                n == self.spec_canvas().len(),
                i <= n,
                divisor == (if self.spec_samples() < 1 {
                    1int
                } else {
                    self.spec_samples() as int
                }),
                out@.len() == i,
                forall|j: int|
                    0 <= j < i ==> color_matches(
                        spec_avg(self.spec_canvas()[j], self.spec_samples() as int),
                        #[trigger] out@[j],
                    ),
            decreases n - i,
        {
            let avg = self.canvas[i].avg_div(divisor);
            out.push(avg.to_color());
            i = i + 1;
        }
        out
    }

    /// The total number of samples accumulated so far.
    pub fn samples_taken(&self) -> (r: u64)
        ensures
            r == self.spec_samples(),
    {
        self.samples
    }
}

} // verus!
