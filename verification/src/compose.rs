//! The compose / blank-inference join.
//!
//! Placements from the resize join and the text layout join arrive merged,
//! keyed by slot. For every slot that receives a new placement, the join
//! looks up the bounding box the slot occupied before: if there was one, a
//! blank instruction for the old box is emitted strictly before the image
//! instruction for the new placement — blanking afterwards would flash
//! stale pixels. The new bounding box is then recorded. A slot that
//! receives nothing emits nothing: the display keeps its last contents.

use vstd::prelude::*;

use crate::dataflow::{Placement, Render};

verus! {

/// The rectangle a slot occupies: anchor and size.
pub type BoundingBox = (i64, i64, u32, u32);

/// The first bounding box recorded for `key`, if any.
pub open spec fn lookup(m: Seq<(usize, BoundingBox)>, key: usize) -> Option<BoundingBox>
    decreases m.len(),
{
    if m.len() == 0 {
        None
    } else if m[0].0 == key {
        Some(m[0].1)
    } else {
        lookup(m.drop_first(), key)
    }
}

/// The recorded boxes with the box for `key` replaced, or appended if the
/// key is new.
pub open spec fn store(m: Seq<(usize, BoundingBox)>, key: usize, b: BoundingBox) -> Seq<
    (usize, BoundingBox),
>
    decreases m.len(),
{
    if m.len() == 0 {
        seq![(key, b)]
    } else if m[0].0 == key {
        seq![(key, b)] + m.drop_first()
    } else {
        seq![m[0]] + store(m.drop_first(), key, b)
    }
}

/// The bounding box a placement will occupy.
pub open spec fn placement_box(p: Placement) -> BoundingBox {
    (p.x, p.y, p.image.width, p.image.height)
}

/// The instructions one placement turns into, given the recorded boxes: a
/// blank of the slot's old box first if one existed, then the image.
pub open spec fn instructions_for(m: Seq<(usize, BoundingBox)>, p: Placement) -> Seq<Render> {
    match lookup(m, p.key) {
        Some(b) => seq![
            Render::Blank { key: p.key, x: b.0, y: b.1, width: b.2, height: b.3 },
            Render::Image { key: p.key, x: p.x, y: p.y, image: p.image },
        ],
        None => seq![Render::Image { key: p.key, x: p.x, y: p.y, image: p.image }],
    }
}

/// The recorded boxes and the emitted instructions after a whole
/// notification's placements, processed in arrival order.
pub open spec fn spec_compose(m: Seq<(usize, BoundingBox)>, ps: Seq<Placement>) -> (
    Seq<(usize, BoundingBox)>,
    Seq<Render>,
)
    decreases ps.len(),
{
    if ps.len() == 0 {
        (m, Seq::empty())
    } else {
        let first = instructions_for(m, ps[0]);
        let m1 = store(m, ps[0].key, placement_box(ps[0]));
        let (m2, rest) = spec_compose(m1, ps.drop_first());
        (m2, first + rest)
    }
}

/// The blank-inference join.
pub struct Compose {
    /// The bounding box last occupied by each slot that has shown anything.
    pub boxes: Vec<(usize, BoundingBox)>,
}

impl Compose {
    /// A join that has recorded nothing yet.
    pub fn new() -> (c: Compose)
        ensures
            c.boxes@.len() == 0,
    {
        Compose { boxes: Vec::new() }
    }

    /// The first recorded box for `key`, if any.
    fn lookup_box(&self, key: usize) -> (r: Option<BoundingBox>)
        ensures
            r == lookup(self.boxes@, key),
    {
        let mut idx: usize = 0;
        proof {
            assert(self.boxes@.skip(0) =~= self.boxes@);
        }
        while idx < self.boxes.len()
            invariant
                idx <= self.boxes@.len(),
                lookup(self.boxes@, key) == lookup(self.boxes@.skip(idx as int), key),
            decreases self.boxes@.len() - idx,
        {
            proof {
                assert(self.boxes@.skip(idx as int).drop_first() =~= self.boxes@.skip(
                    idx as int + 1,
                ));
                assert(self.boxes@.skip(idx as int)[0] == self.boxes@[idx as int]);
            }
            let entry = self.boxes[idx];
            if entry.0 == key {
                return Some(entry.1);
            }
            idx = idx + 1;
        }
        proof {
            assert(self.boxes@.skip(self.boxes@.len() as int) =~= Seq::<
                (usize, BoundingBox),
            >::empty());
        }
        None
    }

    /// Record `b` as the current box for `key`.
    fn store_box(&mut self, key: usize, b: BoundingBox)
        ensures
            final(self).boxes@ == store(old(self).boxes@, key, b),
    {
        let ghost orig = self.boxes@;
        let mut idx: usize = 0;
        while idx < self.boxes.len()
            invariant
                idx <= orig.len(),
                orig == old(self).boxes@,
                self.boxes@ == orig,
                forall|j: int| 0 <= j < idx ==> (#[trigger] orig[j]).0 != key,
            decreases orig.len() - idx,
        {
            let entry = self.boxes[idx];
            if entry.0 == key {
                self.boxes.set(idx, (key, b));
                proof {
                    lemma_store_update(orig, key, b, idx as int);
                }
                return ;
            }
            idx = idx + 1;
        }
        self.boxes.push((key, b));
        proof {
            lemma_store_append(orig, key, b);
        }
    }

    /// Process one notification's placements, in arrival order, and hand
    /// back the committed instructions: for every placement, a blank of the
    /// slot's previous box first if it had one, then the image.
    pub fn on_notify(&mut self, placements: Vec<Placement>) -> (r: Vec<Render>)
        ensures
            (final(self).boxes@, r@) == spec_compose(old(self).boxes@, placements@),
    {
        let ghost orig_m = self.boxes@;
        let ghost orig_ps = placements@;
        let mut placements = placements;
        let mut out: Vec<Render> = Vec::new();
        while placements.len() > 0
            invariant
                orig_m == old(self).boxes@,
                spec_compose(orig_m, orig_ps).0 == spec_compose(self.boxes@, placements@).0,
                spec_compose(orig_m, orig_ps).1 == out@ + spec_compose(
                    self.boxes@,
                    placements@,
                ).1,
            decreases placements@.len(),
        {
            let ghost m_before = self.boxes@;
            let ghost ps_before = placements@;
            let p = placements.remove(0);
            proof {
                assert(ps_before.remove(0) =~= ps_before.drop_first());
            }
            match self.lookup_box(p.key) {
                Some(b) => {
                    out.push(Render::Blank { key: p.key, x: b.0, y: b.1, width: b.2, height: b.3 });
                }
                None => {}
            }
            self.store_box(p.key, (p.x, p.y, p.image.width, p.image.height));
            out.push(Render::Image { key: p.key, x: p.x, y: p.y, image: p.image });
            proof {
                assert(spec_compose(orig_m, orig_ps).1 == out@ + spec_compose(
                    self.boxes@,
                    placements@,
                ).1) by {
                    assert(out@ + spec_compose(self.boxes@, placements@).1 =~= (out@.take(
                        out@.len() - instructions_for(m_before, ps_before[0]).len(),
                    ) + (instructions_for(m_before, ps_before[0]) + spec_compose(
                        self.boxes@,
                        placements@,
                    ).1)));
                }
            }
        }
        proof {
            assert(out@ + Seq::<Render>::empty() =~= out@);
        }
        out
    }
}

/// Storing under a key that first occurs at position `i` replaces exactly
/// that entry.
proof fn lemma_store_update(m: Seq<(usize, BoundingBox)>, key: usize, b: BoundingBox, i: int)
    requires
        0 <= i < m.len(),
        m[i].0 == key,
        forall|j: int| 0 <= j < i ==> (#[trigger] m[j]).0 != key,
    ensures
        store(m, key, b) == m.update(i, (key, b)),
    decreases i,
{
    if i == 0 {
        assert(seq![(key, b)] + m.drop_first() =~= m.update(0, (key, b)));
    } else {
        assert(forall|j: int|
            0 <= j < i - 1 ==> (#[trigger] m.drop_first()[j]).0 != key);
        lemma_store_update(m.drop_first(), key, b, i - 1);
        assert(seq![m[0]] + m.drop_first().update(i - 1, (key, b)) =~= m.update(i, (key, b)));
    }
}

/// Storing under a key that occurs nowhere appends a new entry.
proof fn lemma_store_append(m: Seq<(usize, BoundingBox)>, key: usize, b: BoundingBox)
    requires
        forall|j: int| 0 <= j < m.len() ==> (#[trigger] m[j]).0 != key,
    ensures
        store(m, key, b) == m.push((key, b)),
    decreases m.len(),
{
    if m.len() == 0 {
        assert(seq![(key, b)] =~= m.push((key, b)));
    } else {
        assert(forall|j: int|
            0 <= j < m.drop_first().len() ==> (#[trigger] m.drop_first()[j]).0 != key);
        lemma_store_append(m.drop_first(), key, b);
        assert(seq![m[0]] + m.drop_first().push((key, b)) =~= m.push((key, b)));
    }
}

/// Composition splits at any point: processing all placements equals
/// processing a prefix, then the rest against the boxes the prefix left.
pub proof fn lemma_compose_split(m: Seq<(usize, BoundingBox)>, ps: Seq<Placement>, i: int)
    requires
        0 <= i <= ps.len(),
    ensures
        spec_compose(m, ps).0 == spec_compose(
            spec_compose(m, ps.take(i)).0,
            ps.skip(i),
        ).0,
        spec_compose(m, ps).1 == spec_compose(m, ps.take(i)).1 + spec_compose(
            spec_compose(m, ps.take(i)).0,
            ps.skip(i),
        ).1,
    decreases i,
{
    if i == 0 {
        assert(ps.take(0) =~= Seq::<Placement>::empty());
        assert(ps.skip(0) =~= ps);
        assert(Seq::<Render>::empty() + spec_compose(m, ps).1 =~= spec_compose(m, ps).1);
    } else {
        let m1 = store(m, ps[0].key, placement_box(ps[0]));
        assert(ps.take(i).drop_first() =~= ps.drop_first().take(i - 1));
        assert(ps.skip(i) =~= ps.drop_first().skip(i - 1));
        assert(ps.take(i)[0] == ps[0]);
        lemma_compose_split(m1, ps.drop_first(), i - 1);
        assert(spec_compose(m, ps).1 =~= spec_compose(m, ps.take(i)).1 + spec_compose(
            spec_compose(m, ps.take(i)).0,
            ps.skip(i),
        ).1) by {
            assert(spec_compose(m, ps).1 == instructions_for(m, ps[0]) + spec_compose(
                m1,
                ps.drop_first(),
            ).1);
            assert(spec_compose(m, ps.take(i)).1 == instructions_for(m, ps[0]) + spec_compose(
                m1,
                ps.drop_first().take(i - 1),
            ).1);
        }
    }
}

/// Blank before image: for every placement in a notification, the image
/// instruction it turns into stands immediately after the blank instruction
/// for the box its slot occupied before — and immediately at its chunk's
/// start if the slot was empty. Blanking never comes after the image.
pub proof fn lemma_blank_before_image(m: Seq<(usize, BoundingBox)>, ps: Seq<Placement>, i: int)
    requires
        0 <= i < ps.len(),
    ensures
        ({
            let before = spec_compose(m, ps.take(i)).0;
            let done = spec_compose(m, ps.take(i)).1;
            let out = spec_compose(m, ps).1;
            match lookup(before, ps[i].key) {
                Some(b) => {
                    &&& out.len() > done.len() + 1
                    &&& out[done.len() as int] == Render::Blank {
                        key: ps[i].key,
                        x: b.0,
                        y: b.1,
                        width: b.2,
                        height: b.3,
                    }
                    &&& out[done.len() + 1int] == Render::Image {
                        key: ps[i].key,
                        x: ps[i].x,
                        y: ps[i].y,
                        image: ps[i].image,
                    }
                },
                None => {
                    &&& out.len() > done.len()
                    &&& out[done.len() as int] == Render::Image {
                        key: ps[i].key,
                        x: ps[i].x,
                        y: ps[i].y,
                        image: ps[i].image,
                    }
                },
            }
        }),
{
    lemma_compose_split(m, ps, i);
    let before = spec_compose(m, ps.take(i)).0;
    let rest = ps.skip(i);
    assert(rest[0] == ps[i]);
    assert(spec_compose(before, rest).1 == instructions_for(before, rest[0]) + spec_compose(
        store(before, rest[0].key, placement_box(rest[0])),
        rest.drop_first(),
    ).1);
}

} // verus!
