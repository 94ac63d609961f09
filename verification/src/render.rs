//! Drawing the particles into the frame of the display.

use crate::fluid::Fluid;
use crate::oled::{on_display, OLEDDriver, OLED_PXLS_X, OLED_PXLS_Y};
use crate::particle::Particle;
use crate::pipeline::in_box;
use crate::fixed::FixedPt;
use vstd::prelude::*;

verus! {

/// The pixels of a particle, as offsets from its display position: a disc
/// four pixels wide.
pub const PIXELS: [(usize, usize); 12] = [
    (1, 0), (2, 0),
    (0, 1), (1, 1), (2, 1), (3, 1),
    (0, 2), (1, 2), (2, 2), (3, 2),
    (1, 3), (2, 3),
];

/// The offset `(dx, dy)` belongs to the disc: the four by four square
/// without its corners.
pub open spec fn in_stamp(dx: int, dy: int) -> bool {
    (1 <= dx <= 2 && 0 <= dy <= 3) || (0 <= dx <= 3 && 1 <= dy <= 2)
}

/// One of the first `n` offsets of the table is `(dx, dy)`.
pub open spec fn among_pixels(n: int, dx: int, dy: int) -> bool {
    exists|k: int| 0 <= k < n && k < 12 && (#[trigger] PIXELS[k]).0 == dx && PIXELS[k].1 == dy
}

/// The table of offsets holds the disc and nothing else.
pub proof fn lemma_pixels_are_the_stamp(dx: int, dy: int)
    ensures
        among_pixels(12, dx, dy) <==> in_stamp(dx, dy),
{
    if in_stamp(dx, dy) {
        let k: int = if dy == 0 {
            dx - 1
        } else if dy == 1 {
            2 + dx
        } else if dy == 2 {
            6 + dx
        } else {
            9 + dx
        };
        assert(PIXELS[k].0 == dx && PIXELS[k].1 == dy);
    }
    if among_pixels(12, dx, dy) {
        let k = choose|k: int| 0 <= k < 12 && (#[trigger] PIXELS[k]).0 == dx && PIXELS[k].1 == dy;
        assert(in_stamp(PIXELS[k].0 as int, PIXELS[k].1 as int));
    }
}

/// A particle can be drawn: its disc lies on the display.
pub open spec fn drawable(p: Particle) -> bool {
    &&& 0 <= p.position.x.floor() <= OLED_PXLS_X - 4
    &&& 0 <= p.position.y.floor() <= OLED_PXLS_Y - 4
}

/// Draws the disc of a particle whose display position is `(x, y)`: the
/// pixels of the disc go on, all others stay as they are. The disc must lie
/// on the display and the frame must not be in transmission.
pub fn draw_particle(display: &mut OLEDDriver, x: usize, y: usize)
    requires
        x + 3 < OLED_PXLS_X,
        y + 3 < OLED_PXLS_Y,
        !old(display).transmitting(),
    ensures
        !final(display).transmitting(),
        forall|px: int, py: int|
            on_display(px, py) ==> #[trigger] final(display).pixel(px, py) == (old(display).pixel(
                px,
                py,
            ) || in_stamp(px - x, py - y)),
{
    let ghost before = *display;
    let mut i: usize = 0;
    while i < 12
        invariant
            i <= 12,
            x + 3 < OLED_PXLS_X,
            y + 3 < OLED_PXLS_Y,
            !display.transmitting(),
            forall|px: int, py: int|
                on_display(px, py) ==> #[trigger] display.pixel(px, py) == (before.pixel(px, py)
                    || among_pixels(i as int, px - x, py - y)),
        decreases 12 - i,
    {
        let (dx, dy) = PIXELS[i];
        assert(in_stamp(dx as int, dy as int)) by {
            lemma_pixels_are_the_stamp(dx as int, dy as int);
        }
        let ghost drawn = *display;
        display.set_pixel(x + dx, y + dy, true);
        assert forall|px: int, py: int| on_display(px, py) implies #[trigger] display.pixel(px, py)
            == (before.pixel(px, py) || among_pixels(i + 1, px - x, py - y)) by {
            assert(drawn.pixel(px, py) == (before.pixel(px, py) || among_pixels(
                i as int,
                px - x,
                py - y,
            )));
            if px == x + dx && py == y + dy {
                assert(PIXELS[i as int].0 == px - x && PIXELS[i as int].1 == py - y);
            } else {
                assert(display.pixel(px, py) == drawn.pixel(px, py));
                if among_pixels(i + 1, px - x, py - y) {
                    let k = choose|k: int|
                        0 <= k < i + 1 && k < 12 && (#[trigger] PIXELS[k]).0 == px - x && PIXELS[k].1
                            == py - y;
                    assert(k != i);
                    assert(among_pixels(i as int, px - x, py - y));
                }
            }
        }
        i += 1;
    }
    proof {
        assert forall|px: int, py: int| on_display(px, py) implies #[trigger] display.pixel(px, py)
            == (before.pixel(px, py) || in_stamp(px - x, py - y)) by {
            lemma_pixels_are_the_stamp(px - x, py - y);
        }
    }
}

/// The disc of one of the first `n` particles holds the pixel `(px, py)`.
pub open spec fn covered(ps: Seq<Particle>, n: int, px: int, py: int) -> bool {
    exists|i: int|
        0 <= i < n && i < ps.len() && in_stamp(
            px - (#[trigger] ps[i]).position.x.floor(),
            py - ps[i].position.y.floor(),
        )
}

/// Every particle of the sequence can be drawn.
pub open spec fn all_drawable(ps: Seq<Particle>) -> bool {
    forall|i: int| 0 <= i < ps.len() ==> drawable(#[trigger] ps[i])
}

/// Whether every particle of the fluid can be drawn.
pub fn can_draw<const T: usize>(fluid_sim: &Fluid<T>) -> (ok: bool)
    ensures
        ok == all_drawable(fluid_sim@.particles),
{
    let particles = fluid_sim.get_particles();
    let mut i: usize = 0;
    while i < particles.len()
        invariant
            i <= particles@.len(),
            particles@ == fluid_sim@.particles,
            forall|k: int| 0 <= k < i ==> drawable(#[trigger] particles@[k]),
        decreases particles@.len() - i,
    {
        let x: i32 = particles[i].position.x.value;
        let y: i32 = particles[i].position.y.value;
        if x < 0 || x >= 125 * 0x1_0000 || y < 0 || y >= 61 * 0x1_0000 {
            assert(!drawable(particles@[i as int]));
            return false;
        }
        assert(drawable(particles@[i as int]));
        i += 1;
    }
    true
}

/// Draws every particle of the fluid: the pixels of their discs go on, all
/// others stay as they are. Every particle must be drawable and the frame
/// must not be in transmission.
pub fn draw_particles<const T: usize>(display: &mut OLEDDriver, fluid_sim: &Fluid<T>)
    requires
        all_drawable(fluid_sim@.particles),
        !old(display).transmitting(),
    ensures
        !final(display).transmitting(),
        forall|px: int, py: int|
            on_display(px, py) ==> #[trigger] final(display).pixel(px, py) == (old(display).pixel(
                px,
                py,
            ) || covered(fluid_sim@.particles, T as int, px, py)),
{
    let ghost before = *display;
    let particles = fluid_sim.get_particles();
    let mut i: usize = 0;
    while i < particles.len()
        invariant
            i <= particles@.len(),
            particles@.len() == T,
            particles@ == fluid_sim@.particles,
            all_drawable(particles@),
            !display.transmitting(),
            forall|px: int, py: int|
                on_display(px, py) ==> #[trigger] display.pixel(px, py) == (before.pixel(px, py)
                    || covered(particles@, i as int, px, py)),
        decreases particles@.len() - i,
    {
        let (x, y) = particles[i].get_display_position();
        let ghost p = particles@[i as int];
        proof {
            lemma_floor_bounds(p.position.x);
            lemma_floor_bounds(p.position.y);
            assert(drawable(p));
        }
        let ghost drawn = *display;
        draw_particle(display, x as usize, y as usize);
        assert forall|px: int, py: int| on_display(px, py) implies #[trigger] display.pixel(px, py)
            == (before.pixel(px, py) || covered(particles@, i + 1, px, py)) by {
            assert(drawn.pixel(px, py) == (before.pixel(px, py) || covered(
                particles@,
                i as int,
                px,
                py,
            )));
            assert(display.pixel(px, py) == (drawn.pixel(px, py) || in_stamp(px - x, py - y)));
            if covered(particles@, i + 1, px, py) && !covered(particles@, i as int, px, py) {
                let k = choose|k: int|
                    0 <= k < i + 1 && k < particles@.len() && in_stamp(
                        px - (#[trigger] particles@[k]).position.x.floor(),
                        py - particles@[k].position.y.floor(),
                    );
                assert(k == i);
            }
            if in_stamp(px - x, py - y) {
                assert(in_stamp(px - p.position.x.floor(), py - p.position.y.floor()));
            }
        }
        i += 1;
    }
}

/// The integer part of a scalar fits in sixteen bits.
pub proof fn lemma_floor_bounds(a: FixedPt)
    ensures
        -0x8000 <= a.floor() < 0x8000,
{
}

/// Particles in a box that is no larger than the display less the size of
/// a disc can all be drawn.
pub proof fn lemma_in_box_is_drawable(ps: Seq<Particle>, x_max: FixedPt, y_max: FixedPt)
    requires
        forall|i: int| 0 <= i < ps.len() ==> in_box(#[trigger] ps[i], x_max, y_max),
        x_max.floor() <= OLED_PXLS_X - 4,
        y_max.floor() <= OLED_PXLS_Y - 4,
    ensures
        all_drawable(ps),
{
    assert forall|i: int| 0 <= i < ps.len() implies drawable(#[trigger] ps[i]) by {
        assert(in_box(ps[i], x_max, y_max));
    }
}

} // verus!
