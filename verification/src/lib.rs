//! The core of a path tracer: bounding boxes and a bounding volume
//! hierarchy, the intersection of rays with spheres, triangles, rectangles,
//! cuboids and media, the scattering of light at materials, gradient noise,
//! the path integrator and the per-pixel renderer.
//!
//! The library decides; it does not compute. A [`scalar::Scalar`] is an IEEE
//! 754 binary32 number held by its encoding: the library stores such numbers,
//! orders them as the standard does and selects among them, and proves what
//! it selects. Whatever takes arithmetic on them comes from the caller, as a
//! value or as a kernel: a function that the library calls for one piece of
//! arithmetic. The contract of a function that takes kernels says which
//! answers the function may give, in terms of the answers that its kernels
//! may give.
//!
//! Objects and materials are known to the library by handles, which are
//! indices into tables that the caller keeps.

use vstd::prelude::*;
use vstd::string::*;

pub mod aabb;
pub mod color;
pub mod image;
pub mod materials;
pub mod objects;
pub mod perlin;
pub mod rand_ext;
pub mod ray;
pub mod renderer;
pub mod scalar;
pub mod scenes;
pub mod settings;
pub mod textures;
pub mod time;
pub mod vec3;

verus! {

/// Something that counts finished pixels.
pub trait ProgressTicker {
    /// One more pixel is finished.
    fn tick(&self);
}

/// The characters of `s` in groups of three from the right, the groups set
/// apart by commas.
pub open spec fn seperated_spec(s: Seq<char>) -> Seq<char>
    decreases s.len(),
{
    if s.len() <= 3 {
        s
    } else {
        seperated_spec(s.subrange(0, s.len() - 3)) + seq![','] + s.subrange(
            s.len() - 3,
            s.len() as int,
        )
    }
}

/// Sets the digits of a number apart in thousands: `1234567` becomes
/// `1,234,567`.
pub fn seperated(num: &str) -> (out: String)
    requires
        num.is_ascii(),
    ensures
        out@ == seperated_spec(num@),
{
    let n = num.unicode_len();
    let head = if n % 3 == 0 {
        if n == 0 {
            0
        } else {
            3
        }
    } else {
        n % 3
    };
    let mut out = String::from_str(num.substring_ascii(0, head));
    let mut at: usize = head;
    proof {
        reveal_strlit(",");
        assert(num@.subrange(0, head as int).len() <= 3);
    }
    while at < n
        invariant
            num.is_ascii(),
            n == num@.len(),
            head <= at <= n,
            (n - at) % 3 == 0,
            n > 0 ==> at > 0,
            out@ == seperated_spec(num@.subrange(0, at as int)),
        decreases n - at,
    {
        let chunk = num.substring_ascii(at, at + 3);
        proof {
            reveal_strlit(",");
            let longer = num@.subrange(0, at + 3);
            assert(longer.subrange(0, longer.len() - 3) =~= num@.subrange(0, at as int));
            assert(longer.subrange(longer.len() - 3, longer.len() as int) =~= num@.subrange(
                at as int,
                at + 3,
            ));
            assert(",".view() =~= seq![',']);
        }
        out.append(",");
        out.append(chunk);
        at += 3;
    }
    proof {
        assert(num@.subrange(0, n as int) =~= num@);
    }
    out
}

} // verus!
