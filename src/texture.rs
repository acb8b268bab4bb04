//! Texture sampling: wrapped lookup of a pixel grid at any integer coordinate.
use crate::raster::cell;
use crate::raster::dimensions;
use crate::raster::has_float_samples;
use crate::raster::image_has_float_samples;
use crate::raster::image_height;
use crate::raster::image_pixels;
use crate::raster::image_width;
use crate::raster::pixel_at;
use crate::raster::Rgb8;
use image::DynamicImage;
use vstd::arithmetic::div_mod::lemma_fundamental_div_mod;
use vstd::arithmetic::div_mod::lemma_fundamental_div_mod_converse;
use vstd::prelude::*;

verus! {

/// Reduces a scaled texture coordinate into `0..size`, wrapping negative values around.
pub fn wrap_coord(scaled: i32, size: u32) -> (r: u32)
    requires
        size > 0,
    ensures
        r < size,
        r as int == (scaled as int) % (size as int),
{
    if scaled >= 0 {
        (scaled as u32) % size
    } else {
        let x: u64 = (0i64 - scaled as i64) as u64;
        let a: u64 = x % (size as u64);
        proof {
            let m = size as int;
            let q = (x as int) / m;
            lemma_fundamental_div_mod(x as int, m);
            assert(x as int == m * q + a);
            if a == 0 {
                assert(scaled as int == (-q) * m + 0) by (nonlinear_arith)
                    requires
                        scaled as int == -(x as int),
                        x as int == m * q + a,
                        a == 0,
                ;
                lemma_fundamental_div_mod_converse(scaled as int, m, -q, 0);
            } else {
                assert(scaled as int == (-q - 1) * m + (m - a)) by (nonlinear_arith)
                    requires
                        scaled as int == -(x as int),
                        x as int == m * q + a,
                ;
                lemma_fundamental_div_mod_converse(scaled as int, m, -q - 1, m - a);
            }
        }
        if a == 0 {
            0
        } else {
            size - a as u32
        }
    }
}

/// The color of the texel that scaled texture coordinates `(sx, sy)` land on, both wrapped
/// into the grid; `None` for a texture without pixels or with float samples.
pub fn texel(img: &DynamicImage, sx: i32, sy: i32) -> (r: Option<Rgb8>)
    ensures
        r is None <==> image_width(*img) == 0 || image_height(*img) == 0
            || image_has_float_samples(*img),
        r matches Some(c) ==> {
            let w = image_width(*img) as int;
            let p = image_pixels(*img)[cell(sx as int % w, sy as int % image_height(*img) as int, w)];
            c == Rgb8 { r: p.0, g: p.1, b: p.2 }
        },
{
    let (width, height) = dimensions(img);
    if width == 0 || height == 0 || has_float_samples(img) {
        return None;
    }
    let x = wrap_coord(sx, width);
    let y = wrap_coord(sy, height);
    let p = pixel_at(img, x, y);
    Some(Rgb8 { r: p.0, g: p.1, b: p.2 })
}

} // verus!
