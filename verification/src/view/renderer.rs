//! The text-placement arithmetic of the renderer: what part of a glyph line
//! is visible when its actor sits across the world seam. The painting itself
//! happens outside the simulation core.
use crate::config::WORLD_WIDTH;
use crate::view::util::{max_line_len, string_from_chars};
use vstd::prelude::*;
use vstd::std_specs::iter::IteratorSpec;

verus! {

broadcast use vstd::string::axiom_spec_iter, vstd::string::next_postcondition;

/// The line with its leftmost `offset` characters cropped away; empty when
/// the offset reaches past its end.
pub fn crop_left_offset(s: &str, offset: usize) -> (r: String)
    ensures
        r@ == if offset <= s@.len() {
            s@.skip(offset as int)
        } else {
            Seq::<char>::empty()
        },
{
    let ghost slen = s@.len();
    proof {
        assert(s@.skip(0) =~= s@);
    }
    let mut it = s.chars();
    let mut kept: Vec<char> = Vec::new();
    let mut to_skip: usize = offset;
    let ghost mut i: int = 0;
    loop
        invariant
            slen == s@.len(),
            0 <= i <= slen,
            to_skip as int == if offset as int - i >= 0 {
                offset as int - i
            } else {
                0
            },
            it.obeys_prophetic_iter_laws(),
            it.remaining() == s@.skip(i),
            kept@ =~= if i <= offset {
                Seq::<char>::empty()
            } else {
                s@.subrange(offset as int, i)
            },
        ensures
            i == slen,
            kept@ =~= if slen <= offset {
                Seq::<char>::empty()
            } else {
                s@.subrange(offset as int, slen as int)
            },
        decreases slen - i,
    {
        match it.next() {
            Some(c) => {
                proof {
                    assert(s@.skip(i).drop_first() =~= s@.skip(i + 1));
                }
                if to_skip > 0 {
                    to_skip = to_skip - 1;
                } else {
                    kept.push(c);
                }
                proof {
                    i = i + 1;
                    assert(kept@ =~= if i <= offset {
                        Seq::<char>::empty()
                    } else {
                        s@.subrange(offset as int, i)
                    });
                }
            },
            None => {
                proof {
                    assert(s@.skip(i).len() == 0);
                }
                break ;
            },
        }
    }
    proof {
        if offset <= slen {
            assert(s@.subrange(offset as int, slen as int) =~= s@.skip(offset as int));
            if offset == slen {
                assert(s@.skip(offset as int) =~= Seq::<char>::empty());
            }
        }
    }
    string_from_chars(&kept)
}

/// How many characters of a glyph's lines hang past the world seam when the
/// glyph starts at column `x`: that many leading characters are cropped and
/// the rest is drawn from column zero. Zero when the glyph fits before the
/// seam.
pub fn offset_x(x: u8, s: &str) -> (r: usize)
    requires
        x < WORLD_WIDTH,
        max_line_len(s@) < 256,
    ensures
        r as int == if WORLD_WIDTH - x < max_line_len(s@) {
            WORLD_WIDTH - x
        } else {
            0
        },
{
    let width = crate::view::util::chars_width(s);
    let x_offset = WORLD_WIDTH - x;
    if x_offset < width {
        x_offset as usize
    } else {
        0
    }
}

} // verus!
