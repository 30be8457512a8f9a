//! Utility functions for FerricLink Core
//!
//! This module provides shared utility functions used across the FerricLink
//! ecosystem: colouring text for terminal output and assigning colours to a
//! list of items. The printing helpers live with the surrounding
//! application.

pub use crate::colors;

use vstd::prelude::*;
use vstd::string::StringExecFns;

verus! {

/// Decide whether two strings hold the same characters.
pub fn str_eq(a: &str, b: &str) -> (r: bool)
    ensures
        r == (a@ == b@),
{
    let sa = String::from_str(a);
    let sb = String::from_str(b);
    sa == sb
}

/// The color code that a color name selects; an unknown name selects the
/// reset code.
pub open spec fn spec_color_code(color: Seq<char>) -> Seq<char> {
    if color == "blue"@ {
        colors::BLUE@
    } else if color == "yellow"@ {
        colors::YELLOW@
    } else if color == "pink"@ {
        colors::PINK@
    } else if color == "green"@ {
        colors::GREEN@
    } else if color == "red"@ {
        colors::RED@
    } else {
        colors::RESET@
    }
}

/// Get colored text: the color code for the named color, the text, and the
/// reset code.
pub fn get_colored_text(text: &str, color: &str) -> (r: String)
    ensures
        r@ == spec_color_code(color@) + text@ + colors::RESET@,
{
    let color_code = if str_eq(color, "blue") {
        colors::BLUE
    } else if str_eq(color, "yellow") {
        colors::YELLOW
    } else if str_eq(color, "pink") {
        colors::PINK
    } else if str_eq(color, "green") {
        colors::GREEN
    } else if str_eq(color, "red") {
        colors::RED
    } else {
        colors::RESET
    };
    let mut s = String::new();
    s.append(color_code);
    s.append(text);
    s.append(colors::RESET);
    s
}

/// Get bolded text: the bold code, the text, and the reset code.
pub fn get_bolded_text(text: &str) -> (r: String)
    ensures
        r@ == colors::BOLD@ + text@ + colors::RESET@,
{
    let mut s = String::new();
    s.append(colors::BOLD);
    s.append(text);
    s.append(colors::RESET);
    s
}

/// The five color names that items cycle through.
pub open spec fn spec_palette() -> Seq<Seq<char>> {
    seq!["blue"@, "yellow"@, "pink"@, "green"@, "red"@]
}

/// The palette left after removing the excluded color names, in palette
/// order.
pub open spec fn spec_filter_palette(p: Seq<Seq<char>>, excluded: Seq<Seq<char>>) -> Seq<
    Seq<char>,
>
    decreases p.len(),
{
    if p.len() == 0 {
        Seq::<Seq<char>>::empty()
    } else {
        let rest = spec_filter_palette(p.drop_last(), excluded);
        if excluded.contains(p.last()) {
            rest
        } else {
            rest.push(p.last())
        }
    }
}

/// Filtering with nothing excluded keeps the whole palette.
proof fn lemma_filter_palette_empty(p: Seq<Seq<char>>)
    ensures
        spec_filter_palette(p, Seq::<Seq<char>>::empty()) == p,
    decreases p.len(),
{
    if p.len() > 0 {
        lemma_filter_palette_empty(p.drop_last());
        assert(p.drop_last().push(p.last()) =~= p);
    }
}

/// Whether a list of strings holds one with the characters `x`.
fn slice_contains_string(hay: &Vec<String>, x: &String) -> (r: bool)
    ensures
        r == hay.deep_view().contains(x@),
{
    let n = hay.len();
    let mut i: usize = 0;
    while i < n
        invariant
            0 <= i <= n,
            n == hay@.len(),
            forall|j: int| 0 <= j < i ==> #[trigger] hay.deep_view()[j] != x@,
        decreases n - i,
    {
        proof {
            assert(hay.deep_view()[i as int] == hay@[i as int]@);
        }
        if hay[i] == *x {
            proof {
                assert(hay.deep_view()[i as int] == x@);
            }
            return true;
        }
        i += 1;
    }
    proof {
        if hay.deep_view().contains(x@) {
            let j = choose|j: int| 0 <= j < hay.deep_view().len() && hay.deep_view()[j] == x@;
            assert(hay.deep_view()[j] != x@);
        }
    }
    false
}

/// Get color mapping for items: each item is paired with a color, cycling
/// through the palette with the excluded colors removed.
pub fn get_color_mapping(items: &[String], excluded_colors: Option<&[String]>)
    -> (r: Vec<(String, String)>)
    requires
        ({
            let excluded = match excluded_colors {
                Some(e) => e.deep_view(),
                None => Seq::<Seq<char>>::empty(),
            };
            items@.len() > 0 ==> spec_filter_palette(spec_palette(), excluded).len() > 0
        }),
    ensures
        ({
            let excluded = match excluded_colors {
                Some(e) => e.deep_view(),
                None => Seq::<Seq<char>>::empty(),
            };
            let palette = spec_filter_palette(spec_palette(), excluded);
            &&& r.deep_view().len() == items@.len()
            &&& forall|i: int| 0 <= i < items@.len() ==> {
                &&& (#[trigger] r.deep_view()[i]).0 == items@[i]@
                &&& r.deep_view()[i].1 == palette[i % (palette.len() as int)]
            }
        }),
{
    let mut available: Vec<String> = Vec::new();
    available.push(String::from_str("blue"));
    available.push(String::from_str("yellow"));
    available.push(String::from_str("pink"));
    available.push(String::from_str("green"));
    available.push(String::from_str("red"));
    proof {
        assert(available.deep_view() =~= spec_palette());
    }

    let ghost excluded_seq = match excluded_colors {
        Some(e) => e.deep_view(),
        None => Seq::<Seq<char>>::empty(),
    };

    let mut palette: Vec<String> = Vec::new();
    match excluded_colors {
        Some(excluded) => {
            let mut ex: Vec<String> = Vec::new();
            let ne = excluded.len();
            let mut k: usize = 0;
            while k < ne
                invariant
                    0 <= k <= ne,
                    ne == excluded@.len(),
                    ex@.len() == k,
                    forall|j: int|
                        0 <= j < k ==> #[trigger] ex.deep_view()[j] == excluded.deep_view()[j],
                decreases ne - k,
            {
                let ghost ex0 = ex.deep_view();
                ex.push(excluded[k].clone());
                proof {
                    assert(ex.deep_view() =~= ex0.push(excluded@[k as int]@));
                    assert(excluded.deep_view()[k as int] == excluded@[k as int]@);
                }
                k += 1;
            }
            proof {
                assert(ex.deep_view() =~= excluded.deep_view());
            }
            let np = available.len();
            let mut i: usize = 0;
            while i < np
                invariant
                    0 <= i <= np,
                    np == available@.len(),
                    available.deep_view() == spec_palette(),
                    ex.deep_view() == excluded_seq,
                    palette.deep_view() == spec_filter_palette(
                        available.deep_view().take(i as int),
                        excluded_seq,
                    ),
                decreases np - i,
            {
                proof {
                    let av = available.deep_view();
                    assert(av.take(i + 1).drop_last() =~= av.take(i as int));
                    assert(av.take(i + 1).last() == av[i as int]);
                }
                let ghost p0 = palette.deep_view();
                if !slice_contains_string(&ex, &available[i]) {
                    palette.push(available[i].clone());
                    proof {
                        assert(palette.deep_view() =~= p0.push(available@[i as int]@));
                        assert(available.deep_view()[i as int] == available@[i as int]@);
                    }
                }
                i += 1;
            }
            proof {
                assert(available.deep_view().take(np as int) =~= available.deep_view());
            }
        },
        None => {
            palette = available;
            proof {
                lemma_filter_palette_empty(spec_palette());
            }
        },
    }

    let ncolors = palette.len();
    let mut mapping: Vec<(String, String)> = Vec::new();
    let n = items.len();
    if n == 0 {
        return mapping;
    }
    let mut i: usize = 0;
    while i < n
        invariant
            0 <= i <= n,
            n == items@.len(),
            ncolors == palette@.len(),
            ncolors > 0,
            palette.deep_view() == spec_filter_palette(spec_palette(), excluded_seq),
            mapping@.len() == i,
            forall|j: int| 0 <= j < i ==> {
                &&& (#[trigger] mapping.deep_view()[j]).0 == items@[j]@
                &&& mapping.deep_view()[j].1 == palette.deep_view()[j % (ncolors as int)]
            },
        decreases n - i,
    {
        let idx = i % ncolors;
        let ghost m0 = mapping.deep_view();
        mapping.push((items[i].clone(), palette[idx].clone()));
        proof {
            assert(mapping.deep_view() =~= m0.push((items@[i as int]@, palette@[idx as int]@)));
            assert(palette.deep_view()[idx as int] == palette@[idx as int]@);
        }
        i += 1;
    }
    mapping
}

} // verus!
