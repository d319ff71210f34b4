//! Surface format negotiation.
//!
//! The host queries the platform for the capability lists of a presentation
//! surface and hands them to this module as plain values. A surface format is
//! described here by what the negotiation logic reads of it: a host-chosen
//! identifier and whether the format is an sRGB format.

use vstd::prelude::*;

verus! {

/// What the library reads of one supported surface color format: a
/// host-chosen identifier and whether the format is sRGB-encoded.
#[derive(Clone, Copy, PartialEq, Eq, Structural, Debug)]
pub struct FormatInfo {
    pub id: u32,
    pub srgb: bool,
}

/// Holds exactly when `i` indexes the format the negotiation rule picks from
/// `formats`: the first sRGB entry in list order if one exists, else the
/// first entry.
pub open spec fn is_selected_format_index(formats: Seq<FormatInfo>, i: int) -> bool {
    &&& 0 <= i < formats.len()
    &&& if exists|j: int| 0 <= j < formats.len() && formats[j].srgb {
            formats[i].srgb && (forall|j: int| 0 <= j < i ==> !formats[j].srgb)
        } else {
            i == 0
        }
}

/// Picks the index of the negotiated surface format: the first sRGB-capable
/// entry of the capability list if there is one, otherwise the list's first
/// entry. The tie-break is deterministic and order-preserving.
pub fn select_format(formats: &Vec<FormatInfo>) -> (i: usize)
    requires
        formats@.len() > 0,
    ensures
        is_selected_format_index(formats@, i as int),
{
    let n: usize = formats.len();
    let mut k: usize = 0;
    while k < n
        invariant
            0 < n == formats@.len(),
            0 <= k <= n,
            forall|j: int| 0 <= j < k ==> !formats@[j].srgb,
        decreases n - k,
    {
        if formats[k].srgb {
            return k;
        }
        k = k + 1;
    }
    0
}

} // verus!
