//! Texture formats, as the graphics library reports them for a surface, and
//! the choice among them.
use vstd::prelude::*;

verus! {

/// `wgpu::TextureFormat`, the format of a texture. Nothing is known of a
/// value but what [`format_is_srgb`] says of it.
#[verifier::external_type_specification]
#[verifier::external_body]
pub struct ExTextureFormat(wgpu::TextureFormat);

/// `wgpu::CompositeAlphaMode`, how a surface is blended with what lies
/// behind the window. Values are carried, never looked into.
#[verifier::external_type_specification]
#[verifier::external_body]
pub struct ExCompositeAlphaMode(wgpu::CompositeAlphaMode);

/// Whether `wgpu::TextureFormat::is_srgb` holds of a format.
pub uninterp spec fn format_is_srgb(format: wgpu::TextureFormat) -> bool;

/// `wgpu::TextureFormat::is_srgb`: whether the format stores its colours
/// sRGB-encoded. The answer depends on the format alone; nothing more is
/// claimed of it.
#[verifier::external_body]
fn is_srgb(format: &wgpu::TextureFormat) -> (srgb: bool)
    ensures
        srgb == format_is_srgb(*format),
{
    format.is_srgb()
}

/// `k` is the place of the preferred entry in a list of capabilities, where
/// `srgb[i]` says whether entry `i` is sRGB-encoded: the first sRGB entry,
/// or the first entry of all where none is.
pub open spec fn is_preferred(srgb: Seq<bool>, k: int) -> bool {
    &&& 0 <= k < srgb.len()
    &&& forall|j: int| 0 <= j < k ==> !srgb[j]
    &&& srgb[k] || (k == 0 && forall|j: int| 0 <= j < srgb.len() ==> !srgb[j])
}

/// A list has at most one preferred place.
pub proof fn lemma_preferred_is_unique(srgb: Seq<bool>, k1: int, k2: int)
    requires
        is_preferred(srgb, k1),
        is_preferred(srgb, k2),
    ensures
        k1 == k2,
{
    if k1 < k2 {
        assert(!srgb[k1]);
    } else if k2 < k1 {
        assert(!srgb[k2]);
    }
}

/// The preferred place in a list of sRGB flags.
pub fn preferred_index(srgb: &Vec<bool>) -> (k: usize)
    requires
        srgb.len() > 0,
    ensures
        is_preferred(srgb@, k as int),
{
    let mut i: usize = 0;
    while i < srgb.len()
        invariant
            i <= srgb.len(),
            forall|j: int| 0 <= j < i ==> !srgb@[j],
        decreases srgb.len() - i,
    {
        if srgb[i] {
            return i;
        }
        i += 1;
    }
    0
}

/// The sRGB flags of a list of formats.
pub open spec fn srgb_flags(formats: Seq<wgpu::TextureFormat>) -> Seq<bool> {
    Seq::new(formats.len(), |i: int| format_is_srgb(formats[i]))
}

/// Picks the surface format among those that an adapter supports: an sRGB
/// format where there is one, else the adapter's first.
pub fn choose_format(formats: &Vec<wgpu::TextureFormat>) -> (r: (usize, wgpu::TextureFormat))
    requires
        formats.len() > 0,
    ensures
        is_preferred(srgb_flags(formats@), r.0 as int),
        r.1 == formats@[r.0 as int],
{
    let mut flags: Vec<bool> = Vec::new();
    let mut i: usize = 0;
    while i < formats.len()
        invariant
            i <= formats.len(),
            flags@.len() == i,
            forall|j: int| 0 <= j < i ==> flags@[j] == format_is_srgb(formats@[j]),
        decreases formats.len() - i,
    {
        flags.push(is_srgb(&formats[i]));
        i += 1;
    }
    assert(flags@ =~= srgb_flags(formats@));
    let k = preferred_index(&flags);
    (k, formats[k])
}

} // verus!
