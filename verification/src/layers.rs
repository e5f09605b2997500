//! Layer materialization: decoding a gzip-compressed layer blob, and the
//! model of what applying layers to a root means. A layer denotes a map from
//! paths to file metadata (content, permission bits, extended attributes);
//! applying it overlays that map onto the accumulating root, so later layers
//! overwrite earlier ones and pre-seeded files that no layer touches survive.
//! The caller unpacks each decoded archive onto the root in exactly the order
//! the digests are handed out.

use vstd::prelude::*;
use crate::errors::RunError;

verus! {

/// What one decoded gzip stream holds, or `None` when the bytes are not a
/// well-formed gzip stream.
pub uninterp spec fn gunzip_of(data: Seq<u8>) -> Option<Seq<u8>>;

/// Relies on flate2::read::GzDecoder driven by std::io::Read::read_to_end:
/// gzip decoding is a pure function of the input bytes.
#[verifier::external_body]
fn gunzip(data: &[u8]) -> (r: Option<Vec<u8>>)
    ensures
        match r {
            Some(v) => gunzip_of(data@) == Some(v@),
            None => gunzip_of(data@) is None,
        },
{
    let mut decoder = flate2::read::GzDecoder::new(data);
    let mut out: Vec<u8> = Vec::new();
    match std::io::Read::read_to_end(&mut decoder, &mut out) {
        Ok(_) => Some(out),
        Err(_) => None,
    }
}

/// Decompresses one downloaded layer blob into the archive to unpack. A blob
/// that is not a gzip stream is an extraction failure naming the digest.
pub fn decode_layer(digest: &str, blob: &[u8]) -> (r: Result<Vec<u8>, RunError>)
    ensures
        match r {
            Ok(archive) => gunzip_of(blob@) == Some(archive@),
            Err(e) => {
                &&& gunzip_of(blob@) is None
                &&& e matches RunError::LayerExtractionError { digest: d } && d@ == digest@
            },
        },
{
    match gunzip(blob) {
        Some(archive) => Ok(archive),
        None => Err(RunError::LayerExtractionError { digest: digest.to_owned() }),
    }
}

/// The metadata a layer records for one path: the bytes, the permission
/// bits, and the extended attributes. Extraction preserves all three.
pub ghost struct FileMeta {
    pub content: Seq<u8>,
    pub mode: u32,
    pub xattrs: Map<Seq<char>, Seq<u8>>,
}

/// One layer overlaid on a root: every path the layer holds takes the
/// layer's metadata, every other path keeps the root's.
pub open spec fn apply_layer(
    root: Map<Seq<char>, FileMeta>,
    layer: Map<Seq<char>, FileMeta>,
) -> Map<Seq<char>, FileMeta> {
    root.union_prefer_right(layer)
}

/// All layers overlaid in order: the first layer is applied first, so later
/// layers overwrite earlier ones.
pub open spec fn apply_layers(
    root: Map<Seq<char>, FileMeta>,
    layers: Seq<Map<Seq<char>, FileMeta>>,
) -> Map<Seq<char>, FileMeta>
    decreases layers.len(),
{
    if layers.len() == 0 {
        root
    } else {
        apply_layers(apply_layer(root, layers[0]), layers.skip(1))
    }
}

/// Law: materializing an empty layer list leaves the root exactly as
/// pre-seeded.
pub proof fn lemma_materialize_empty(root: Map<Seq<char>, FileMeta>)
    ensures
        apply_layers(root, Seq::empty()) == root,
{
}

/// Law: a path that no layer touches keeps exactly what the pre-seeded root
/// had for it — present or absent, with unchanged metadata.
pub proof fn lemma_untouched_path(
    root: Map<Seq<char>, FileMeta>,
    layers: Seq<Map<Seq<char>, FileMeta>>,
    p: Seq<char>,
)
    requires
        forall|k: int| 0 <= k < layers.len() ==> !(#[trigger] layers[k]).dom().contains(p),
    ensures
        apply_layers(root, layers).dom().contains(p) == root.dom().contains(p),
        root.dom().contains(p) ==> apply_layers(root, layers)[p] == root[p],
    decreases layers.len(),
{
    if layers.len() > 0 {
        assert(!layers[0].dom().contains(p));
        assert forall|k: int| 0 <= k < layers.skip(1).len() implies !(#[trigger] layers.skip(
            1,
        )[k]).dom().contains(p) by {
            assert(layers.skip(1)[k] == layers[k + 1]);
        }
        lemma_untouched_path(apply_layer(root, layers[0]), layers.skip(1), p);
    }
}

/// Law: the last layer that holds a path decides what the materialized root
/// holds there — its content, permission bits and extended attributes land
/// unchanged.
pub proof fn lemma_last_layer_wins(
    root: Map<Seq<char>, FileMeta>,
    layers: Seq<Map<Seq<char>, FileMeta>>,
    j: int,
    p: Seq<char>,
)
    requires
        0 <= j < layers.len(),
        layers[j].dom().contains(p),
        forall|k: int| j < k < layers.len() ==> !(#[trigger] layers[k]).dom().contains(p),
    ensures
        apply_layers(root, layers).dom().contains(p),
        apply_layers(root, layers)[p] == layers[j][p],
    decreases layers.len(),
{
    let rest = layers.skip(1);
    assert(forall|k: int| 0 <= k < rest.len() ==> rest[k] == layers[k + 1]);
    if j == 0 {
        lemma_untouched_path(apply_layer(root, layers[0]), rest, p);
    } else {
        lemma_last_layer_wins(apply_layer(root, layers[0]), rest, j - 1, p);
    }
}

/// Law: when two consecutive layers hold the same path and no later layer
/// touches it, the later of the two wins: the materialized root holds layer
/// `i + 1`'s metadata at that path.
pub proof fn lemma_later_layer_overwrites(
    root: Map<Seq<char>, FileMeta>,
    layers: Seq<Map<Seq<char>, FileMeta>>,
    i: int,
    p: Seq<char>,
)
    requires
        layers.len() >= 2,
        0 <= i,
        i + 1 < layers.len(),
        layers[i].dom().contains(p),
        layers[i + 1].dom().contains(p),
        forall|k: int| i + 1 < k < layers.len() ==> !(#[trigger] layers[k]).dom().contains(p),
    ensures
        apply_layers(root, layers)[p] == layers[i + 1][p],
{
    lemma_last_layer_wins(root, layers, i + 1, p);
}

/// Law: permission bits and extended attributes survive materialization
/// losslessly: whatever the winning layer recorded for a path is what the
/// root carries afterwards.
pub proof fn lemma_attributes_preserved(
    root: Map<Seq<char>, FileMeta>,
    layers: Seq<Map<Seq<char>, FileMeta>>,
    j: int,
    p: Seq<char>,
)
    requires
        0 <= j < layers.len(),
        layers[j].dom().contains(p),
        forall|k: int| j < k < layers.len() ==> !(#[trigger] layers[k]).dom().contains(p),
    ensures
        apply_layers(root, layers)[p].mode == layers[j][p].mode,
        apply_layers(root, layers)[p].xattrs == layers[j][p].xattrs,
        apply_layers(root, layers)[p].content == layers[j][p].content,
{
    lemma_last_layer_wins(root, layers, j, p);
}

} // verus!
