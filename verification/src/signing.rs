//! Signing an asset, step by step.
//!
//! The host reads the asset and waits for the manifest engine twice: when the
//! asset is parsed as an ingredient, and when the signed manifest is
//! embedded. What is decided before, between and after lives here, in the
//! order in which it happens: the manifest is prepared, the parsed ingredient
//! becomes the parent where it carries a manifest, and the signer is made.

use crate::algorithm::algorithm_of_name;
use crate::error::Error;
use crate::manifest::{
    add_assertions, all_parse, create_manifest, documents_of, generator_id,
    ingredient_has_manifest, ingredient_id, labels_of, manifest_generator, manifest_labels,
    manifest_parent, manifest_thumbnail, manifest_values, set_parent_if_carrying, set_thumbnail,
    thumbnail_view, AssertionEntry, Thumbnail,
};
use crate::signer::{chain_of, reserve_of, KeyVaultSigner, SignerView};
use vstd::prelude::*;

verus! {

/// What the host hands over for one signing: the algorithm by name, the
/// certificate chain with the leaf first, the assertions in the order of the
/// host's mapping, the thumbnail, and whether it has a time-stamp callback.
/// The callbacks themselves stay with the host.
pub struct SigningInfo {
    pub alg: String,
    pub certificates: Vec<Vec<u8>>,
    pub assertions: Option<Vec<AssertionEntry>>,
    pub thumbnail: Option<Thumbnail>,
    pub timestamp: bool,
}

/// The assertions that were given, none where the mapping was left out.
pub open spec fn entries_of(assertions: Option<Vec<AssertionEntry>>) -> Seq<AssertionEntry> {
    match assertions {
        Some(entries) => entries@,
        None => Seq::empty(),
    }
}

/// Prepares the manifest for an asset: a new manifest under the fixed
/// generator, every assertion added in the order given, each under its
/// label and with the document that its value is, then the thumbnail. The
/// first assertion whose value is no JSON document ends it with
/// `AssertionParse`. An assertion or a thumbnail that the manifest refused
/// would be `ManifestAssertion` or `ManifestThumbnail`; it refuses neither.
pub fn prepare_manifest(info: &SigningInfo) -> (out: Result<c2pa::Manifest, Error>)
    ensures
        out is Ok <==> all_parse(entries_of(info.assertions)),
        out matches Ok(manifest) ==> {
            &&& manifest_generator(manifest) == generator_id()
            &&& manifest_labels(manifest) == labels_of(entries_of(info.assertions))
            &&& manifest_values(manifest) == documents_of(entries_of(info.assertions))
            &&& manifest_thumbnail(manifest) == thumbnail_view(info.thumbnail)
            &&& manifest_parent(manifest) is None
        },
        out matches Err(e) ==> e == Error::AssertionParse,
{
    let mut manifest = create_manifest();
    match &info.assertions {
        Some(entries) => {
            match add_assertions(&mut manifest, entries) {
                Ok(()) => {
                    assert(Seq::<Seq<char>>::empty() + labels_of(entries@) == labels_of(
                        entries@,
                    ));
                    assert(Seq::<serde_json::Value>::empty() + documents_of(entries@)
                        == documents_of(entries@));
                },
                Err(e) => {
                    return Err(e);
                },
            }
        },
        None => {},
    }
    match &info.thumbnail {
        Some(thumbnail) => {
            match set_thumbnail(&mut manifest, thumbnail) {
                Ok(()) => {},
                Err(e) => {
                    return Err(e);
                },
            }
        },
        None => {},
    }
    Ok(manifest)
}

/// Goes on once the asset was parsed as an ingredient. A failed parse ends
/// the signing with the failure it came with. An ingredient that carries a
/// manifest becomes the parent of the new manifest, which is how provenance
/// chains; one that carries none is dropped. Then the signer is made from the
/// algorithm's name, the time-stamp flag and the certificates. The chain
/// must be one whose reserve can be counted, see
/// [`chain_fits`](crate::signer::chain_fits).
pub fn continue_signing(
    manifest: &mut c2pa::Manifest,
    info: SigningInfo,
    parsed: Result<c2pa::Ingredient, Error>,
) -> (out: Result<KeyVaultSigner, Error>)
    requires
        reserve_of(chain_of(info.certificates@)) <= usize::MAX,
    ensures
        manifest_generator(*final(manifest)) == manifest_generator(*old(manifest)),
        manifest_labels(*final(manifest)) == manifest_labels(*old(manifest)),
        manifest_values(*final(manifest)) == manifest_values(*old(manifest)),
        manifest_thumbnail(*final(manifest)) == manifest_thumbnail(*old(manifest)),
        manifest_parent(*final(manifest)) == parent_after(manifest_parent(*old(manifest)), parsed),
        match parsed {
            Err(failure) => out == Err::<KeyVaultSigner, Error>(failure),
            Ok(ingredient) => if ingredient_has_manifest(ingredient) && manifest_parent(
                *old(manifest),
            ) is Some {
                out matches Err(e) && e == Error::ManifestEmbed
            } else {
                match algorithm_of_name(info.alg@) {
                    Some(alg) => out matches Ok(signer) && signer@ == (SignerView {
                        alg,
                        certs: chain_of(info.certificates@),
                        timestamp: info.timestamp,
                    }),
                    None => out matches Err(e) && e == Error::UnsupportedAlgorithm,
                }
            },
        },
{
    match parsed {
        Err(failure) => Err(failure),
        Ok(ingredient) => {
            match set_parent_if_carrying(manifest, ingredient) {
                Ok(()) => {},
                Err(e) => {
                    return Err(e);
                },
            }
            KeyVaultSigner::new(info.timestamp, info.certificates, info.alg.as_str())
        },
    }
}

/// The parent of the manifest once the asset was parsed: the ingredient
/// where it was parsed, carries a manifest, and the manifest had no parent
/// yet; the parent it had otherwise.
pub open spec fn parent_after(before: Option<Seq<char>>, parsed: Result<c2pa::Ingredient, Error>)
    -> Option<Seq<char>> {
    match parsed {
        Ok(ingredient) => if ingredient_has_manifest(ingredient) && before is None {
            Some(ingredient_id(ingredient))
        } else {
            before
        },
        Err(_) => before,
    }
}

/// Signing an asset whose ingredient carries no manifest leaves the new
/// manifest without a parent; signing one whose ingredient carries a manifest
/// makes that ingredient the parent.
pub proof fn lemma_parent_follows_ingredient(ingredient: c2pa::Ingredient)
    ensures
        !ingredient_has_manifest(ingredient) ==> parent_after(None, Ok(ingredient)) is None,
        ingredient_has_manifest(ingredient) ==> parent_after(None, Ok(ingredient)) == Some(
            ingredient_id(ingredient),
        ),
{
}

} // verus!
