//! Assembling the manifest that is embedded: assertions in the order they
//! were given, the thumbnail, and the parent where the asset already carries
//! a manifest.
//!
//! The manifest itself is the `c2pa` crate's. What this module knows of one is
//! named below: its generator, the labels and the values of its assertions in
//! order, its thumbnail and its parent.

use crate::error::Error;
use vstd::prelude::*;

verus! {

/// The claim generator of a manifest: what `c2pa::Manifest::claim_generator`
/// returns.
pub uninterp spec fn manifest_generator(manifest: c2pa::Manifest) -> Seq<char>;

/// The labels of a manifest's assertions, in the order of
/// `c2pa::Manifest::assertions`.
pub uninterp spec fn manifest_labels(manifest: c2pa::Manifest) -> Seq<Seq<char>>;

/// The thumbnail of a manifest, its format and its bytes: what
/// `c2pa::Manifest::thumbnail` returns.
pub uninterp spec fn manifest_thumbnail(manifest: c2pa::Manifest) -> Option<(Seq<char>, Seq<u8>)>;

/// The instance id of a manifest's parent ingredient: that of what
/// `c2pa::Manifest::parent` returns.
pub uninterp spec fn manifest_parent(manifest: c2pa::Manifest) -> Option<Seq<char>>;

/// The instance id of an ingredient: what `c2pa::Ingredient::instance_id`
/// returns.
pub uninterp spec fn ingredient_id(ingredient: c2pa::Ingredient) -> Seq<char>;

/// Whether an ingredient carries a manifest store of its own: whether
/// `c2pa::Ingredient::manifest_data` returns one.
pub uninterp spec fn ingredient_has_manifest(ingredient: c2pa::Ingredient) -> bool;

/// The JSON values of a manifest's assertions, in the order of
/// `c2pa::Manifest::assertions`: for each what `ManifestAssertion::value`
/// returns.
pub uninterp spec fn manifest_values(manifest: c2pa::Manifest) -> Seq<serde_json::Value>;

/// The document that `serde_json::from_str` reads out of a text, none where
/// it refuses the text.
pub uninterp spec fn json_document(text: Seq<char>) -> Option<serde_json::Value>;

/// Whether a text is a JSON document.
pub open spec fn json_parses(text: Seq<char>) -> bool {
    json_document(text) is Some
}

/// The generator that every signed manifest names.
pub open spec fn generator_id() -> Seq<char> {
    "azure_media_provenance/0.1"@
}

/// Whether two manifests differ at most in their assertions.
pub open spec fn same_but_assertions(before: c2pa::Manifest, after: c2pa::Manifest) -> bool {
    &&& manifest_generator(after) == manifest_generator(before)
    &&& manifest_thumbnail(after) == manifest_thumbnail(before)
    &&& manifest_parent(after) == manifest_parent(before)
}

/// `c2pa::Manifest::new`. Believed of it: the manifest has the generator it
/// was given, no assertion, no thumbnail and no ingredient, so no parent.
#[verifier::external_body]
fn manifest_new(generator: &str) -> (out: c2pa::Manifest)
    ensures
        manifest_generator(out) == generator@,
        manifest_labels(out) == Seq::<Seq<char>>::empty(),
        manifest_values(out) == Seq::<serde_json::Value>::empty(),
        manifest_thumbnail(out) is None,
        manifest_parent(out) is None,
{
    c2pa::Manifest::new(generator)
}

/// `serde_json::from_str` for a `serde_json::Value`. Believed of it: whether
/// it reads the text, and the document it reads, depend on the text alone.
/// The document is handed on unread, the parser's error is dropped.
#[verifier::external_body]
fn parse_json(text: &str) -> (out: Option<serde_json::Value>)
    ensures
        out == json_document(text@),
{
    match serde_json::from_str::<serde_json::Value>(text) {
        Ok(value) => Some(value),
        Err(_) => None,
    }
}

/// `c2pa::Manifest::add_labeled_assertion` for a JSON document; the result
/// says whether it returned `Ok`. Believed of it: it refuses only what cannot
/// be turned into a JSON value, and a JSON value can; the manifest then has
/// one more assertion, the last, under the label given and with the document
/// given for its value. Nothing else of the manifest changes.
#[verifier::external_body]
fn manifest_add_labeled_assertion(
    manifest: &mut c2pa::Manifest,
    label: &str,
    value: &serde_json::Value,
) -> (added: bool)
    ensures
        added,
        manifest_labels(*final(manifest)) == manifest_labels(*old(manifest)).push(label@),
        manifest_values(*final(manifest)) == manifest_values(*old(manifest)).push(*value),
        same_but_assertions(*old(manifest), *final(manifest)),
{
    manifest.add_labeled_assertion(label, value).is_ok()
}

/// `c2pa::Manifest::set_thumbnail`; the result says whether it returned `Ok`.
/// Believed of it: the bytes go into the manifest's resources, which are a
/// map in memory as the engine is built here, so nothing is refused; the
/// manifest's thumbnail then has the format and the bytes given. Nothing
/// else of what is named here changes.
#[verifier::external_body]
fn manifest_set_thumbnail(manifest: &mut c2pa::Manifest, format: &str, bytes: Vec<u8>) -> (set:
    bool)
    ensures
        set,
        manifest_thumbnail(*final(manifest)) == Some((format@, bytes@)),
        manifest_generator(*final(manifest)) == manifest_generator(*old(manifest)),
        manifest_labels(*final(manifest)) == manifest_labels(*old(manifest)),
        manifest_values(*final(manifest)) == manifest_values(*old(manifest)),
        manifest_parent(*final(manifest)) == manifest_parent(*old(manifest)),
{
    manifest.set_thumbnail(format, bytes).is_ok()
}

/// `c2pa::Manifest::set_parent`; the result says whether it returned `Ok`.
/// Believed of it: it refuses only a manifest that has a parent already, and
/// then changes nothing; otherwise the ingredient becomes the parent.
/// Nothing else of what is named here changes.
#[verifier::external_body]
fn manifest_set_parent(manifest: &mut c2pa::Manifest, ingredient: c2pa::Ingredient) -> (set: bool)
    ensures
        set <==> manifest_parent(*old(manifest)) is None,
        set ==> manifest_parent(*final(manifest)) == Some(ingredient_id(ingredient)),
        !set ==> manifest_parent(*final(manifest)) == manifest_parent(*old(manifest)),
        manifest_generator(*final(manifest)) == manifest_generator(*old(manifest)),
        manifest_labels(*final(manifest)) == manifest_labels(*old(manifest)),
        manifest_values(*final(manifest)) == manifest_values(*old(manifest)),
        manifest_thumbnail(*final(manifest)) == manifest_thumbnail(*old(manifest)),
{
    manifest.set_parent(ingredient).is_ok()
}

/// `c2pa::Ingredient::manifest_data`, asked only whether there is any.
#[verifier::external_body]
fn ingredient_carries_manifest(ingredient: &c2pa::Ingredient) -> (out: bool)
    ensures
        out == ingredient_has_manifest(*ingredient),
{
    ingredient.manifest_data().is_some()
}

/// One assertion as the host gives it: a label and a JSON document as text.
#[derive(Debug, Clone, PartialEq, Eq)]
pub struct AssertionEntry {
    pub label: String,
    pub value: String,
}

/// A thumbnail as the host gives it: a MIME type and the image's bytes.
#[derive(Debug, Clone, PartialEq, Eq)]
pub struct Thumbnail {
    pub format: String,
    pub bytes: Vec<u8>,
}

/// The labels of some entries, in their order.
pub open spec fn labels_of(entries: Seq<AssertionEntry>) -> Seq<Seq<char>> {
    Seq::new(entries.len(), |i: int| entries[i].label@)
}

/// Whether every entry's value is a JSON document.
pub open spec fn all_parse(entries: Seq<AssertionEntry>) -> bool {
    forall|i: int| 0 <= i < entries.len() ==> json_parses(#[trigger] entries[i].value@)
}

/// The documents that the entries' values are, in their order.
pub open spec fn documents_of(entries: Seq<AssertionEntry>) -> Seq<serde_json::Value> {
    Seq::new(entries.len(), |i: int| json_document(entries[i].value@)->0)
}

/// The thumbnail as format and bytes.
pub open spec fn thumbnail_view(thumbnail: Option<Thumbnail>) -> Option<(Seq<char>, Seq<u8>)> {
    match thumbnail {
        Some(t) => Some((t.format@, t.bytes@)),
        None => None,
    }
}

/// How reading a manifest store failed: a manifest that lives elsewhere is
/// its own kind of failure and carries the URL; everything else is a failed
/// read.
pub fn classify_read_failure(remote_url: Option<String>) -> (out: Error)
    ensures
        match remote_url {
            Some(url) => out == Error::RemoteManifestUrl(url),
            None => out == Error::ManifestRead,
        },
{
    match remote_url {
        Some(url) => Error::RemoteManifestUrl(url),
        None => Error::ManifestRead,
    }
}

/// Adds the entries to the manifest as labeled assertions, one after the
/// other in the order given, each under its label and with the document
/// that its value is. It stops at the first entry whose value is no JSON
/// document, with `AssertionParse`; the assertions before that one stay
/// added. An assertion that the manifest refused would be
/// `ManifestAssertion`; a JSON document it does not refuse.
pub fn add_assertions(manifest: &mut c2pa::Manifest, entries: &Vec<AssertionEntry>) -> (out:
    Result<(), Error>)
    ensures
        same_but_assertions(*old(manifest), *final(manifest)),
        out is Ok <==> all_parse(entries@),
        out is Ok ==> manifest_labels(*final(manifest)) == manifest_labels(*old(manifest))
            + labels_of(entries@),
        out is Ok ==> manifest_values(*final(manifest)) == manifest_values(*old(manifest))
            + documents_of(entries@),
        out matches Err(e) ==> e == Error::AssertionParse,
        out is Err ==> exists|k: int|
            {
                &&& 0 <= k < entries@.len()
                &&& all_parse(#[trigger] entries@.take(k))
                &&& !json_parses(entries@[k].value@)
                &&& manifest_labels(*final(manifest)) == manifest_labels(*old(manifest))
                    + labels_of(entries@.take(k))
                &&& manifest_values(*final(manifest)) == manifest_values(*old(manifest))
                    + documents_of(entries@.take(k))
            },
{
    let ghost labels = manifest_labels(*manifest);
    let ghost values = manifest_values(*manifest);
    let mut i: usize = 0;
    assert(labels + labels_of(entries@.take(0)) == labels);
    assert(values + documents_of(entries@.take(0)) == values);
    while i < entries.len()
        invariant
            i <= entries@.len(),
            same_but_assertions(*old(manifest), *manifest),
            labels == manifest_labels(*old(manifest)),
            values == manifest_values(*old(manifest)),
            all_parse(entries@.take(i as int)),
            manifest_labels(*manifest) == labels + labels_of(entries@.take(i as int)),
            manifest_values(*manifest) == values + documents_of(entries@.take(i as int)),
        decreases entries@.len() - i,
    {
        let entry = &entries[i];
        let parsed = parse_json(entry.value.as_str());
        match parsed {
            None => {
                proof {
                    assert(!json_parses(entries@[i as int].value@));
                }
                return Err(Error::AssertionParse);
            },
            Some(value) => {
                let added = manifest_add_labeled_assertion(manifest, entry.label.as_str(), &value);
                if !added {
                    return Err(Error::ManifestAssertion);
                }
            },
        }
        proof {
            let before = entries@.take(i as int);
            let next = entries@.take(i + 1);
            let entry = entries@[i as int];
            assert(next.drop_last() == before);
            assert(labels_of(next) == labels_of(before).push(entry.label@));
            assert(documents_of(next) == documents_of(before).push(
                json_document(entry.value@)->0,
            ));
            assert(labels + labels_of(next) == (labels + labels_of(before)).push(entry.label@));
            assert(values + documents_of(next) == (values + documents_of(before)).push(
                json_document(entry.value@)->0,
            ));
            assert forall|j: int| 0 <= j < next.len() implies json_parses(
                #[trigger] next[j].value@,
            ) by {
                if j < i {
                    assert(before[j] == next[j]);
                }
            }
        }
        i = i + 1;
    }
    assert(entries@.take(i as int) == entries@);
    Ok(())
}

/// A new manifest under the generator that every signed manifest names,
/// with nothing in it yet.
pub fn create_manifest() -> (out: c2pa::Manifest)
    ensures
        manifest_generator(out) == generator_id(),
        manifest_labels(out) == Seq::<Seq<char>>::empty(),
        manifest_values(out) == Seq::<serde_json::Value>::empty(),
        manifest_thumbnail(out) is None,
        manifest_parent(out) is None,
{
    manifest_new("azure_media_provenance/0.1")
}

/// Copies bytes into a vector of their own.
fn copy_vec(bytes: &Vec<u8>) -> (out: Vec<u8>)
    ensures
        out@ == bytes@,
{
    crate::timestamp::copy_bytes(bytes.as_slice())
}

/// Sets the manifest's thumbnail to the format and the bytes given. A
/// refusal would be `ManifestThumbnail`; the manifest refuses none.
pub fn set_thumbnail(manifest: &mut c2pa::Manifest, thumbnail: &Thumbnail) -> (out: Result<
    (),
    Error,
>)
    ensures
        out is Ok,
        manifest_thumbnail(*final(manifest)) == Some((thumbnail.format@, thumbnail.bytes@)),
        manifest_generator(*final(manifest)) == manifest_generator(*old(manifest)),
        manifest_labels(*final(manifest)) == manifest_labels(*old(manifest)),
        manifest_values(*final(manifest)) == manifest_values(*old(manifest)),
        manifest_parent(*final(manifest)) == manifest_parent(*old(manifest)),
{
    if manifest_set_thumbnail(manifest, thumbnail.format.as_str(), copy_vec(&thumbnail.bytes)) {
        Ok(())
    } else {
        Err(Error::ManifestThumbnail)
    }
}

/// Makes the ingredient the parent of the manifest if it carries a manifest
/// of its own, and drops it if it carries none. A manifest that has a parent
/// already refuses another: `ManifestEmbed`, and nothing changes.
pub fn set_parent_if_carrying(manifest: &mut c2pa::Manifest, ingredient: c2pa::Ingredient) -> (out:
    Result<(), Error>)
    ensures
        manifest_generator(*final(manifest)) == manifest_generator(*old(manifest)),
        manifest_labels(*final(manifest)) == manifest_labels(*old(manifest)),
        manifest_values(*final(manifest)) == manifest_values(*old(manifest)),
        manifest_thumbnail(*final(manifest)) == manifest_thumbnail(*old(manifest)),
        out is Err <==> ingredient_has_manifest(ingredient) && manifest_parent(*old(manifest))
            is Some,
        out matches Err(e) ==> e == Error::ManifestEmbed,
        manifest_parent(*final(manifest)) == (if ingredient_has_manifest(ingredient)
            && manifest_parent(*old(manifest)) is None {
            Some(ingredient_id(ingredient))
        } else {
            manifest_parent(*old(manifest))
        }),
{
    if ingredient_carries_manifest(&ingredient) {
        if manifest_set_parent(manifest, ingredient) {
            Ok(())
        } else {
            Err(Error::ManifestEmbed)
        }
    } else {
        Ok(())
    }
}

} // verus!
