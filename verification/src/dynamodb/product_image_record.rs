//! Stored form of a [`ProductImage`].

use crate::domain::{ImageSet, ProductImage};
use crate::dynamodb::prohibited_content_record::{
    prohibited_content_of_prohibited_content_record,
    prohibited_content_record_of_prohibited_content, ProhibitedContentRecord,
};
use crate::image_set::{
    image_key_set_items, insert_image_key, lemma_prohibited_code_injective, new_image_key_set,
    prohibited_code, prohibited_content_code,
};
use crate::values::ProhibitedContent;
use vstd::prelude::*;
use vstd::std_specs::convert::FromSpecImpl;

verus! {

/// An image as written to a product or event record.
#[derive(Debug)]
pub struct ProductImageRecord {
    pub url: String,
    pub prohibited_content: ProhibitedContentRecord,
}

/// The stored form of an image.
pub open spec fn image_record_of(image: ProductImage) -> ProductImageRecord {
    ProductImageRecord {
        url: image.url,
        prohibited_content: prohibited_content_record_of_prohibited_content(image.prohibited_content),
    }
}

/// The image a stored image stands for.
pub open spec fn image_of_record(record: ProductImageRecord) -> ProductImage {
    ProductImage {
        url: record.url,
        prohibited_content: prohibited_content_of_prohibited_content_record(record.prohibited_content),
    }
}

/// What identifies an image within a set of images: its address and its screening
/// outcome.
pub open spec fn image_key(image: ProductImage) -> (Seq<char>, ProhibitedContent) {
    (image.url@, image.prohibited_content)
}

/// No two images of the sequence are the same image.
pub open spec fn images_distinct(images: Seq<ProductImage>) -> bool {
    forall|i: int, j: int|
        0 <= i < j < images.len() ==> image_key(#[trigger] images[i]) != image_key(#[trigger] images[j])
}

/// The images in order of first appearance, later repetitions dropped: what collecting
/// them into an insertion-ordered set keeps.
pub open spec fn dedup_images(images: Seq<ProductImage>) -> Seq<ProductImage>
    decreases images.len(),
{
    if images.len() == 0 {
        Seq::empty()
    } else {
        let kept = dedup_images(images.drop_last());
        if exists|k: int| 0 <= k < kept.len() && image_key(#[trigger] kept[k]) == image_key(images.last()) {
            kept
        } else {
            kept.push(images.last())
        }
    }
}

/// Deduplicating images that are already distinct changes nothing.
pub proof fn lemma_dedup_distinct_images(images: Seq<ProductImage>)
    requires
        images_distinct(images),
    ensures
        dedup_images(images) == images,
    decreases images.len(),
{
    if images.len() > 0 {
        let init = images.drop_last();
        assert(images_distinct(init)) by {
            assert forall|i: int, j: int| 0 <= i < j < init.len() implies image_key(#[trigger] init[i]) != image_key(#[trigger] init[j]) by {
                assert(init[i] == images[i]);
                assert(init[j] == images[j]);
            }
        }
        lemma_dedup_distinct_images(init);
        let kept = dedup_images(init);
        assert(!(exists|k: int| 0 <= k < kept.len() && image_key(#[trigger] kept[k]) == image_key(images.last()))) by {
            if exists|k: int| 0 <= k < kept.len() && image_key(#[trigger] kept[k]) == image_key(images.last()) {
                let k = choose|k: int| 0 <= k < kept.len() && image_key(#[trigger] kept[k]) == image_key(images.last());
                assert(kept[k] == images[k]);
                assert(images.last() == images[images.len() - 1]);
            }
        }
        assert(kept.push(images.last()) =~= images);
    }
}

/// What deduplication keeps holds no image twice.
pub proof fn lemma_dedup_images_distinct(images: Seq<ProductImage>)
    ensures
        images_distinct(dedup_images(images)),
    decreases images.len(),
{
    if images.len() > 0 {
        lemma_dedup_images_distinct(images.drop_last());
        let kept = dedup_images(images.drop_last());
        if !(exists|k: int| 0 <= k < kept.len() && image_key(#[trigger] kept[k]) == image_key(images.last())) {
            let pushed = kept.push(images.last());
            assert forall|i: int, j: int| 0 <= i < j < pushed.len() implies image_key(#[trigger] pushed[i]) != image_key(#[trigger] pushed[j]) by {
                if j == kept.len() {
                    assert(pushed[i] == kept[i]);
                } else {
                    assert(pushed[i] == kept[i]);
                    assert(pushed[j] == kept[j]);
                }
            }
        }
    }
}

impl From<ProductImage> for ProductImageRecord {
    fn from(image: ProductImage) -> (ret: Self) {
        ProductImageRecord { url: image.url, prohibited_content: image.prohibited_content.into() }
    }
}

impl FromSpecImpl<ProductImage> for ProductImageRecord {
    open spec fn obeys_from_spec() -> bool {
        true
    }

    open spec fn from_spec(image: ProductImage) -> Self {
        image_record_of(image)
    }
}

impl From<ProductImageRecord> for ProductImage {
    fn from(record: ProductImageRecord) -> (ret: Self) {
        ProductImage { url: record.url, prohibited_content: record.prohibited_content.into() }
    }
}

impl FromSpecImpl<ProductImageRecord> for ProductImage {
    open spec fn obeys_from_spec() -> bool {
        true
    }

    open spec fn from_spec(record: ProductImageRecord) -> Self {
        image_of_record(record)
    }
}

/// The stored forms of the images, in order.
pub fn image_records_of(images: &Vec<ProductImage>) -> (records: Vec<ProductImageRecord>)
    ensures
        records@ == images@.map_values(|image: ProductImage| image_record_of(image)),
{
    let mut records: Vec<ProductImageRecord> = Vec::new();
    let n = images.len();
    for i in 0..n
        invariant
            n == images@.len(),
            records@ == images@.take(i as int).map_values(|image: ProductImage| image_record_of(image)),
    {
        let image = &images[i];
        let record = ProductImageRecord {
            url: image.url.clone(),
            prohibited_content: image.prohibited_content.into(),
        };
        records.push(record);
        assert(images@.take(i + 1) =~= images@.take(i as int).push(images@[i as int]));
    }
    assert(images@.take(n as int) =~= images@);
    records
}

/// The images the stored images stand for, as an insertion-ordered set: an image
/// that repeats an earlier one is dropped.
pub fn images_of_records(records: &Vec<ProductImageRecord>) -> (images: ImageSet)
    ensures
        images@ == dedup_images(records@.map_values(|record: ProductImageRecord| image_of_record(record))),
{
    let mut all: Vec<ProductImage> = Vec::new();
    let n = records.len();
    for i in 0..n
        invariant
            n == records@.len(),
            all@ == records@.take(i as int).map_values(|record: ProductImageRecord| image_of_record(record)),
    {
        let record = &records[i];
        all.push(ProductImage { url: record.url.clone(), prohibited_content: record.prohibited_content.into() });
        assert(records@.take(i + 1) =~= records@.take(i as int).push(records@[i as int]));
    }
    assert(records@.take(n as int) =~= records@);
    ImageSet::from_images(all)
}

/// The key under which an image is kept in a set of image keys.
pub open spec fn image_set_key(image: ProductImage) -> (Seq<char>, u8) {
    (image.url@, prohibited_code(image.prohibited_content))
}

/// The images in order, an image that repeats an earlier one dropped: what collecting
/// them into an insertion-ordered set keeps.
pub fn dedup_image_list(images: Vec<ProductImage>) -> (kept: Vec<ProductImage>)
    ensures
        kept@ == dedup_images(images@),
{
    let ghost all = images@;
    let mut kept: Vec<ProductImage> = Vec::new();
    let mut seen = new_image_key_set();
    let n = images.len();
    for i in 0..n
        invariant
            n == all.len(),
            all == images@,
            kept@ == dedup_images(all.take(i as int)),
            image_key_set_items(seen) == kept@.map_values(|image: ProductImage| image_set_key(image)),
    {
        let image = &images[i];
        let ghost keys = image_key_set_items(seen);
        let inserted = insert_image_key(&mut seen, image.url.clone(), prohibited_content_code(image.prohibited_content));
        proof {
            let found = exists|k: int| 0 <= k < kept@.len() && image_key(#[trigger] kept@[k]) == image_key(*image);
            if found {
                let k = choose|k: int| 0 <= k < kept@.len() && image_key(#[trigger] kept@[k]) == image_key(*image);
                assert(keys[k] == image_set_key(kept@[k]));
                assert(keys.contains((image.url@, prohibited_code(image.prohibited_content))));
            } else {
                if keys.contains((image.url@, prohibited_code(image.prohibited_content))) {
                    let k = choose|k: int| 0 <= k < keys.len() && keys[k] == (image.url@, prohibited_code(image.prohibited_content));
                    assert(keys[k] == image_set_key(kept@[k]));
                    lemma_prohibited_code_injective(kept@[k].prohibited_content, image.prohibited_content);
                    assert(image_key(kept@[k]) == image_key(*image));
                }
            }
            assert(inserted == !found);
            assert(all.take(i + 1).drop_last() =~= all.take(i as int));
            assert(all.take(i + 1).last() == *image);
        }
        if inserted {
            kept.push(ProductImage { url: image.url.clone(), prohibited_content: image.prohibited_content });
            proof {
                assert(image_key_set_items(seen) =~= kept@.map_values(|image: ProductImage| image_set_key(image)));
            }
        }
    }
    assert(all.take(n as int) =~= all);
    kept
}

/// Storing distinct images and reading them back gives the same images.
pub proof fn lemma_images_round_trip(images: Seq<ProductImage>)
    requires
        images_distinct(images),
    ensures
        dedup_images(
            images.map_values(|image: ProductImage| image_record_of(image)).map_values(
                |record: ProductImageRecord| image_of_record(record),
            ),
        ) == images,
{
    let back = images.map_values(|image: ProductImage| image_record_of(image)).map_values(
        |record: ProductImageRecord| image_of_record(record),
    );
    assert forall|k: int| 0 <= k < images.len() implies #[trigger] back[k] == images[k] by {
        crate::dynamodb::prohibited_content_record::lemma_prohibited_content_record_round_trip(
            images[k].prohibited_content,
            ProhibitedContentRecord::Unknown,
        );
    }
    assert(back =~= images);
    lemma_dedup_distinct_images(images);
}

/// A copy of a list of stored images.
pub fn duplicate_image_records(records: &Vec<ProductImageRecord>) -> (copy: Vec<ProductImageRecord>)
    ensures
        copy@ == records@,
{
    let mut copy: Vec<ProductImageRecord> = Vec::new();
    let n = records.len();
    for i in 0..n
        invariant
            n == records@.len(),
            copy@ == records@.take(i as int),
    {
        let record = &records[i];
        copy.push(ProductImageRecord { url: record.url.clone(), prohibited_content: record.prohibited_content });
        assert(records@.take(i + 1) =~= records@.take(i as int).push(records@[i as int]));
    }
    assert(records@.take(n as int) =~= records@);
    copy
}

} // verus!
