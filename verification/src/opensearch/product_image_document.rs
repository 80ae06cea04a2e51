//! Indexed form of a [`ProductImage`].

use crate::domain::{ImageSet, ProductImage};
use crate::dynamodb::product_image_record::{
    dedup_images, image_of_record, images_of_records, ProductImageRecord,
};
use crate::opensearch::prohibited_content_document::{
    prohibited_content_document_of_prohibited_content,
    prohibited_content_document_of_prohibited_content_record,
    prohibited_content_of_prohibited_content_document, ProhibitedContentDocument,
};
use vstd::prelude::*;
use vstd::std_specs::convert::FromSpecImpl;

verus! {

/// An image as indexed in a product document.
#[derive(Debug)]
pub struct ProductImageDocument {
    pub url: String,
    pub prohibited_content: ProhibitedContentDocument,
}

/// The indexed form of an image.
pub open spec fn image_document_of(image: ProductImage) -> ProductImageDocument {
    ProductImageDocument {
        url: image.url,
        prohibited_content: prohibited_content_document_of_prohibited_content(image.prohibited_content),
    }
}

/// The image an indexed image stands for.
pub open spec fn image_of_document(document: ProductImageDocument) -> ProductImage {
    ProductImage {
        url: document.url,
        prohibited_content: prohibited_content_of_prohibited_content_document(document.prohibited_content),
    }
}

/// The indexed form of a stored image.
pub open spec fn image_document_of_record(record: ProductImageRecord) -> ProductImageDocument {
    ProductImageDocument {
        url: record.url,
        prohibited_content: prohibited_content_document_of_prohibited_content_record(record.prohibited_content),
    }
}

impl From<ProductImage> for ProductImageDocument {
    fn from(image: ProductImage) -> (ret: Self) {
        ProductImageDocument { url: image.url, prohibited_content: image.prohibited_content.into() }
    }
}

impl FromSpecImpl<ProductImage> for ProductImageDocument {
    open spec fn obeys_from_spec() -> bool {
        true
    }

    open spec fn from_spec(image: ProductImage) -> Self {
        image_document_of(image)
    }
}

impl From<ProductImageDocument> for ProductImage {
    fn from(document: ProductImageDocument) -> (ret: Self) {
        ProductImage { url: document.url, prohibited_content: document.prohibited_content.into() }
    }
}

impl FromSpecImpl<ProductImageDocument> for ProductImage {
    open spec fn obeys_from_spec() -> bool {
        true
    }

    open spec fn from_spec(document: ProductImageDocument) -> Self {
        image_of_document(document)
    }
}

impl From<ProductImageRecord> for ProductImageDocument {
    fn from(record: ProductImageRecord) -> (ret: Self) {
        ProductImageDocument { url: record.url, prohibited_content: record.prohibited_content.into() }
    }
}

impl FromSpecImpl<ProductImageRecord> for ProductImageDocument {
    open spec fn obeys_from_spec() -> bool {
        true
    }

    open spec fn from_spec(record: ProductImageRecord) -> Self {
        image_document_of_record(record)
    }
}

/// The indexed images of a list of images, in order.
pub fn image_documents_of(images: Vec<ProductImage>) -> (documents: Vec<ProductImageDocument>)
    ensures
        documents@ == images@.map_values(|image: ProductImage| image_document_of(image)),
{
    let mut documents: Vec<ProductImageDocument> = Vec::new();
    let n = images.len();
    let mut rest = images;
    let ghost all = rest@;
    let mut i: usize = 0;
    while i < n
        invariant
            n == all.len(),
            i <= n,
            rest@ == all.subrange(i as int, n as int),
            documents@ == all.take(i as int).map_values(|image: ProductImage| image_document_of(image)),
        decreases n - i,
    {
        let image = rest.remove(0);
        assert(image == all[i as int]);
        documents.push(ProductImageDocument::from(image));
        assert(all.take(i + 1) =~= all.take(i as int).push(all[i as int]));
        assert(rest@ =~= all.subrange(i + 1, n as int));
        i = i + 1;
    }
    assert(all.take(n as int) =~= all);
    documents
}

/// The stored images as indexed images, as an insertion-ordered set: an image that
/// repeats an earlier one is dropped.
pub fn image_documents_of_records(records: &Vec<ProductImageRecord>) -> (documents: Vec<ProductImageDocument>)
    ensures
        documents@ == dedup_images(records@.map_values(|record: ProductImageRecord| image_of_record(record)))
            .map_values(|image: ProductImage| image_document_of(image)),
{
    image_documents_of(images_of_records(records).into_vec())
}

/// The indexed images of a list of stored images, in order.
pub fn image_documents_of_record_list(records: &Vec<ProductImageRecord>) -> (documents: Vec<ProductImageDocument>)
    ensures
        documents@ == records@.map_values(|record: ProductImageRecord| image_document_of_record(record)),
{
    let mut documents: Vec<ProductImageDocument> = Vec::new();
    let n = records.len();
    for i in 0..n
        invariant
            n == records@.len(),
            documents@ == records@.take(i as int).map_values(|record: ProductImageRecord| image_document_of_record(record)),
    {
        let record = &records[i];
        documents.push(ProductImageDocument { url: record.url.clone(), prohibited_content: record.prohibited_content.into() });
        assert(records@.take(i + 1) =~= records@.take(i as int).push(records@[i as int]));
    }
    assert(records@.take(n as int) =~= records@);
    documents
}

/// The images that indexed images stand for, as an insertion-ordered set: an image
/// that repeats an earlier one is dropped.
pub fn images_of_documents(documents: Vec<ProductImageDocument>) -> (images: ImageSet)
    ensures
        images@ == dedup_images(documents@.map_values(|document: ProductImageDocument| image_of_document(document))),
{
    let ghost all = documents@;
    let mut mapped: Vec<ProductImage> = Vec::new();
    let mut rest = documents;
    let n = rest.len();
    let mut i: usize = 0;
    while i < n
        invariant
            n == all.len(),
            i <= n,
            rest@ == all.subrange(i as int, n as int),
            mapped@ == all.take(i as int).map_values(|document: ProductImageDocument| image_of_document(document)),
        decreases n - i,
    {
        let document = rest.remove(0);
        assert(document == all[i as int]);
        mapped.push(ProductImage::from(document));
        assert(all.take(i + 1) =~= all.take(i as int).push(all[i as int]));
        assert(rest@ =~= all.subrange(i + 1, n as int));
        i = i + 1;
    }
    assert(all.take(n as int) =~= all);
    ImageSet::from_images(mapped)
}

} // verus!
