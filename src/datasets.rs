use vstd::prelude::*;

verus! {

/// Opaque JSON document carried through the library untouched (demo entries).
#[verifier::external_type_specification]
#[verifier::external_body]
pub struct ExJsonValue(serde_json::Value);

/// The metadata block of a pack descriptor.
pub struct DatasetMetadata {
    pub id: String,
    pub title: String,
    pub description: String,
    pub author: String,
    pub updated_at: String,
    pub version: String,
}

/// The content-type block of a pack descriptor.
pub struct ContentType {
    pub name: String,
    pub slug: String,
    pub shape: String,
    pub file_type: String,
    pub description: String,
    pub cover: Option<String>,
    pub icon: Option<String>,
    pub order: Option<i32>,
    pub pinned: i32,
    pub docked: i32,
    pub locked: i32,
}

/// A category record of a pack descriptor.
pub struct Category {
    pub content_type_id: String,
    pub name: String,
    pub slug: String,
    pub description: Option<String>,
}

/// A tag record of a pack descriptor.
pub struct Tag {
    pub content_type_id: String,
    pub name: String,
    pub slug: String,
    pub description: Option<String>,
}

/// A metadata-attribute record of a pack descriptor.
pub struct MetadataAttribute {
    pub content_type_id: String,
    pub name: String,
    pub attribute_type: String,
    pub icon: Option<String>,
    pub order: i32,
    pub is_array: i32,
    pub filterable: i32,
    pub sortable: i32,
    pub description: String,
}

/// The full descriptor document of one content pack.
pub struct RawDataset {
    pub metadata: DatasetMetadata,
    pub content_type: ContentType,
    pub categories: Vec<Category>,
    pub tags: Vec<Tag>,
    pub content_metadata_attributes: Vec<MetadataAttribute>,
    pub demo_data: Option<Vec<serde_json::Value>>,
}

/// The compact, cache-resident summary of one pack: the metadata verbatim,
/// the lengths of the nested sequences, the size hint of the response, and
/// the descriptor itself.
pub struct Dataset {
    pub id: String,
    pub title: String,
    pub description: String,
    pub author: String,
    pub updated_at: String,
    pub version: String,
    pub categories_count: usize,
    pub tags_count: usize,
    pub metadata_attributes_count: usize,
    pub demo_data_count: usize,
    pub size: u64,
    pub json: RawDataset,
}

/// Number of demo entries of a descriptor: 0 when the sequence is absent.
pub open spec fn demo_count(raw: RawDataset) -> nat {
    match raw.demo_data {
        Some(d) => d@.len(),
        None => 0,
    }
}

/// `d` is the summary of descriptor `raw` fetched with size hint `size`.
pub open spec fn is_summary_of(d: Dataset, raw: RawDataset, size: u64) -> bool {
    &&& d.id@ == raw.metadata.id@
    &&& d.title@ == raw.metadata.title@
    &&& d.description@ == raw.metadata.description@
    &&& d.author@ == raw.metadata.author@
    &&& d.updated_at@ == raw.metadata.updated_at@
    &&& d.version@ == raw.metadata.version@
    &&& d.categories_count == raw.categories@.len()
    &&& d.tags_count == raw.tags@.len()
    &&& d.metadata_attributes_count == raw.content_metadata_attributes@.len()
    &&& d.demo_data_count == demo_count(raw)
    &&& d.size == size
    &&& d.json == raw
}

/// Normalises a descriptor into its summary; `size` is the response's size hint.
pub fn summarize(raw: RawDataset, size: u64) -> (d: Dataset)
    ensures
        is_summary_of(d, raw, size),
{
    let demo_data_count: usize = match &raw.demo_data {
        Some(d) => d.len(),
        None => 0,
    };
    Dataset {
        id: raw.metadata.id.clone(),
        title: raw.metadata.title.clone(),
        description: raw.metadata.description.clone(),
        author: raw.metadata.author.clone(),
        updated_at: raw.metadata.updated_at.clone(),
        version: raw.metadata.version.clone(),
        categories_count: raw.categories.len(),
        tags_count: raw.tags.len(),
        metadata_attributes_count: raw.content_metadata_attributes.len(),
        demo_data_count,
        size,
        json: raw,
    }
}

} // verus!
