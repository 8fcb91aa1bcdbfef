//! Entry points: which manifest to read, and searching a parsed manifest or a
//! corpus of parsed work units.
use vstd::prelude::*;
use crate::json::JsonValue;
use crate::json_manifest::{json_manifest_records, search_json_manifest};
use crate::record::{views, Query, RecordView, SearchResult};
use crate::work_unit::{corpus_records, search_work_unit, wu_document_records};
use crate::xml::XmlElement;
use crate::xml_manifest::{search_xml_manifest, xml_manifest_records};

verus! {

/// Why a search could not be carried out.
#[derive(Debug, Clone, Copy, PartialEq, Eq, Structural)]
pub enum SearchError {
    /// The project holds no work-unit file.
    NoWorkUnits,
    /// The bank directory holds neither manifest file.
    NoManifest,
}

/// The encoding of a bank manifest.
#[derive(Debug, Clone, Copy, PartialEq, Eq, Structural)]
pub enum ManifestFormat {
    Json,
    Xml,
}

/// Picks the manifest to read: the JSON one where present, else the XML one.
pub fn choose_manifest(has_json: bool, has_xml: bool) -> (r: Result<ManifestFormat, SearchError>)
    ensures
        r == if has_json {
            Ok(ManifestFormat::Json)
        } else if has_xml {
            Ok(ManifestFormat::Xml)
        } else {
            Err(SearchError::NoManifest)
        },
{
    if has_json {
        Ok(ManifestFormat::Json)
    } else if has_xml {
        Ok(ManifestFormat::Xml)
    } else {
        Err(SearchError::NoManifest)
    }
}

/// A parsed bank manifest.
#[derive(Debug)]
pub enum Manifest {
    Json(JsonValue),
    Xml(XmlElement),
}

/// The records of a parsed manifest.
pub open spec fn manifest_records(m: Manifest, q: Query) -> Seq<RecordView> {
    match m {
        Manifest::Json(v) => json_manifest_records(v, q),
        Manifest::Xml(e) => xml_manifest_records(e, q),
    }
}

/// Searches a parsed bank manifest.
pub fn search_manifest(m: &Manifest, q: &Query) -> (r: Vec<SearchResult>)
    ensures
        views(r@) == manifest_records(*m, *q),
{
    match m {
        Manifest::Json(v) => search_json_manifest(v, q),
        Manifest::Xml(e) => search_xml_manifest(e, q),
    }
}

/// Searches a corpus of work units, one entry per file found; `None` stands
/// for a file that could not be read or parsed, and is skipped. An empty
/// corpus is an error.
pub fn search_corpus(docs: &Vec<Option<XmlElement>>, q: &Query) -> (r: Result<
    Vec<SearchResult>,
    SearchError,
>)
    ensures
        docs@.len() == 0 ==> r == Err::<Vec<SearchResult>, SearchError>(SearchError::NoWorkUnits),
        docs@.len() > 0 ==> (r matches Ok(v) && views(v@) == corpus_records(docs@, *q)),
{
    if docs.len() == 0 {
        return Err(SearchError::NoWorkUnits);
    }
    let mut out: Vec<SearchResult> = Vec::new();
    let mut i: usize = 0;
    while i < docs.len()
        invariant
            i <= docs@.len(),
            views(out@) == corpus_records(docs@.subrange(0, i as int), *q),
        decreases docs.len() - i,
    {
        assert(docs@.subrange(0, i + 1).drop_last() =~= docs@.subrange(0, i as int));
        match &docs[i] {
            Some(d) => {
                let mut found = search_work_unit(d, q);
                let ghost before = out@;
                out.append(&mut found);
                assert(views(out@) =~= views(before) + wu_document_records(*d, *q));
            },
            None => {},
        }
        i += 1;
    }
    assert(docs@.subrange(0, i as int) =~= docs@);
    Ok(out)
}

} // verus!
