//! The synced-document cache: the live text of every editor-open document,
//! mutated exclusively by the document-sync requests.

use std::collections::HashMap;

use vstd::prelude::*;

verus! {

broadcast use vstd::std_specs::hash::group_hash_axioms;

/// An interned document identity (the document's URI).
pub type DocumentUri = u64;

/// Editor-open documents and their live text.
pub type GraphQLSourceCache = HashMap<DocumentUri, String>;

/// Upserts the document's current text on open.
pub fn on_did_open_text_document(
    uri: DocumentUri,
    text: String,
    cache: &mut GraphQLSourceCache,
)
    ensures
        final(cache)@ == old(cache)@.insert(uri, text),
{
    cache.insert(uri, text);
}

/// Upserts the document's current text on change.
pub fn on_did_change_text_document(
    uri: DocumentUri,
    text: String,
    cache: &mut GraphQLSourceCache,
)
    ensures
        final(cache)@ == old(cache)@.insert(uri, text),
{
    cache.insert(uri, text);
}

/// Removes the document on close.
pub fn on_did_close_text_document(uri: DocumentUri, cache: &mut GraphQLSourceCache)
    ensures
        final(cache)@ == old(cache)@.remove(uri),
{
    cache.remove(&uri);
}

/// Opening a document and then closing it leaves the cache without the
/// document, exactly as if it had never been opened; a lookup after the
/// close finds nothing.
pub proof fn lemma_open_then_close_forgets_document(
    docs: Map<DocumentUri, String>,
    uri: DocumentUri,
    text: String,
)
    ensures
        docs.insert(uri, text).remove(uri) == docs.remove(uri),
        !docs.insert(uri, text).remove(uri).contains_key(uri),
{
    assert(docs.insert(uri, text).remove(uri) =~= docs.remove(uri));
}

} // verus!
