//! Paginated browsing: one page of a directory per call, with the
//! continuation tokens that the backend hands out remembered between calls.

use crate::cloudreve::list_files::{
    continuation,
    effective_uri,
    listing_request,
    read_listing,
    sent_listing,
    ListError,
    ListErrorView,
};
use crate::cloudreve::request::{outcome_view, ApiRequest, RequestError, RequestErrorView};
use crate::cloudreve::{text_or, CloudreveClient};
use crate::json::{values_of, Json, JsonValue};
use vstd::prelude::*;

verus! {

/// The key of a remembered token: a path and the index of the page that
/// the token fetches.
pub type PageKey = (Seq<char>, u32);

struct CachedToken {
    path: String,
    page: u32,
    token: String,
}

/// The continuation tokens known so far, at most one for each path and
/// page, none of them empty.
pub struct PageTokenCache {
    entries: Vec<CachedToken>,
}

spec fn key_at(e: Seq<CachedToken>, i: int) -> PageKey {
    (e[i].path@, e[i].page)
}

/// The token of the first entry for `key` at or after `start`.
spec fn token_from(e: Seq<CachedToken>, key: PageKey, start: int) -> Option<Seq<char>>
    decreases e.len() - start,
{
    if start < 0 || start >= e.len() {
        None
    } else if key_at(e, start) == key {
        Some(e[start].token@)
    } else {
        token_from(e, key, start + 1)
    }
}

spec fn distinct_keys(e: Seq<CachedToken>) -> bool {
    forall|a: int, b: int| 0 <= a < b < e.len() ==> key_at(e, a) != key_at(e, b)
}

spec fn tokens_given(e: Seq<CachedToken>) -> bool {
    forall|a: int| 0 <= a < e.len() ==> (#[trigger] e[a]).token@.len() > 0
}

/// A key that no entry from `start` on has is not found from there.
proof fn lemma_absent(e: Seq<CachedToken>, key: PageKey, start: int)
    requires
        0 <= start,
        forall|j: int| start <= j < e.len() ==> key_at(e, j) != key,
    ensures
        token_from(e, key, start) is None,
    decreases e.len() - start,
{
    if start < e.len() {
        lemma_absent(e, key, start + 1);
    }
}

/// The key of an entry from `start` on is found from there.
proof fn lemma_present(e: Seq<CachedToken>, key: PageKey, start: int, j: int)
    requires
        0 <= start <= j < e.len(),
        key_at(e, j) == key,
    ensures
        token_from(e, key, start) is Some,
    decreases e.len() - start,
{
    if key_at(e, start) != key {
        lemma_present(e, key, start + 1, j);
    }
}

/// The keys of the entries, in order.
spec fn keys_of(e: Seq<CachedToken>) -> Seq<PageKey> {
    Seq::new(e.len(), |i: int| key_at(e, i))
}

/// Whatever is found is the token of some entry.
proof fn lemma_found_is_entry(e: Seq<CachedToken>, key: PageKey, start: int)
    requires
        0 <= start,
        token_from(e, key, start) is Some,
    ensures
        exists|j: int| start <= j < e.len() && e[j].token@ == token_from(e, key, start)->0,
    decreases e.len() - start,
{
    if key_at(e, start) != key {
        lemma_found_is_entry(e, key, start + 1);
    }
}

/// Replacing the token of entry `i` changes what is found for its key and
/// for no other.
proof fn lemma_replaced(
    e: Seq<CachedToken>,
    after: Seq<CachedToken>,
    i: int,
    key: PageKey,
    start: int,
)
    requires
        0 <= start,
        0 <= i < e.len(),
        after.len() == e.len(),
        distinct_keys(e),
        forall|j: int| 0 <= j < e.len() ==> key_at(after, j) == key_at(e, j),
        forall|j: int| 0 <= j < e.len() && j != i ==> after[j].token@ == e[j].token@,
    ensures
        token_from(after, key, start) == if key == key_at(e, i) && start <= i {
            Some(after[i].token@)
        } else {
            token_from(e, key, start)
        },
    decreases e.len() - start,
{
    if start < e.len() {
        lemma_replaced(e, after, i, key, start + 1);
    }
}

/// Adding an entry for a key that had none changes what is found for that
/// key and for no other.
proof fn lemma_added(e: Seq<CachedToken>, added: CachedToken, key: PageKey, start: int)
    requires
        0 <= start <= e.len(),
        forall|j: int| 0 <= j < e.len() ==> key_at(e, j) != (added.path@, added.page),
    ensures
        token_from(e.push(added), key, start) == if key == (added.path@, added.page) {
            Some(added.token@)
        } else {
            token_from(e, key, start)
        },
    decreases e.len() - start,
{
    let after = e.push(added);
    if start < e.len() {
        lemma_added(e, added, key, start + 1);
    } else {
        assert(token_from(after, key, start + 1) is None);
    }
}

impl View for PageTokenCache {
    type V = Map<PageKey, Seq<char>>;

    closed spec fn view(&self) -> Map<PageKey, Seq<char>> {
        Map::new(
            |k: PageKey| token_from(self.entries@, k, 0) is Some,
            |k: PageKey| token_from(self.entries@, k, 0)->0,
        )
    }
}

impl PageTokenCache {
    /// The cache's invariant: no key is held twice and no token is empty.
    pub closed spec fn wf(&self) -> bool {
        distinct_keys(self.entries@) && tokens_given(self.entries@)
    }

    /// No token in a well-formed cache is empty.
    pub proof fn lemma_tokens_given(&self, key: PageKey)
        requires
            self.wf(),
            self@.contains_key(key),
        ensures
            self@[key].len() > 0,
    {
        lemma_found_is_entry(self.entries@, key, 0);
    }

    /// A cache that knows no token.
    pub fn new() -> (r: Self)
        ensures
            r.wf(),
            r@ == Map::<PageKey, Seq<char>>::empty(),
    {
        let r = PageTokenCache { entries: Vec::new() };
        r
    }

    /// The keys of a well-formed cache are as many as its entries.
    proof fn lemma_count(&self)
        requires
            self.wf(),
        ensures
            self@.dom().finite(),
            self@.len() == self.entries@.len(),
    {
        let e = self.entries@;
        let keys = keys_of(e);
        assert forall|k: PageKey| self@.dom().contains(k) <==> keys.to_set().contains(k) by {
            if self@.dom().contains(k) {
                if !keys.contains(k) {
                    assert forall|j: int| 0 <= j < e.len() implies key_at(e, j) != k by {
                        assert(keys[j] == key_at(e, j));
                    }
                    lemma_absent(e, k, 0);
                }
            }
            if keys.contains(k) {
                let j = choose|j: int| 0 <= j < keys.len() && keys[j] == k;
                lemma_present(e, k, 0, j);
            }
        }
        assert(self@.dom() =~= keys.to_set());
        vstd::seq_lib::seq_to_set_is_finite(keys);
        keys.unique_seq_to_set();
    }

    /// The number of tokens held.
    pub fn len(&self) -> (r: usize)
        requires
            self.wf(),
        ensures
            self@.dom().finite(),
            r == self@.len(),
    {
        proof {
            self.lemma_count();
        }
        self.entries.len()
    }

    /// The token that fetches page `page` of `path`, where one is known.
    pub fn get(&self, path: &str, page: u32) -> (r: Option<&str>)
        ensures
            r matches Some(t) ==> self@.contains_key((path@, page)) && self@[(path@, page)] == t@,
            r is None ==> !self@.contains_key((path@, page)),
    {
        let ghost key = (path@, page);
        let mut i: usize = 0;
        while i < self.entries.len()
            invariant
                i <= self.entries.len(),
                key == (path@, page),
                token_from(self.entries@, key, 0) == token_from(self.entries@, key, i as int),
            decreases self.entries.len() - i,
        {
            if self.entries[i].page == page && self.entries[i].path.as_str().eq(path) {
                return Some(self.entries[i].token.as_str());
            }
            i += 1;
        }
        None
    }

    /// Remembers `token` as the one that fetches page `page` of `path`,
    /// in place of any held before. An empty token is none: it changes
    /// nothing.
    pub fn insert(&mut self, path: &str, page: u32, token: &str)
        requires
            old(self).wf(),
        ensures
            final(self).wf(),
            final(self)@ == if token@.len() == 0 {
                old(self)@
            } else {
                old(self)@.insert((path@, page), token@)
            },
    {
        if token.is_empty() {
            return ;
        }
        let ghost key = (path@, page);
        let ghost before = self.entries@;
        let mut i: usize = 0;
        while i < self.entries.len()
            invariant
                i <= self.entries.len(),
                key == (path@, page),
                self.entries@ == before,
                before == old(self).entries@,
                distinct_keys(before),
                tokens_given(before),
                token@.len() > 0,
                forall|j: int| 0 <= j < i ==> key_at(before, j) != key,
            decreases self.entries.len() - i,
        {
            if self.entries[i].page == page && self.entries[i].path.as_str().eq(path) {
                let fresh = CachedToken {
                    path: String::from_str(path),
                    page,
                    token: String::from_str(token),
                };
                self.entries.set(i, fresh);
                proof {
                    let after = self.entries@;
                    assert forall|k: PageKey|
                        token_from(after, k, 0) == (if k == key {
                            Some(token@)
                        } else {
                            token_from(before, k, 0)
                        }) by {
                        lemma_replaced(before, after, i as int, k, 0);
                    }
                    assert(distinct_keys(after)) by {
                        assert forall|a: int, b: int| 0 <= a < b < after.len() implies key_at(
                            after,
                            a,
                        ) != key_at(after, b) by {
                            assert(key_at(after, a) == key_at(before, a));
                            assert(key_at(after, b) == key_at(before, b));
                        }
                    }
                }
                return ;
            }
            i += 1;
        }
        let fresh = CachedToken {
            path: String::from_str(path),
            page,
            token: String::from_str(token),
        };
        self.entries.push(fresh);
        proof {
            let after = self.entries@;
            assert forall|k: PageKey|
                token_from(after, k, 0) == (if k == key {
                    Some(token@)
                } else {
                    token_from(before, k, 0)
                }) by {
                lemma_added(before, fresh, k, 0);
            }
            assert(distinct_keys(after)) by {
                assert forall|a: int, b: int| 0 <= a < b < after.len() implies key_at(after, a)
                    != key_at(after, b) by {
                    assert(key_at(after, a) == key_at(before, a));
                    if b < before.len() {
                        assert(key_at(after, b) == key_at(before, b));
                    } else {
                        assert(key_at(after, b) == key);
                    }
                }
            }
        }
    }
}

/// What an entry of a listing is.
#[derive(Clone, Copy, Debug, PartialEq, Eq, Structural)]
pub enum FileKind {
    File,
    Directory,
}

/// One entry of a listing.
#[derive(Debug, PartialEq)]
pub struct FileEntry {
    pub name: String,
    pub kind: FileKind,
    pub path: String,
}

/// The mathematical value of a [`FileEntry`].
pub struct FileEntryView {
    pub name: Seq<char>,
    pub kind: FileKind,
    pub path: Seq<char>,
}

impl View for FileEntry {
    type V = FileEntryView;

    open spec fn view(&self) -> FileEntryView {
        FileEntryView { name: self.name@, kind: self.kind, path: self.path@ }
    }
}

/// The values of a run of entries.
pub open spec fn entries_view(entries: Seq<FileEntry>) -> Seq<FileEntryView> {
    Seq::new(entries.len(), |i: int| entries[i]@)
}

/// The name of an entry that gives none.
pub open spec fn unnamed() -> Seq<char> {
    "Unknown"@
}

/// The entry that a record of a listing stands for. The type `1` marks a
/// directory; a record without a name is called `Unknown`, and one without
/// a path goes by its name.
pub open spec fn entry_of(item: JsonValue) -> FileEntryView {
    let name = text_or(item.text_member("name"@), unnamed());
    FileEntryView {
        name,
        kind: match item.member("type"@) {
            Some(t) => if t.signed() == Some(1i64) {
                FileKind::Directory
            } else {
                FileKind::File
            },
            None => FileKind::File,
        },
        path: text_or(item.text_member("path"@), name),
    }
}

/// The entries that a run of records stands for.
pub open spec fn entries_of(items: Seq<JsonValue>) -> Seq<FileEntryView> {
    Seq::new(items.len(), |i: int| entry_of(items[i]))
}

/// The records of a listing payload: the array `files`, or the payload
/// itself where it is an array and has no such member.
pub open spec fn listed_items(data: JsonValue) -> Option<Seq<JsonValue>> {
    match data.member("files"@) {
        Some(JsonValue::Array(a)) => Some(a),
        _ => data.items(),
    }
}

/// The token to ask page `page` of `path` with: none for the first page,
/// and none where the cache knows none.
pub open spec fn request_token(cache: Map<PageKey, Seq<char>>, path: Seq<char>, page: u32) -> Seq<
    char,
> {
    if page != 0 && cache.contains_key((path, page)) {
        cache[(path, page)]
    } else {
        Seq::empty()
    }
}

/// The cache after page `page` of `path` was answered: a non-empty
/// continuation token in the payload is remembered for the next page.
pub open spec fn cache_after(
    cache: Map<PageKey, Seq<char>>,
    path: Seq<char>,
    page: u32,
    outcome: Result<JsonValue, RequestErrorView>,
) -> Map<PageKey, Seq<char>> {
    match outcome {
        Ok(data) => match continuation(data) {
            Some(t) => if t.len() > 0 && page < u32::MAX {
                cache.insert((path, (page + 1) as u32), t)
            } else {
                cache
            },
            None => cache,
        },
        Err(_) => cache,
    }
}

/// The page that a listing exchange settled as `outcome` shows: its
/// entries, and whether more may follow. More may follow when the payload
/// carries a continuation token or the page is full.
pub open spec fn listed(outcome: Result<JsonValue, RequestErrorView>, page_size: u32) -> Result<
    (Seq<FileEntryView>, bool),
    ListErrorView,
> {
    match sent_listing(outcome) {
        Ok((data, token)) => match listed_items(data) {
            Some(items) => Ok((entries_of(items), token is Some || items.len() == page_size)),
            None => Err(ListErrorView::Malformed),
        },
        Err(e) => Err(e),
    }
}

/// The value of a page or the error in its place.
pub open spec fn listed_view(r: Result<(Vec<FileEntry>, bool), ListError>) -> Result<
    (Seq<FileEntryView>, bool),
    ListErrorView,
> {
    match r {
        Ok((entries, more)) => Ok((entries_view(entries@), more)),
        Err(e) => Err(e@),
    }
}

/// An empty directory is a page without entries after which nothing
/// follows, and no error.
pub proof fn lemma_empty_directory(data: JsonValue, page_size: u32)
    requires
        listed_items(data) == Some(Seq::<JsonValue>::empty()),
        continuation(data) is None,
        page_size > 0,
    ensures
        listed(Ok(data), page_size) == Ok::<(Seq<FileEntryView>, bool), ListErrorView>(
            (Seq::empty(), false),
        ),
{
    assert(entries_of(Seq::<JsonValue>::empty()) =~= Seq::<FileEntryView>::empty());
}

/// A continuation token that came with one page is the token that the
/// next page of the same path is asked with.
pub proof fn lemma_next_page_uses_token(
    cache: Map<PageKey, Seq<char>>,
    path: Seq<char>,
    page: u32,
    data: JsonValue,
    token: Seq<char>,
)
    requires
        page < u32::MAX,
        continuation(data) == Some(token),
        token.len() > 0,
    ensures
        request_token(cache_after(cache, path, page, Ok(data)), path, (page + 1) as u32) == token,
{
}

/// A failed exchange teaches the cache nothing.
pub proof fn lemma_failure_keeps_cache(
    cache: Map<PageKey, Seq<char>>,
    path: Seq<char>,
    page: u32,
    e: RequestErrorView,
)
    ensures
        cache_after(cache, path, page, Err(e)) == cache,
{
}

/// The entry that a record of a listing stands for.
pub fn read_entry(item: &Json) -> (r: FileEntry)
    ensures
        r@ == entry_of(item@),
{
    let name = match item.get_str("name") {
        Some(n) => String::from_str(n),
        None => String::from_str("Unknown"),
    };
    let kind = match item.get("type") {
        Some(t) => match t.as_i64() {
            Some(1) => FileKind::Directory,
            _ => FileKind::File,
        },
        None => FileKind::File,
    };
    let path = match item.get_str("path") {
        Some(p) => String::from_str(p),
        None => name.clone(),
    };
    FileEntry { name, kind, path }
}

/// The records of a listing payload.
pub fn records(data: &Json) -> (r: Option<&Vec<Json>>)
    ensures
        r matches Some(a) ==> listed_items(data@) == Some(values_of(a@)),
        r is None ==> listed_items(data@) is None,
{
    match data.get("files") {
        Some(files) => match files.as_array() {
            Some(a) => Some(a),
            None => data.as_array(),
        },
        None => data.as_array(),
    }
}

/// The request for page `page_index` of `path`, with the token that the
/// cache holds for that page.
pub fn list_request(
    client: &CloudreveClient,
    cache: &PageTokenCache,
    path: &str,
    page_index: u32,
    page_size: u32,
    base_path: Option<&str>,
) -> (r: ApiRequest)
    ensures
        r@ == listing_request(
            client@,
            effective_uri(
                path@,
                match base_path {
                    Some(c) => Some(c@),
                    None => None,
                },
            ),
            page_index,
            page_size,
            request_token(cache@, path@, page_index),
        ),
{
    proof {
        reveal_strlit("");
    }
    let known = if page_index > 0 {
        cache.get(path, page_index)
    } else {
        None
    };
    let token = match known {
        Some(t) => t,
        None => "",
    };
    assert(token@ =~= request_token(cache@, path@, page_index));
    client.list_files().uri(path).page(page_index).page_size(page_size).next_page_token(
        token,
    ).request(base_path)
}

/// Settles the exchange for page `page_index` of `path` from its decoded
/// reply.
///
/// A non-empty continuation token in the payload is remembered for the
/// next page before anything else is looked at. The page's entries are
/// read from the payload's records; a payload without records is
/// malformed.
pub fn list(
    cache: &mut PageTokenCache,
    path: &str,
    page_index: u32,
    page_size: u32,
    outcome: Result<Json, RequestError>,
) -> (r: Result<(Vec<FileEntry>, bool), ListError>)
    requires
        old(cache).wf(),
    ensures
        final(cache).wf(),
        final(cache)@ == cache_after(old(cache)@, path@, page_index, outcome_view(outcome)),
        listed_view(r) == listed(outcome_view(outcome), page_size),
{
    match read_listing(outcome) {
        Ok((data, token)) => {
            match &token {
                Some(t) => {
                    if page_index < u32::MAX {
                        cache.insert(path, page_index + 1, t.as_str());
                    }
                },
                None => {},
            }
            match records(&data) {
                Some(items) => {
                    let mut entries: Vec<FileEntry> = Vec::new();
                    let mut i: usize = 0;
                    while i < items.len()
                        invariant
                            i <= items.len(),
                            entries@.len() == i,
                            forall|k: int| 0 <= k < i ==> entries@[k]@ == entry_of(items@[k]@),
                        decreases items.len() - i,
                    {
                        entries.push(read_entry(&items[i]));
                        i += 1;
                    }
                    assert(entries_view(entries@) =~= entries_of(values_of(items@)));
                    let more = token.is_some() || items.len() == page_size as usize;
                    Ok((entries, more))
                },
                None => Err(ListError::Malformed),
            }
        },
        Err(e) => Err(e),
    }
}

} // verus!
