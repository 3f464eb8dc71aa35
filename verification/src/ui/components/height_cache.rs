//! The rows that each item of a list takes, computed once and remembered by
//! the key of the item.

use super::post::types::PostViewData;
use super::post_list::{post_height, PostListBase};
use vstd::hash_map::StringHashMap;
use vstd::prelude::*;

verus! {

/// The remembered height of the item `uri`, or `default` where none is
/// remembered.
pub open spec fn rows_or(cached: Map<Seq<char>, u16>, uri: Seq<char>, default: u16) -> u16 {
    if cached.contains_key(uri) {
        cached[uri]
    } else {
        default
    }
}

/// The height of each item of a list, by the key of the item: the remembered
/// one, or `default`.
pub open spec fn item_rows(uris: Seq<Seq<char>>, cached: Map<Seq<char>, u16>, default: u16) -> Seq<
    u16,
> {
    Seq::new(uris.len(), |i: int| rows_or(cached, uris[i], default))
}

/// Heights of items by their keys. An entry is made once and stays as it is,
/// whatever the width of the viewport becomes later.
pub struct HeightCache {
    heights: StringHashMap<u16>,
}

impl View for HeightCache {
    type V = Map<Seq<char>, u16>;

    closed spec fn view(&self) -> Map<Seq<char>, u16> {
        self.heights@
    }
}

impl HeightCache {
    pub fn new() -> (cache: Self)
        ensures
            cache@ == Map::<Seq<char>, u16>::empty(),
    {
        Self { heights: StringHashMap::new() }
    }

    /// The remembered height of the item `uri`.
    pub fn get(&self, uri: &str) -> (rows: Option<u16>)
        ensures
            rows == if self@.contains_key(uri@) {
                Some(self@[uri@])
            } else {
                None
            },
    {
        match self.heights.get(uri) {
            Some(rows) => Some(*rows),
            None => None,
        }
    }

    /// Whether a height is remembered for the item `uri`.
    pub fn contains(&self, uri: &str) -> (known: bool)
        ensures
            known == self@.contains_key(uri@),
    {
        self.heights.contains_key(uri)
    }

    /// Remembers `rows` as the height of the item `uri`, in place of what was
    /// remembered for it before.
    pub fn insert(&mut self, uri: String, rows: u16)
        ensures
            final(self)@ == old(self)@.insert(uri@, rows),
    {
        self.heights.insert(uri, rows);
    }

    /// Forgets the height of the item `uri`, so that it is computed anew when
    /// it is asked for next.
    pub fn remove(&mut self, uri: &str)
        ensures
            final(self)@ == old(self)@.remove(uri@),
    {
        self.heights.remove(uri);
    }

    /// The remembered height of the item `uri`, or `default`.
    pub fn height_or(&self, uri: &str, default: u16) -> (rows: u16)
        ensures
            rows == rows_or(self@, uri@, default),
    {
        match self.heights.get(uri) {
            Some(rows) => *rows,
            None => default,
        }
    }

    /// The height of `post` in a viewport `viewport_width` columns wide. It is
    /// computed when it is first asked for and remembered under the key of the
    /// post; every later call returns what is remembered and changes nothing,
    /// whatever the width.
    pub fn height_of(&mut self, post: &PostViewData, viewport_width: u16) -> (rows: u16)
        ensures
            old(self)@.contains_key(post.uri@) ==> rows == old(self)@[post.uri@] && final(self)@
                == old(self)@,
            !old(self)@.contains_key(post.uri@) ==> rows == post_height(post, viewport_width)
                && final(self)@ == old(self)@.insert(post.uri@, rows),
            final(self)@.contains_key(post.uri@),
            final(self)@[post.uri@] == rows,
    {
        match self.heights.get(post.uri.as_str()) {
            Some(rows) => *rows,
            None => {
                let rows = PostListBase::calculate_post_height(post, viewport_width);
                self.heights.insert(post.uri.clone(), rows);
                rows
            },
        }
    }
}

} // verus!
