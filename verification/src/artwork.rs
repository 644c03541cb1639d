//! Embedded artwork: the picture chosen from a file's tag, its base64 form,
//! the MIME types written back, and an LRU cache of extracted artwork.
//!
//! Reading and writing tags is done by the caller, which hands the tag's
//! pictures to [`select_artwork`].

use vstd::prelude::*;

use base64::Engine;
use lru::LruCache;

use crate::text::{decimal, str_eq, u64_to_decimal};

verus! {

/// Maximum artwork size (5 MiB).
pub const MAX_ARTWORK_SIZE: usize = 5242880;

/// Artwork data extracted from an audio file.
#[derive(Debug, Clone)]
pub struct ArtworkData {
    /// Raw image bytes
    pub data: Vec<u8>,
    /// MIME type (e.g., "image/jpeg", "image/png")
    pub mime_type: String,
}

/// The 6-bit value's character in the standard base64 alphabet.
pub open spec fn b64_char(v: int) -> char {
    if v < 26 {
        ((65 + v) as u32) as char
    } else if v < 52 {
        ((97 + v - 26) as u32) as char
    } else if v < 62 {
        ((48 + v - 52) as u32) as char
    } else if v == 62 {
        '+'
    } else {
        '/'
    }
}

/// Standard base64 (RFC 4648, with `=` padding) of a byte sequence: each
/// group of three bytes becomes four characters of six bits each; a final
/// group of one or two bytes is padded with `=`.
pub open spec fn base64_standard(d: Seq<u8>) -> Seq<char>
    decreases d.len(),
{
    if d.len() == 0 {
        Seq::empty()
    } else {
        let a = d[0] as int;
        let b = if d.len() > 1 {
            d[1] as int
        } else {
            0
        };
        let c = if d.len() > 2 {
            d[2] as int
        } else {
            0
        };
        if d.len() == 1 {
            seq![b64_char(a / 4), b64_char((a % 4) * 16), '=', '=']
        } else if d.len() == 2 {
            seq![b64_char(a / 4), b64_char((a % 4) * 16 + b / 16), b64_char((b % 16) * 4), '=']
        } else {
            seq![
                b64_char(a / 4),
                b64_char((a % 4) * 16 + b / 16),
                b64_char((b % 16) * 4 + c / 64),
                b64_char(c % 64),
            ] + base64_standard(d.subrange(3, d.len() as int))
        }
    }
}

/// The length of the standard base64 form of `n` bytes.
pub open spec fn base64_len(n: nat) -> nat {
    4 * ((n + 2) / 3)
}

/// `base64::engine::general_purpose::STANDARD.encode`: standard base64
/// with padding. It panics when the encoded length does not fit in `usize`.
#[verifier::external_body]
fn base64_encode(data: &[u8]) -> (r: String)
    requires
        base64_len(data@.len()) <= usize::MAX,
    ensures
        r@ == base64_standard(data@),
{
    base64::engine::general_purpose::STANDARD.encode(data)
}

impl ArtworkData {
    /// Create new artwork data.
    pub fn new(data: Vec<u8>, mime_type: String) -> (r: Self)
        ensures
            r.data == data,
            r.mime_type == mime_type,
    {
        ArtworkData { data, mime_type }
    }

    /// Get the data as a base64-encoded string.
    pub fn to_base64(&self) -> (r: String)
        requires
            base64_len(self.data@.len()) <= usize::MAX,
        ensures
            r@ == base64_standard(self.data@),
    {
        base64_encode(self.data.as_slice())
    }
}

/// Errors that can occur during artwork extraction.
#[derive(Debug)]
pub enum ArtworkError {
    /// File not found (its path)
    FileNotFound(String),
    /// I/O error (its message)
    Io(String),
    /// Metadata could not be read (its message)
    Lofty(String),
    /// No artwork found in file
    NoArtwork,
    /// Artwork too large: its size and the limit, in bytes
    TooLarge(usize, usize),
}

impl ArtworkError {
    /// The message of an error.
    pub open spec fn spec_message(&self) -> Seq<char> {
        match self {
            ArtworkError::FileNotFound(p) => "File not found: "@ + p@,
            ArtworkError::Io(m) => "I/O error: "@ + m@,
            ArtworkError::Lofty(m) => "Metadata error: "@ + m@,
            ArtworkError::NoArtwork => "No artwork found in file"@,
            ArtworkError::TooLarge(size, max) => "Artwork too large: "@ + decimal(*size as nat)
                + " bytes (max "@ + decimal(*max as nat) + " bytes)"@,
        }
    }

    /// The error's message.
    pub fn to_string(&self) -> (r: String)
        ensures
            r@ == self.spec_message(),
    {
        match self {
            ArtworkError::FileNotFound(p) => String::from_str("File not found: ").concat(p.as_str()),
            ArtworkError::Io(m) => String::from_str("I/O error: ").concat(m.as_str()),
            ArtworkError::Lofty(m) => String::from_str("Metadata error: ").concat(m.as_str()),
            ArtworkError::NoArtwork => String::from_str("No artwork found in file"),
            ArtworkError::TooLarge(size, max) => {
                let a = u64_to_decimal(*size as u64);
                let b = u64_to_decimal(*max as u64);
                String::from_str("Artwork too large: ").concat(a.as_str()).concat(
                    " bytes (max ",
                ).concat(b.as_str()).concat(" bytes)")
            },
        }
    }
}

/// One picture of a tag, as the tag reports it.
#[derive(Debug, Clone)]
pub struct PictureInfo {
    /// Whether the picture is the front cover
    pub is_cover_front: bool,
    /// The image bytes
    pub data: Vec<u8>,
    /// The MIME type, if the tag states one
    pub mime_type: Option<String>,
}

/// Index `i` is the picture chosen from a tag's pictures: the first front
/// cover, or the first picture when there is no front cover.
pub open spec fn chosen_picture(pictures: Seq<PictureInfo>, i: int) -> bool {
    &&& 0 <= i < pictures.len()
    &&& if exists|j: int| 0 <= j < pictures.len() && (#[trigger] pictures[j]).is_cover_front {
        pictures[i].is_cover_front && forall|j: int|
            0 <= j < i ==> !(#[trigger] pictures[j]).is_cover_front
    } else {
        i == 0
    }
}

/// The artwork of a tag: none when the file has no tag or the tag has no
/// picture; otherwise the chosen picture, refused when larger than 5 MiB,
/// with its MIME type (`image/jpeg` when the tag states none).
pub fn select_artwork(pictures: Option<Vec<PictureInfo>>) -> (r: Result<
    Option<ArtworkData>,
    ArtworkError,
>)
    ensures
        match pictures {
            None => r matches Ok(None),
            Some(ps) => if ps@.len() == 0 {
                r matches Ok(None)
            } else {
                exists|i: int|
                    #![trigger ps@[i]]
                    chosen_picture(ps@, i) && if ps@[i].data@.len() > MAX_ARTWORK_SIZE {
                        r matches Err(ArtworkError::TooLarge(size, max)) && size == ps@[i].data@.len()
                            && max == MAX_ARTWORK_SIZE
                    } else {
                        r matches Ok(Some(a)) && a.data@ == ps@[i].data@ && a.mime_type@ == match ps@[i].mime_type {
                            Some(m) => m@,
                            None => "image/jpeg"@,
                        }
                    }
            },
        },
{
    let ps = match pictures {
        None => {
            return Ok(None);
        },
        Some(ps) => ps,
    };
    if ps.len() == 0 {
        return Ok(None);
    }
    let mut chosen: usize = 0;
    let mut i: usize = 0;
    let mut found = false;
    while i < ps.len()
        invariant_except_break
            !found,
        invariant
            i <= ps.len(),
            ps.len() > 0,
            forall|j: int| 0 <= j < i ==> !(#[trigger] ps@[j]).is_cover_front,
        ensures
            found ==> chosen < ps.len() && ps@[chosen as int].is_cover_front && forall|j: int|
                0 <= j < chosen ==> !(#[trigger] ps@[j]).is_cover_front,
            !found ==> forall|j: int| 0 <= j < ps.len() ==> !(#[trigger] ps@[j]).is_cover_front,
        decreases ps.len() - i,
    {
        if ps[i].is_cover_front {
            chosen = i;
            found = true;
            break;
        }
        i = i + 1;
    }
    if !found {
        chosen = 0;
    }
    proof {
        assert(chosen_picture(ps@, chosen as int));
    }
    let picture = &ps[chosen];
    let size = picture.data.len();
    if size > MAX_ARTWORK_SIZE {
        return Err(ArtworkError::TooLarge(size, MAX_ARTWORK_SIZE));
    }
    let mime_type = match &picture.mime_type {
        Some(m) => m.clone(),
        None => String::from_str("image/jpeg"),
    };
    let mut data: Vec<u8> = Vec::new();
    let mut k: usize = 0;
    while k < size
        invariant
            k <= size,
            size == picture.data@.len(),
            data@ =~= picture.data@.subrange(0, k as int),
        decreases size - k,
    {
        data.push(picture.data[k]);
        k = k + 1;
    }
    Ok(Some(ArtworkData::new(data, mime_type)))
}

// ---------------------------------------------------------------------------
// Writing artwork
// ---------------------------------------------------------------------------

/// Picture formats artwork is written as.
#[derive(Debug, Clone, Copy, PartialEq, Eq, Structural)]
pub enum ArtworkMime {
    /// PNG
    Png,
    /// GIF
    Gif,
    /// BMP
    Bmp,
    /// TIFF
    Tiff,
    /// JPEG
    Jpeg,
}

/// The picture format a MIME type is written as (JPEG for anything else).
pub open spec fn mime_for(m: Seq<char>) -> ArtworkMime {
    if m == "image/png"@ {
        ArtworkMime::Png
    } else if m == "image/gif"@ {
        ArtworkMime::Gif
    } else if m == "image/bmp"@ {
        ArtworkMime::Bmp
    } else if m == "image/tiff"@ {
        ArtworkMime::Tiff
    } else {
        ArtworkMime::Jpeg
    }
}

/// Writes artwork to audio files.
pub struct ArtworkWriter;

impl ArtworkWriter {
    /// The picture format artwork with this MIME type is written as.
    pub fn picture_format(mime_type: &str) -> (r: ArtworkMime)
        ensures
            r == mime_for(mime_type@),
    {
        if str_eq(mime_type, "image/png") {
            ArtworkMime::Png
        } else if str_eq(mime_type, "image/gif") {
            ArtworkMime::Gif
        } else if str_eq(mime_type, "image/bmp") {
            ArtworkMime::Bmp
        } else if str_eq(mime_type, "image/tiff") {
            ArtworkMime::Tiff
        } else {
            ArtworkMime::Jpeg
        }
    }
}

// ---------------------------------------------------------------------------
// Artwork cache
// ---------------------------------------------------------------------------

#[verifier::external_type_specification]
#[verifier::external_body]
#[verifier::reject_recursive_types(K)]
#[verifier::reject_recursive_types(V)]
#[verifier::reject_recursive_types(S)]
pub struct ExLruCache<K, V, S>(LruCache<K, V, S>);

#[verifier::external_type_specification]
#[verifier::external_body]
pub struct ExLruDefaultHasher(lru::DefaultHasher);

/// What an artwork cache holds: the artwork (bytes, MIME type) under each
/// path.
pub type CachedArtwork = Map<Seq<char>, (Seq<u8>, Seq<char>)>;

/// A name for the entries an `lru::LruCache` holds, by key.
pub uninterp spec fn lru_entries(c: LruCache<String, ArtworkData>) -> CachedArtwork;

/// A name for the capacity an `lru::LruCache` was made with.
pub uninterp spec fn lru_capacity(c: LruCache<String, ArtworkData>) -> nat;

/// An artwork's bytes and MIME type.
pub open spec fn artwork_view(a: ArtworkData) -> (Seq<u8>, Seq<char>) {
    (a.data@, a.mime_type@)
}

/// `LruCache::new(NonZeroUsize::new(cap).unwrap())`: an empty cache holding
/// at most `cap` entries.
#[verifier::external_body]
fn lru_new(cap: usize) -> (r: LruCache<String, ArtworkData>)
    requires
        cap > 0,
    ensures
        lru_entries(r) == CachedArtwork::empty(),
        lru_capacity(r) == cap,
{
    LruCache::new(std::num::NonZeroUsize::new(cap).unwrap())
}

/// `LruCache::get`, handing out a copy: the entry under `key`, if any (the
/// entry becomes the most recently used; the entries are unchanged).
#[verifier::external_body]
fn lru_get(c: &mut LruCache<String, ArtworkData>, key: &str) -> (r: Option<ArtworkData>)
    ensures
        lru_entries(*final(c)) == lru_entries(*old(c)),
        lru_capacity(*final(c)) == lru_capacity(*old(c)),
        match r {
            Some(a) => lru_entries(*old(c)).contains_key(key@) && lru_entries(*old(c))[key@]
                == artwork_view(a),
            None => !lru_entries(*old(c)).contains_key(key@),
        },
{
    c.get(key).cloned()
}

/// `LruCache::put`: the entry under `key` becomes `value`. When the key was
/// absent and the cache full, one entry (the least recently used) leaves;
/// which one is not stated.
#[verifier::external_body]
fn lru_put(c: &mut LruCache<String, ArtworkData>, key: String, value: ArtworkData)
    ensures
        lru_capacity(*final(c)) == lru_capacity(*old(c)),
        ({
            let before = lru_entries(*old(c));
            let after = lru_entries(*final(c));
            if before.contains_key(key@) || before.len() < lru_capacity(*old(c)) {
                after == before.insert(key@, artwork_view(value))
            } else {
                exists|gone: Seq<char>|
                    #[trigger] before.contains_key(gone) && after == before.remove(gone).insert(
                        key@,
                        artwork_view(value),
                    )
            }
        }),
{
    c.put(key, value);
}

/// `LruCache::clear`: removes every entry.
#[verifier::external_body]
fn lru_clear(c: &mut LruCache<String, ArtworkData>)
    ensures
        lru_entries(*final(c)) == CachedArtwork::empty(),
        lru_capacity(*final(c)) == lru_capacity(*old(c)),
{
    c.clear();
}

/// `LruCache::is_empty`: whether the cache holds no entry.
#[verifier::external_body]
fn lru_is_empty(c: &LruCache<String, ArtworkData>) -> (r: bool)
    ensures
        r == (lru_entries(*c) == CachedArtwork::empty()),
{
    c.is_empty()
}

/// What a lookup of a path in a cache gives: the artwork cached under it.
pub open spec fn looked_up(cached: CachedArtwork, path: Seq<char>) -> Option<(Seq<u8>, Seq<char>)> {
    if cached.contains_key(path) {
        Some(cached[path])
    } else {
        None
    }
}

/// Cache `after` is cache `before`, which holds at most `capacity` entries,
/// with artwork `value` remembered under `path`, as an LRU cache does it:
/// when the path was already cached or the cache had room, the path now
/// holds that artwork and every other entry stays; otherwise exactly one
/// other entry (the least recently used) leaves to make room.
pub open spec fn remembered(
    before: CachedArtwork,
    after: CachedArtwork,
    capacity: nat,
    path: Seq<char>,
    value: (Seq<u8>, Seq<char>),
) -> bool {
    if before.contains_key(path) || before.len() < capacity {
        after == before.insert(path, value)
    } else {
        exists|gone: Seq<char>|
            #[trigger] before.contains_key(gone) && after == before.remove(gone).insert(path, value)
    }
}

/// Extracted artwork, cached by canonical path. A cache size of 0 turns
/// caching off: nothing is remembered and every lookup misses.
pub struct ArtworkExtractor {
    cache: LruCache<String, ArtworkData>,
    enabled: bool,
}

impl ArtworkExtractor {
    /// Well-formed: an enabled cache holds at least one entry.
    pub closed spec fn wf(&self) -> bool {
        self.enabled ==> lru_capacity(self.cache) > 0
    }

    /// The cached artwork, by path (nothing when caching is off).
    pub closed spec fn cached(&self) -> CachedArtwork {
        if self.enabled {
            lru_entries(self.cache)
        } else {
            CachedArtwork::empty()
        }
    }

    /// The number of entries the cache holds at most (0 when caching is
    /// off).
    pub closed spec fn capacity(&self) -> nat {
        if self.enabled {
            lru_capacity(self.cache)
        } else {
            0
        }
    }

    /// Create an extractor caching up to `cache_size` images (0 turns
    /// caching off).
    pub fn new(cache_size: usize) -> (r: Self)
        ensures
            r.wf(),
            r.cached() == CachedArtwork::empty(),
            r.capacity() == cache_size,
    {
        if cache_size > 0 {
            ArtworkExtractor { cache: lru_new(cache_size), enabled: true }
        } else {
            ArtworkExtractor { cache: lru_new(1), enabled: false }
        }
    }

    /// The artwork cached for a canonical path, if any (always none when
    /// caching is off).
    pub fn cached_artwork(&mut self, canonical_path: &str) -> (r: Option<ArtworkData>)
        requires
            old(self).wf(),
        ensures
            final(self).wf(),
            final(self).cached() == old(self).cached(),
            final(self).capacity() == old(self).capacity(),
            old(self).capacity() == 0 ==> r is None,
            match r {
                Some(a) => looked_up(old(self).cached(), canonical_path@) == Some(artwork_view(a)),
                None => looked_up(old(self).cached(), canonical_path@) is None,
            },
    {
        if !self.enabled {
            return None;
        }
        lru_get(&mut self.cache, canonical_path)
    }

    /// Remember artwork extracted for a canonical path (nothing is kept
    /// when caching is off).
    pub fn remember(&mut self, canonical_path: String, artwork: ArtworkData)
        requires
            old(self).wf(),
        ensures
            final(self).wf(),
            final(self).capacity() == old(self).capacity(),
            old(self).capacity() == 0 ==> final(self).cached() == CachedArtwork::empty(),
            old(self).capacity() > 0 ==> remembered(
                old(self).cached(),
                final(self).cached(),
                old(self).capacity(),
                canonical_path@,
                artwork_view(artwork),
            ),
    {
        if self.enabled {
            lru_put(&mut self.cache, canonical_path, artwork);
        }
    }

    /// Clear the cache.
    pub fn clear_cache(&mut self)
        requires
            old(self).wf(),
        ensures
            final(self).wf(),
            final(self).cached() == CachedArtwork::empty(),
            final(self).capacity() == old(self).capacity(),
    {
        lru_clear(&mut self.cache);
    }

    /// Whether nothing is cached.
    pub fn is_cache_empty(&self) -> (r: bool)
        ensures
            r == (self.cached() == CachedArtwork::empty()),
    {
        if !self.enabled {
            return true;
        }
        lru_is_empty(&self.cache)
    }
}

/// A lookup of a path right after artwork was remembered under it gives
/// that artwork back; a lookup of another path gives what it gave before,
/// unless that entry was the one evicted, and at most one entry is evicted.
pub proof fn lemma_lookup_after_remember(
    before: CachedArtwork,
    after: CachedArtwork,
    capacity: nat,
    path: Seq<char>,
    value: (Seq<u8>, Seq<char>),
    other: Seq<char>,
)
    requires
        remembered(before, after, capacity, path, value),
        other != path,
    ensures
        looked_up(after, path) == Some(value),
        looked_up(after, other) is None || looked_up(after, other) == looked_up(before, other),
        before.contains_key(path) || before.len() < capacity ==> looked_up(after, other)
            == looked_up(before, other),
        forall|a: Seq<char>, b: Seq<char>|
            a != path && b != path && #[trigger] before.contains_key(a) && #[trigger] before.contains_key(b)
                && !after.contains_key(a) && !after.contains_key(b) ==> a == b,
{
    if !(before.contains_key(path) || before.len() < capacity) {
        let gone = choose|gone: Seq<char>|
            #[trigger] before.contains_key(gone) && after == before.remove(gone).insert(path, value);
        assert(after == before.remove(gone).insert(path, value));
    }
}

} // verus!
