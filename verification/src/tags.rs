//! The cached tag set behind the synthetic keyword property.
//!
//! Extraction runs once, during initialization.  Whatever the extractor
//! reports is normalized here: a missing result, an empty result, or a result
//! with a tag that cannot be carried in a null-terminated platform text
//! buffer all collapse to "absent", and an absent tag set simply omits the
//! synthetic property.  Tag values themselves are kept exactly as extracted —
//! no trimming, no deduplication, no reordering.

use vstd::prelude::*;

verus! {

/// A character sequence fits a null-terminated text buffer only when it has
/// no interior null character.
pub open spec fn null_free(s: Seq<char>) -> bool {
    forall|i: int| 0 <= i <= s.len() - 1 ==> s[i] != '\0'
}

/// The ordered tag set extracted from a file's embedded metadata.
///
/// A value of this type is always present and well-formed: it holds at least
/// one tag, and every tag is null-free.  "No tags" is represented by the
/// absence of a `Tags` value, never by an empty one.
pub struct Tags {
    items: Vec<String>,
}

impl Tags {
    /// The tag set as a sequence of character sequences, in extraction order.
    pub closed spec fn view(&self) -> Seq<Seq<char>> {
        self.items@.map(|i: int, s: String| s@)
    }

    /// Non-empty, and every tag null-free.
    pub open spec fn wf(&self) -> bool {
        &&& self@.len() > 0
        &&& forall|i: int| 0 <= i < self@.len() ==> null_free(#[trigger] self@[i])
    }

    /// The tag strings, in extraction order.
    pub fn items(&self) -> (r: &Vec<String>)
        ensures
            r@.map(|i: int, s: String| s@) == self@,
    {
        &self.items
    }

    /// How many tags were extracted.
    pub fn len(&self) -> (n: usize)
        ensures
            n == self@.len(),
    {
        self.items.len()
    }
}

/// What the extractor reported, as character sequences in extraction order.
pub open spec fn reported_tags(v: Vec<String>) -> Seq<Seq<char>> {
    v@.map(|i: int, s: String| s@)
}

/// Whether an extraction outcome yields a usable tag set: at least one tag
/// was reported and every reported tag is null-free.
pub open spec fn usable_tag_set(extracted: Option<Vec<String>>) -> bool {
    match extracted {
        None => false,
        Some(v) => reported_tags(v).len() > 0 && (forall|i: int|
            0 <= i < reported_tags(v).len() ==> null_free(#[trigger] reported_tags(v)[i])),
    }
}

/// Reports whether `s` holds an interior null character.
fn has_interior_null(s: &str) -> (b: bool)
    ensures
        b == !null_free(s@),
{
    let n = s.unicode_len();
    let mut j: usize = 0;
    while j < n
        invariant
            n == s@.len(),
            j <= n,
            forall|i: int| 0 <= i < j ==> s@[i] != '\0',
        decreases n - j,
    {
        if s.get_char(j) == '\0' {
            return true;
        }
        j += 1;
    }
    false
}

/// Collapses an extraction outcome to the tag set the merge view caches.
///
/// The result is present exactly when the extractor reported at least one
/// tag and every reported tag is null-free; in that case the tags are kept
/// as they were reported, in order.  Every other outcome — extraction
/// failure, no embedded tags, or an unrepresentable tag — degrades to an
/// absent tag set and is never an error.
pub fn normalize_extraction(extracted: Option<Vec<String>>) -> (r: Option<Tags>)
    ensures
        r is Some <==> usable_tag_set(extracted),
        r matches Some(t) ==> t@ == reported_tags(extracted.unwrap()) && t.wf(),
{
    match extracted {
        None => None,
        Some(v) => {
            if v.len() == 0 {
                return None;
            }
            let ghost reported = v@.map(|i: int, s: String| s@);
            let mut j: usize = 0;
            while j < v.len()
                invariant
                    extracted == Some(v),
                    v.len() > 0,
                    j <= v.len(),
                    reported == v@.map(|i: int, s: String| s@),
                    forall|i: int| 0 <= i < j ==> null_free(#[trigger] reported[i]),
                decreases v.len() - j,
            {
                assert(reported[j as int] == v@[j as int]@);
                if has_interior_null(v[j].as_str()) {
                    return None;
                }
                j += 1;
            }
            Some(Tags { items: v })
        },
    }
}

/// The sixteen-bit code units of one character: the scalar value itself
/// below the surrogate range's ceiling, a surrogate pair above it.
pub open spec fn utf16_units(c: char) -> Seq<u16> {
    let v = c as u32;
    if v < 0x10000 {
        seq![v as u16]
    } else {
        seq![
            (0xD800 + (((v - 0x10000) as u32) >> 10u32)) as u16,
            (0xDC00 + (v as u32 & 0x3FF)) as u16,
        ]
    }
}

/// The sixteen-bit code units of a character sequence, in order.
pub open spec fn utf16_seq(s: Seq<char>) -> Seq<u16>
    decreases s.len(),
{
    if s.len() == 0 {
        Seq::empty()
    } else {
        utf16_seq(s.drop_last()) + utf16_units(s.last())
    }
}

/// Encodes a string as the platform's native text buffer: its sixteen-bit
/// code units followed by a terminating null unit.  For a null-free string
/// — every tag the merge view caches is one — the terminator is the only
/// null unit, so the buffer is well-formed null-terminated text.
pub fn encode_utf16_z(s: &str) -> (r: Vec<u16>)
    ensures
        r@ == utf16_seq(s@).push(0u16),
        null_free(s@) ==> forall|i: int| 0 <= i < r@.len() - 1 ==> r@[i] != 0,
{
    let n = s.unicode_len();
    let mut r: Vec<u16> = Vec::new();
    let mut j: usize = 0;
    while j < n
        invariant
            n == s@.len(),
            j <= n,
            r@ == utf16_seq(s@.subrange(0, j as int)),
            null_free(s@) ==> forall|i: int| 0 <= i < r@.len() ==> r@[i] != 0,
        decreases n - j,
    {
        let ghost prefix = s@.subrange(0, j as int);
        let c = s.get_char(j);
        let v = c as u32;
        if v < 0x10000 {
            r.push(v as u16);
        } else {
            let high_off: u32 = (v - 0x10000) >> 10;
            let low_off: u32 = v & 0x3FF;
            proof {
                assert(high_off <= 0x3FF) by (bit_vector)
                    requires
                        high_off == ((v - 0x10000) as u32) >> 10u32,
                        0x10000 <= v <= 0x10FFFF,
                ;
                assert(low_off <= 0x3FF) by (bit_vector)
                    requires
                        low_off == v & 0x3FF,
                ;
            }
            r.push((0xD800 + high_off) as u16);
            r.push((0xDC00 + low_off) as u16);
        }
        proof {
            let longer = s@.subrange(0, j as int + 1);
            assert(longer.drop_last() =~= prefix);
            assert(longer.last() == c);
            assert(r@ =~= utf16_seq(longer));
            if null_free(s@) && c != '\0' {
                assert(v != 0);
            }
        }
        j += 1;
    }
    proof {
        assert(s@.subrange(0, n as int) =~= s@);
    }
    r.push(0);
    r
}

impl Tags {
    /// The cached tags as platform text buffers, one per tag, in extraction
    /// order: each tag's code units followed by its terminating null unit.
    pub fn encoded(&self) -> (r: Vec<Vec<u16>>)
        ensures
            r@.len() == self@.len(),
            forall|i: int| 0 <= i < r@.len() ==> (#[trigger] r@[i])@ == utf16_seq(
                self@[i],
            ).push(0u16),
    {
        let items = self.items();
        let mut r: Vec<Vec<u16>> = Vec::new();
        let mut j: usize = 0;
        while j < items.len()
            invariant
                items@.map(|i: int, s: String| s@) == self@,
                j <= items@.len(),
                r@.len() == j,
                forall|i: int| 0 <= i < j ==> (#[trigger] r@[i])@ == utf16_seq(
                    self@[i],
                ).push(0u16),
            decreases items@.len() - j,
        {
            assert(self@[j as int] == items@[j as int]@);
            let buf = encode_utf16_z(items[j].as_str());
            r.push(buf);
            j += 1;
        }
        r
    }
}

} // verus!
