//! Bookkeeping of the semantic search index: where the index file and the
//! model cache live, which text of an item is indexed, which stored items
//! are stale, and the report of a library scan.

use vstd::prelude::*;

use crate::error::{ok_string, ZoteroMcpError};
use crate::paths::{path_join, path_parent, std_path_join, std_path_parent};
use crate::security::{push_string_copy, strings_view};
use crate::text::{chars_of, extend_str, is_blank, is_blank_spec, str_eq, string_from_chars, take_chars};

verus! {

/// Most characters of assembled text indexed per item; longer text is cut.
pub const MAX_INDEXABLE_CHARS: usize = 400_000;

/// The message given when no location for the index can be found.
pub open spec fn no_data_dir_message() -> Seq<char> {
    "Could not determine a data directory for the semantic search index; set ZOTERO_SEMANTIC_DB_PATH"@
}

/// Resolves the path of the index file from an explicit setting and the
/// default data directory.
pub fn resolve_db_path(override_path: Option<&str>, default_dir: Option<&str>) -> (r: Result<String, ZoteroMcpError>)
    ensures
        override_path matches Some(p) ==> ok_string(r, p@),
        override_path is None ==> (default_dir matches Some(d) ==> ok_string(r, std_path_join(d@, "embeddings.sqlite"@))),
        (override_path is None && default_dir is None) ==> (r matches Err(ZoteroMcpError::LocalDb(m)) && m@ == no_data_dir_message()),
{
    match override_path {
        Some(p) => Ok(p.to_owned()),
        None => match default_dir {
            Some(d) => Ok(path_join(d, "embeddings.sqlite")),
            None => Err(ZoteroMcpError::LocalDb(
                "Could not determine a data directory for the semantic search index; set ZOTERO_SEMANTIC_DB_PATH".to_owned(),
            )),
        },
    }
}

/// The directory downloaded model files are cached in: `models` beside
/// the index file.
pub open spec fn model_cache_dir_spec(db_path: Seq<char>) -> Seq<char> {
    match std_path_parent(db_path) {
        Some(parent) => std_path_join(parent, "models"@),
        None => "models"@,
    }
}

/// Resolves the model cache directory from the index file path.
pub fn resolve_model_cache_dir(db_path: &str) -> (r: String)
    ensures
        r@ == model_cache_dir_spec(db_path@),
{
    match path_parent(db_path) {
        Some(parent) => path_join(parent.as_str(), "models"),
        None => "models".to_owned(),
    }
}

/// The operating systems that have a default data directory under the
/// home directory.
#[derive(Clone, Copy, Debug, PartialEq, Eq, Structural)]
pub enum Platform {
    /// `~/Library/Application Support`.
    MacOs,
    /// `~/.local/share`.
    Linux,
    /// No default under the home directory.
    Other,
}

/// The per-user data directory of the server: under `APPDATA` when it is
/// set, else under the home directory on macOS and Linux.
pub open spec fn data_dir_spec(appdata: Option<Seq<char>>, home: Option<Seq<char>>, platform: Platform) -> Option<Seq<char>> {
    match appdata {
        Some(a) => Some(std_path_join(a, "zotero-mcp-rs"@)),
        None => match (platform, home) {
            (Platform::MacOs, Some(h)) => Some(std_path_join(
                std_path_join(std_path_join(h, "Library"@), "Application Support"@),
                "zotero-mcp-rs"@,
            )),
            (Platform::Linux, Some(h)) => Some(std_path_join(
                std_path_join(std_path_join(h, ".local"@), "share"@),
                "zotero-mcp-rs"@,
            )),
            _ => None,
        },
    }
}

/// The per-user data directory for the index, from the `APPDATA` and
/// `HOME` settings and the operating system.
pub fn default_semantic_data_dir(appdata: Option<&str>, home: Option<&str>, platform: Platform) -> (r: Option<String>)
    ensures
        (match r { Some(s) => Some(s@), None => None::<Seq<char>> }) == data_dir_spec(
            match appdata { Some(a) => Some(a@), None => None::<Seq<char>> },
            match home { Some(h) => Some(h@), None => None::<Seq<char>> },
            platform,
        ),
{
    if let Some(a) = appdata {
        return Some(path_join(a, "zotero-mcp-rs"));
    }
    match (platform, home) {
        (Platform::MacOs, Some(h)) => {
            let l = path_join(h, "Library");
            let s = path_join(l.as_str(), "Application Support");
            Some(path_join(s.as_str(), "zotero-mcp-rs"))
        },
        (Platform::Linux, Some(h)) => {
            let l = path_join(h, ".local");
            let s = path_join(l.as_str(), "share");
            Some(path_join(s.as_str(), "zotero-mcp-rs"))
        },
        _ => None,
    }
}


/// How the scan of one item ended.
#[derive(Clone, Copy, Debug, PartialEq, Eq, Structural)]
pub enum IndexOutcome {
    /// Its text was chunked, embedded and stored.
    Indexed,
    /// It had not changed since it was last indexed.
    SkippedUnchanged,
    /// It had no text to index.
    SkippedEmpty,
}

/// Counts of a library scan.
#[derive(Clone, Copy, Debug, PartialEq, Eq, Structural)]
pub struct IndexReport {
    pub items_scanned: usize,
    pub items_indexed: usize,
    pub items_skipped_unchanged: usize,
    pub items_skipped_empty: usize,
    pub items_deleted: usize,
    pub chunks_written: usize,
}

/// `a + b`, or `usize::MAX` where that does not fit.
pub open spec fn sat_add(a: usize, b: usize) -> usize {
    if a + b > usize::MAX { usize::MAX } else { (a + b) as usize }
}

impl IndexReport {
    /// Every scanned item ended in exactly one outcome.
    pub open spec fn accounts_for_every_item(self) -> bool {
        self.items_indexed + self.items_skipped_unchanged + self.items_skipped_empty == self.items_scanned
    }

    /// Counts one scanned item and its outcome; each count stops at
    /// `usize::MAX`.
    pub fn record(&mut self, outcome: IndexOutcome)
        ensures
            final(self).items_scanned == sat_add(old(self).items_scanned, 1),
            final(self).items_indexed == (if outcome == IndexOutcome::Indexed { sat_add(old(self).items_indexed, 1) } else { old(self).items_indexed }),
            final(self).items_skipped_unchanged == (if outcome == IndexOutcome::SkippedUnchanged { sat_add(old(self).items_skipped_unchanged, 1) } else { old(self).items_skipped_unchanged }),
            final(self).items_skipped_empty == (if outcome == IndexOutcome::SkippedEmpty { sat_add(old(self).items_skipped_empty, 1) } else { old(self).items_skipped_empty }),
            final(self).items_deleted == old(self).items_deleted,
            final(self).chunks_written == old(self).chunks_written,
            (old(self).accounts_for_every_item() && old(self).items_scanned < usize::MAX) ==> final(self).accounts_for_every_item(),
            *final(self) == report_after(*old(self), seq![outcome]),
            *final(self) == record_spec(*old(self), outcome),
    {
        proof {
            assert(seq![outcome].drop_last() =~= Seq::<IndexOutcome>::empty());
            assert(report_after(*old(self), seq![outcome].drop_last()) == *old(self));
        }
        self.items_scanned = self.items_scanned.saturating_add(1);
        match outcome {
            IndexOutcome::Indexed => {
                self.items_indexed = self.items_indexed.saturating_add(1);
            },
            IndexOutcome::SkippedUnchanged => {
                self.items_skipped_unchanged = self.items_skipped_unchanged.saturating_add(1);
            },
            IndexOutcome::SkippedEmpty => {
                self.items_skipped_empty = self.items_skipped_empty.saturating_add(1);
            },
        }
    }

    /// Counts one stale item removed from the index.
    pub fn record_deleted(&mut self)
        ensures
            final(self).items_deleted == sat_add(old(self).items_deleted, 1),
            final(self).items_scanned == old(self).items_scanned,
            final(self).items_indexed == old(self).items_indexed,
            final(self).items_skipped_unchanged == old(self).items_skipped_unchanged,
            final(self).items_skipped_empty == old(self).items_skipped_empty,
            final(self).chunks_written == old(self).chunks_written,
    {
        self.items_deleted = self.items_deleted.saturating_add(1);
    }

    /// Counts `n` chunks written for one item.
    pub fn record_chunks(&mut self, n: usize)
        ensures
            final(self).chunks_written == sat_add(old(self).chunks_written, n),
            final(self).items_scanned == old(self).items_scanned,
            final(self).items_indexed == old(self).items_indexed,
            final(self).items_skipped_unchanged == old(self).items_skipped_unchanged,
            final(self).items_skipped_empty == old(self).items_skipped_empty,
            final(self).items_deleted == old(self).items_deleted,
    {
        self.chunks_written = self.chunks_written.saturating_add(n);
    }
}

impl Default for IndexReport {
    fn default() -> (r: Self)
        ensures
            r.items_scanned == 0,
            r.items_indexed == 0,
            r.items_skipped_unchanged == 0,
            r.items_skipped_empty == 0,
            r.items_deleted == 0,
            r.chunks_written == 0,
    {
        IndexReport {
            items_scanned: 0,
            items_indexed: 0,
            items_skipped_unchanged: 0,
            items_skipped_empty: 0,
            items_deleted: 0,
            chunks_written: 0,
        }
    }
}

/// The report after counting `outcomes`, in order, from `start`.
pub open spec fn report_after(start: IndexReport, outcomes: Seq<IndexOutcome>) -> IndexReport
    decreases outcomes.len(),
{
    if outcomes.len() == 0 {
        start
    } else {
        record_spec(report_after(start, outcomes.drop_last()), outcomes.last())
    }
}

/// `r` after counting one scanned item with outcome `o`.
pub open spec fn record_spec(r: IndexReport, o: IndexOutcome) -> IndexReport {
    IndexReport {
        items_scanned: sat_add(r.items_scanned, 1),
        items_indexed: if o == IndexOutcome::Indexed { sat_add(r.items_indexed, 1) } else { r.items_indexed },
        items_skipped_unchanged: if o == IndexOutcome::SkippedUnchanged { sat_add(r.items_skipped_unchanged, 1) } else { r.items_skipped_unchanged },
        items_skipped_empty: if o == IndexOutcome::SkippedEmpty { sat_add(r.items_skipped_empty, 1) } else { r.items_skipped_empty },
        ..r
    }
}

/// Law: a scan that starts from an empty report and counts fewer than
/// `usize::MAX` items ends with every scanned item counted in exactly one
/// outcome, and with as many scanned items as outcomes.
pub proof fn law_every_scanned_item_has_one_outcome(outcomes: Seq<IndexOutcome>)
    requires
        outcomes.len() < usize::MAX,
    ensures
        report_after(zero_report(), outcomes).accounts_for_every_item(),
        report_after(zero_report(), outcomes).items_scanned == outcomes.len(),
    decreases outcomes.len(),
{
    if outcomes.len() > 0 {
        law_every_scanned_item_has_one_outcome(outcomes.drop_last());
    }
}

/// The report a scan starts from.
pub open spec fn zero_report() -> IndexReport {
    IndexReport {
        items_scanned: 0,
        items_indexed: 0,
        items_skipped_unchanged: 0,
        items_skipped_empty: 0,
        items_deleted: 0,
        chunks_written: 0,
    }
}

/// Whether an item can be skipped: a modification date was stored for it
/// and equals its current one.
pub fn is_unchanged(stored: Option<&str>, current: Option<&str>) -> (r: bool)
    ensures
        r == (stored matches Some(s) && current matches Some(c) && s@ == c@),
{
    match (stored, current) {
        (Some(s), Some(c)) => str_eq(s, c),
        _ => false,
    }
}

/// The stored keys that are no longer among the current keys, in stored
/// order.
pub open spec fn stale_keys_spec(stored: Seq<Seq<char>>, current: Seq<Seq<char>>) -> Seq<Seq<char>> {
    stored.filter(|k: Seq<char>| !current.contains(k))
}

fn contains_key(keys: &Vec<String>, key: &str) -> (r: bool)
    ensures
        r == strings_view(keys@).contains(key@),
{
    let mut i: usize = 0;
    while i < keys.len()
        invariant
            0 <= i <= keys.len(),
            forall|j: int| 0 <= j < i ==> #[trigger] strings_view(keys@)[j] != key@,
        decreases keys.len() - i,
    {
        if str_eq(keys[i].as_str(), key) {
            assert(strings_view(keys@)[i as int] == key@);
            return true;
        }
        i = i + 1;
    }
    false
}

/// The keys of indexed items that the library no longer holds, which the
/// scan deletes from the index.
///
/// Membership is tested by a linear search of `current` rather than through
/// a `HashSet<String>`: vstd specifies `HashSet` only for key types known to
/// obey its key model (integers, `bool`), not for `String`, so a set of
/// strings would leave membership unproved.
pub fn stale_keys(stored: &Vec<String>, current: &Vec<String>) -> (r: Vec<String>)
    ensures
        strings_view(r@) == stale_keys_spec(strings_view(stored@), strings_view(current@)),
{
    let ghost cur = strings_view(current@);
    let ghost all = strings_view(stored@);
    let mut out: Vec<String> = Vec::new();
    let mut i: usize = 0;
    while i < stored.len()
        invariant
            0 <= i <= stored.len(),
            cur == strings_view(current@),
            all == strings_view(stored@),
            strings_view(out@) == stale_keys_spec(all.take(i as int), cur),
        decreases stored.len() - i,
    {
        proof {
            reveal(Seq::filter);
            assert(all.take(i + 1).drop_last() =~= all.take(i as int));
            assert(all.take(i + 1).last() == stored@[i as int]@);
        }
        let key = &stored[i];
        if !contains_key(current, key.as_str()) {
            push_string_copy(&mut out, key);
        }
        i = i + 1;
    }
    proof {
        assert(all.take(stored.len() as int) =~= all);
    }
    out
}

/// The part a piece of item text contributes: itself when it is present and
/// not blank, nothing otherwise.
pub open spec fn nonblank_part(o: Option<Seq<char>>) -> Seq<Seq<char>> {
    match o {
        Some(s) => if is_blank_spec(s) { Seq::empty() } else { seq![s] },
        None => Seq::empty(),
    }
}

/// `ps` joined by blank lines (`"\n\n"`).
pub open spec fn paragraphs(ps: Seq<Seq<char>>) -> Seq<char>
    decreases ps.len(),
{
    if ps.len() == 0 {
        Seq::empty()
    } else if ps.len() == 1 {
        ps[0]
    } else {
        paragraphs(ps.drop_last()) + seq!['\n', '\n'] + ps.last()
    }
}

/// The text of an item: its title, its abstract and its full text, those
/// that are present and not blank, as paragraphs in that order.
pub open spec fn item_text_spec(title: Option<Seq<char>>, abstract_note: Option<Seq<char>>, fulltext: Option<Seq<char>>) -> Seq<char> {
    paragraphs(nonblank_part(title) + nonblank_part(abstract_note) + nonblank_part(fulltext))
}

/// `s` cut to its first `max` characters.
pub open spec fn truncated(s: Seq<char>, max: nat) -> Seq<char> {
    if s.len() > max { s.take(max as int) } else { s }
}

/// The characters of an optional string.
pub open spec fn opt_str(o: Option<&str>) -> Option<Seq<char>> {
    match o {
        Some(s) => Some(s@),
        None => None,
    }
}

proof fn lemma_paragraphs_push(ps: Seq<Seq<char>>, p: Seq<char>)
    ensures
        paragraphs(ps.push(p)) == (if ps.len() == 0 { p } else { paragraphs(ps) + seq!['\n', '\n'] + p }),
{
    assert(ps.push(p).drop_last() =~= ps);
}

fn add_paragraph(out: &mut Vec<char>, Ghost(ps): Ghost<Seq<Seq<char>>>, any: bool, s: Option<&str>) -> (r: (bool, Ghost<Seq<Seq<char>>>))
    requires
        old(out)@ == paragraphs(ps),
        any == (ps.len() > 0),
    ensures
        r.1@ == ps + nonblank_part(opt_str(s)),
        final(out)@ == paragraphs(r.1@),
        r.0 == (r.1@.len() > 0),
{
    match s {
        Some(text) => {
            if is_blank(text) {
                assert(ps + nonblank_part(opt_str(s)) =~= ps);
                (any, Ghost(ps))
            } else {
                proof {
                    lemma_paragraphs_push(ps, text@);
                    assert(ps + nonblank_part(opt_str(s)) =~= ps.push(text@));
                }
                if any {
                    out.push('\n');
                    out.push('\n');
                }
                extend_str(out, text);
                proof {
                    if ps.len() > 0 {
                        assert(out@ =~= paragraphs(ps) + seq!['\n', '\n'] + text@);
                    }
                }
                (true, Ghost(ps.push(text@)))
            }
        },
        None => {
            assert(ps + nonblank_part(opt_str(s)) =~= ps);
            (any, Ghost(ps))
        },
    }
}

/// Assembles the text indexed for an item: title, abstract and the full
/// text of its first attachment that has any, each present and non-blank
/// one on its own paragraph.
pub fn assemble_item_text(title: Option<&str>, abstract_note: Option<&str>, fulltext: Option<&str>) -> (r: String)
    ensures
        r@ == item_text_spec(opt_str(title), opt_str(abstract_note), opt_str(fulltext)),
{
    let mut out: Vec<char> = Vec::new();
    let g0: Ghost<Seq<Seq<char>>> = Ghost(Seq::empty());
    assert(out@ =~= paragraphs(g0@));
    let (a1, g1) = add_paragraph(&mut out, g0, false, title);
    let (a2, g2) = add_paragraph(&mut out, g1, a1, abstract_note);
    let (_a3, g3) = add_paragraph(&mut out, g2, a2, fulltext);
    assert(g3@ =~= nonblank_part(opt_str(title)) + nonblank_part(opt_str(abstract_note)) + nonblank_part(opt_str(fulltext)));
    string_from_chars(&out)
}

/// Cuts `text` to its first `max` characters.
pub fn truncate_chars(text: &str, max: usize) -> (r: String)
    ensures
        r@ == truncated(text@, max as nat),
{
    let v = chars_of(text);
    if v.len() > max {
        let t = take_chars(&v, max);
        string_from_chars(&t)
    } else {
        text.to_owned()
    }
}

/// The text of an item that goes into the index, if it has any: the
/// assembled text cut to `MAX_INDEXABLE_CHARS` characters, unless that is
/// blank.
pub open spec fn indexable_text_spec(title: Option<Seq<char>>, abstract_note: Option<Seq<char>>, fulltext: Option<Seq<char>>) -> Option<Seq<char>> {
    let t = truncated(item_text_spec(title, abstract_note, fulltext), MAX_INDEXABLE_CHARS as nat);
    if is_blank_spec(t) { None } else { Some(t) }
}

/// The text to chunk and embed for an item, or `None` when the item has
/// no text and is skipped as empty.
pub fn indexable_text(title: Option<&str>, abstract_note: Option<&str>, fulltext: Option<&str>) -> (r: Option<String>)
    ensures
        (match r { Some(s) => Some(s@), None => None::<Seq<char>> }) == indexable_text_spec(opt_str(title), opt_str(abstract_note), opt_str(fulltext)),
{
    let text = assemble_item_text(title, abstract_note, fulltext);
    let cut = truncate_chars(text.as_str(), MAX_INDEXABLE_CHARS);
    if is_blank(cut.as_str()) {
        None
    } else {
        Some(cut)
    }
}

/// The four little-endian bytes of `w`.
pub open spec fn word_bytes(w: u32) -> Seq<u8> {
    seq![(w % 256) as u8, ((w / 256) % 256) as u8, ((w / 65536) % 256) as u8, (w / 16777216) as u8]
}

/// The word whose little-endian bytes are `b0`, `b1`, `b2`, `b3`.
pub open spec fn bytes_word(b0: u8, b1: u8, b2: u8, b3: u8) -> u32 {
    (b0 + b1 * 256 + b2 * 65536 + b3 * 16777216) as u32
}

/// The stored form of a vector: each component's 32-bit pattern as four
/// little-endian bytes, in order.
pub open spec fn encode_spec(words: Seq<u32>) -> Seq<u8>
    decreases words.len(),
{
    if words.len() == 0 {
        Seq::empty()
    } else {
        encode_spec(words.drop_last()) + word_bytes(words.last())
    }
}

/// The components read back from stored bytes, four bytes each; `None`
/// when the length is not a multiple of four.
pub open spec fn decode_spec(bytes: Seq<u8>) -> Option<Seq<u32>> {
    if bytes.len() % 4 != 0 {
        None
    } else {
        Some(Seq::new(bytes.len() / 4, |i: int| bytes_word(bytes[4 * i], bytes[4 * i + 1], bytes[4 * i + 2], bytes[4 * i + 3])))
    }
}

/// The message given for stored bytes that are not whole components.
pub open spec fn corrupt_blob_message() -> Seq<char> {
    "corrupt embedding blob: length is not a multiple of 4"@
}

proof fn lemma_encode_len(words: Seq<u32>)
    ensures
        encode_spec(words).len() == 4 * words.len(),
    decreases words.len(),
{
    if words.len() > 0 {
        lemma_encode_len(words.drop_last());
    }
}

proof fn lemma_encode_index(words: Seq<u32>, i: int, k: int)
    requires
        0 <= i < words.len(),
        0 <= k < 4,
    ensures
        encode_spec(words).len() == 4 * words.len(),
        encode_spec(words)[4 * i + k] == word_bytes(words[i])[k],
    decreases words.len(),
{
    lemma_encode_len(words);
    lemma_encode_len(words.drop_last());
    if i < words.len() - 1 {
        lemma_encode_index(words.drop_last(), i, k);
    }
}

proof fn lemma_word_round_trip(w: u32)
    ensures
        bytes_word(word_bytes(w)[0], word_bytes(w)[1], word_bytes(w)[2], word_bytes(w)[3]) == w,
{
    assert(w == (w % 256) + ((w / 256) % 256) * 256 + ((w / 65536) % 256) * 65536 + (w / 16777216) * 16777216) by (bit_vector);
    assert(w / 16777216 < 256);
}

/// Law: reading back a stored vector gives its components exactly.
pub proof fn law_decode_inverts_encode(words: Seq<u32>)
    ensures
        decode_spec(encode_spec(words)) == Some(words),
{
    lemma_encode_len(words);
    let e = encode_spec(words);
    assert(e.len() % 4 == 0) by (nonlinear_arith)
        requires
            e.len() == 4 * words.len(),
    ;
    assert(e.len() / 4 == words.len()) by (nonlinear_arith)
        requires
            e.len() == 4 * words.len(),
    ;
    let d = Seq::new(e.len() / 4, |i: int| bytes_word(e[4 * i], e[4 * i + 1], e[4 * i + 2], e[4 * i + 3]));
    assert forall|i: int| 0 <= i < words.len() implies d[i] == words[i] by {
        lemma_encode_index(words, i, 0);
        lemma_encode_index(words, i, 1);
        lemma_encode_index(words, i, 2);
        lemma_encode_index(words, i, 3);
        lemma_word_round_trip(words[i]);
    }
    assert(d =~= words);
}

/// Encodes a vector's component bit patterns for storage.
pub fn encode_words(words: &Vec<u32>) -> (r: Vec<u8>)
    ensures
        r@ == encode_spec(words@),
{
    let mut out: Vec<u8> = Vec::new();
    let mut i: usize = 0;
    while i < words.len()
        invariant
            0 <= i <= words.len(),
            out@ == encode_spec(words@.take(i as int)),
        decreases words.len() - i,
    {
        let w = words[i];
        out.push((w % 256) as u8);
        out.push(((w / 256) % 256) as u8);
        out.push(((w / 65536) % 256) as u8);
        out.push((w / 16777216) as u8);
        proof {
            assert(words@.take(i + 1).drop_last() =~= words@.take(i as int));
            assert(words@.take(i + 1).last() == w);
            assert(out@ =~= encode_spec(words@.take(i as int)) + word_bytes(w));
        }
        i = i + 1;
    }
    assert(words@.take(words.len() as int) =~= words@);
    out
}

/// Decodes stored bytes into component bit patterns, or refuses bytes that
/// are not whole components.
pub fn decode_words(bytes: &[u8]) -> (r: Result<Vec<u32>, ZoteroMcpError>)
    ensures
        decode_spec(bytes@) matches Some(ws) ==> (r matches Ok(v) && v@ == ws),
        decode_spec(bytes@) is None ==> (r matches Err(ZoteroMcpError::Embedding(m)) && m@ == corrupt_blob_message()),
{
    if bytes.len() % 4 != 0 {
        return Err(ZoteroMcpError::Embedding("corrupt embedding blob: length is not a multiple of 4".to_owned()));
    }
    let total: usize = bytes.len();
    let n = total / 4;
    let mut out: Vec<u32> = Vec::new();
    let mut i: usize = 0;
    while i < n
        invariant
            0 <= i <= n,
            total == bytes@.len(),
            n == total / 4,
            total % 4 == 0,
            out@.len() == i,
            forall|j: int| 0 <= j < i ==> #[trigger] out@[j] == bytes_word(bytes@[4 * j], bytes@[4 * j + 1], bytes@[4 * j + 2], bytes@[4 * j + 3]),
        decreases n - i,
    {
        assert(4 * i + 3 < total) by (nonlinear_arith)
            requires
                i < n,
                n == total / 4,
                total % 4 == 0,
        ;
        let base: usize = 4 * i;
        let b0 = bytes[base] as u32;
        let b1 = bytes[base + 1] as u32;
        let b2 = bytes[base + 2] as u32;
        let b3 = bytes[base + 3] as u32;
        let w: u32 = b0 + b1 * 256 + b2 * 65536 + b3 * 16777216;
        out.push(w);
        i = i + 1;
    }
    proof {
        assert(out@ =~= decode_spec(bytes@)->0);
    }
    Ok(out)
}

/// What a library scan does with one item.
#[derive(Clone, Copy, Debug, PartialEq, Eq, Structural)]
pub enum ScanDecision {
    /// Not counted: the item is in the trash or of a kind that is not
    /// indexed.
    NotScanned,
    /// Counted as unchanged and left as it is in the index.
    Unchanged,
    /// Counted and (re)indexed.
    Index,
}

/// Decides what the scan does with an item: trashed and non-indexable
/// items are passed over; unless `force`, an item whose stored modification
/// date equals its current one is unchanged; every other item is indexed.
pub fn scan_decision(
    deleted: bool,
    indexable: bool,
    force: bool,
    stored_date: Option<&str>,
    current_date: Option<&str>,
) -> (r: ScanDecision)
    ensures
        (deleted || !indexable) ==> r == ScanDecision::NotScanned,
        (!deleted && indexable && !force && (stored_date matches Some(s) && current_date matches Some(c) && s@ == c@))
            ==> r == ScanDecision::Unchanged,
        (!deleted && indexable && (force || !(stored_date matches Some(s) && current_date matches Some(c) && s@ == c@)))
            ==> r == ScanDecision::Index,
{
    if deleted || !indexable {
        ScanDecision::NotScanned
    } else if !force && is_unchanged(stored_date, current_date) {
        ScanDecision::Unchanged
    } else {
        ScanDecision::Index
    }
}

} // verus!
