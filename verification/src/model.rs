//! The data ScrollWM reports: the capability handshake and the strip status,
//! and the lookups the client makes in them.
use vstd::prelude::*;

use crate::text::{
    ascii_lower, ascii_lower_chars, chars_of, contains, contains_chars, lower_char,
};

verus! {

broadcast use vstd::string::group_string_axioms;

/// The capability handshake (`version` verb), used for feature detection.
#[derive(Debug, Clone, Default)]
pub struct ScrollWmInfo {
    /// Product name (e.g. "ScrollWM").
    pub name: String,
    /// Marketing version (e.g. "0.1.6"); display-only.
    pub version: String,
    /// Monotonic control-protocol revision; the coarse compatibility gate.
    pub protocol: u32,
    /// Supported verb names, for fine-grained feature detection.
    pub verbs: Vec<String>,
}

/// Snapshot of the strip returned by the `status` verb. Optional fields are
/// only present while managing.
#[derive(Debug, Clone, Default)]
pub struct StripStatus {
    /// Whether ScrollWM is actively managing windows (vs. dormant).
    pub managing: bool,
    /// Current focus mode ("fit" / "centered"), display-only.
    pub focus_mode: String,
    /// Total managed window count.
    pub window_count: u32,
    /// 1-based index of the focused column, when managing.
    pub focused_column: Option<u32>,
    /// Current vertical workspace (1-based), when managing.
    pub workspace: Option<u32>,
    /// Total vertical workspace count, when managing.
    pub workspace_count: Option<u32>,
    /// The columns of the active strip, left to right.
    pub columns: Vec<Column>,
}

/// One column (window) of the strip.
#[derive(Debug, Clone, Default)]
pub struct Column {
    /// 1-based column index.
    pub index: u32,
    /// Owning application name (e.g. "Ghostty").
    pub app: String,
    /// Window title (jcode sets a unique per-session title here).
    pub title: String,
    /// Column width in pixels.
    pub width: u32,
    /// Whether this column currently has focus.
    pub focused: bool,
    /// Whether ScrollWM considers this window healthy/managed.
    pub healthy: bool,
}

/// `info` advertises a verb spelled exactly `verb`.
pub open spec fn advertises(info: ScrollWmInfo, verb: Seq<char>) -> bool {
    exists|i: int| 0 <= i < info.verbs@.len() && #[trigger] info.verbs@[i]@ == verb
}

/// The title of `column` contains `needle`, ignoring ASCII case.
pub open spec fn title_matches(column: Column, needle: Seq<char>) -> bool {
    contains(ascii_lower(column.title@), ascii_lower(needle))
}

/// Column `k` is the leftmost column whose title contains `needle`.
pub open spec fn is_first_title_match(columns: Seq<Column>, needle: Seq<char>, k: int) -> bool {
    &&& 0 <= k < columns.len()
    &&& title_matches(columns[k], needle)
    &&& forall|j: int| 0 <= j < k ==> !title_matches(#[trigger] columns[j], needle)
}

/// The 1-based index of the leftmost column whose title contains `needle`
/// (ignoring ASCII case), or `None` when no title does.
pub open spec fn spec_column_for_title(status: StripStatus, needle: Seq<char>) -> Option<usize> {
    let columns = status.columns@;
    if exists|k: int| 0 <= k < columns.len() && title_matches(#[trigger] columns[k], needle) {
        let k = choose|k: int| is_first_title_match(columns, needle, k);
        Some(columns[k].index as usize)
    } else {
        None
    }
}

/// There is only one leftmost match.
proof fn lemma_first_match_unique(columns: Seq<Column>, needle: Seq<char>, a: int, b: int)
    requires
        is_first_title_match(columns, needle, a),
        is_first_title_match(columns, needle, b),
    ensures
        a == b,
{
    if a < b {
        assert(!title_matches(columns[a], needle));
    } else if b < a {
        assert(!title_matches(columns[b], needle));
    }
}

impl ScrollWmInfo {
    /// Whether this ScrollWM advertises a given verb (only meaningful when the
    /// `verbs` list is populated, i.e. `version` was supported).
    pub fn supports_verb(&self, verb: &str) -> (b: bool)
        ensures
            b == advertises(*self, verb@),
    {
        let wanted = verb.to_string();
        let n = self.verbs.len();
        for i in 0..n
            invariant
                n == self.verbs@.len(),
                wanted@ == verb@,
                forall|j: int| 0 <= j < i ==> self.verbs@[j]@ != verb@,
        {
            if self.verbs[i] == wanted {
                assert(self.verbs@[i as int]@ == verb@);
                return true;
            }
        }
        false
    }
}

/// The handshake of a ScrollWM too old to know the `version` verb: product
/// name only, empty version, protocol 0, no verbs.
pub fn legacy_info() -> (info: ScrollWmInfo)
    ensures
        info.name@ == "ScrollWM"@,
        info.version@ == Seq::<char>::empty(),
        info.protocol == 0,
        info.verbs@.len() == 0,
{
    ScrollWmInfo {
        name: "ScrollWM".to_string(),
        version: String::new(),
        protocol: 0,
        verbs: Vec::new(),
    }
}

/// Law: a handshake without a verb list (such as the protocol-0 fallback)
/// advertises no verb at all.
pub proof fn lemma_no_verbs_supports_nothing(info: ScrollWmInfo, verb: Seq<char>)
    requires
        info.verbs@.len() == 0,
    ensures
        !advertises(info, verb),
{
}

/// Find the 1-based index of the first column whose title contains `needle`
/// (case-insensitive). Returns `None` when nothing matches.
pub fn column_for_title(status: &StripStatus, needle: &str) -> (r: Option<usize>)
    ensures
        r == spec_column_for_title(*status, needle@),
{
    let needle_chars = chars_of(needle);
    let needle_lower = ascii_lower_chars(&needle_chars);
    let ghost columns = status.columns@;
    let n = status.columns.len();
    for k in 0..n
        invariant
            n == columns.len(),
            columns == status.columns@,
            needle_lower@ == ascii_lower(needle@),
            forall|j: int| 0 <= j < k ==> !title_matches(#[trigger] columns[j], needle@),
    {
        let column = &status.columns[k];
        let title = chars_of(column.title.as_str());
        let title_lower = ascii_lower_chars(&title);
        if contains_chars(&title_lower, &needle_lower) {
            proof {
                assert(is_first_title_match(columns, needle@, k as int));
                let c = choose|c: int| is_first_title_match(columns, needle@, c);
                lemma_first_match_unique(columns, needle@, c, k as int);
            }
            return Some(column.index as usize);
        }
    }
    None
}

/// Lower-casing is idempotent.
proof fn lemma_ascii_lower_idempotent(s: Seq<char>)
    ensures
        ascii_lower(ascii_lower(s)) == ascii_lower(s),
{
    assert forall|i: int| 0 <= i < s.len() implies lower_char(lower_char(s[i])) == lower_char(
        s[i],
    ) by {
        let c = s[i];
        if 'A' <= c && c <= 'Z' {
            assert(lower_char(c) as u32 == c as u32 + 32);
        }
    }
    assert(ascii_lower(ascii_lower(s)) =~= ascii_lower(s));
}

/// Law: the title lookup ignores ASCII case in the needle: two needles that
/// lower-case alike find the same column.
pub proof fn lemma_title_lookup_ignores_case(status: StripStatus, a: Seq<char>, b: Seq<char>)
    requires
        ascii_lower(a) == ascii_lower(b),
    ensures
        spec_column_for_title(status, a) == spec_column_for_title(status, b),
{
    let columns = status.columns@;
    assert forall|k: int| 0 <= k < columns.len() implies title_matches(columns[k], a)
        == title_matches(columns[k], b) by {}
    assert forall|k: int| is_first_title_match(columns, a, k) == is_first_title_match(
        columns,
        b,
        k,
    ) by {
        if 0 <= k < columns.len() {
            assert forall|j: int| 0 <= j < k implies title_matches(columns[j], a)
                == title_matches(columns[j], b) by {}
        }
    }
    if exists|k: int| 0 <= k < columns.len() && title_matches(#[trigger] columns[k], a) {
        let w = choose|k: int| 0 <= k < columns.len() && title_matches(#[trigger] columns[k], a);
        lemma_first_match_exists(columns, a, w);
        let ka = choose|k: int| is_first_title_match(columns, a, k);
        let kb = choose|k: int| is_first_title_match(columns, b, k);
        assert(is_first_title_match(columns, b, ka));
        lemma_first_match_unique(columns, b, ka, kb);
    }
}

/// Law: a needle and its lower-cased form find the same column.
pub proof fn lemma_title_lookup_lowercase_needle(status: StripStatus, needle: Seq<char>)
    ensures
        spec_column_for_title(status, needle) == spec_column_for_title(
            status,
            ascii_lower(needle),
        ),
{
    lemma_ascii_lower_idempotent(needle);
    lemma_title_lookup_ignores_case(status, needle, ascii_lower(needle));
}

/// Law: when the lookup finds a column, that column's title contains the
/// needle (ignoring ASCII case) and no column to its left does; when it finds
/// none, no title contains the needle.
pub proof fn lemma_title_lookup_sound(status: StripStatus, needle: Seq<char>)
    ensures
        spec_column_for_title(status, needle) matches Some(i) ==> exists|k: int|
            is_first_title_match(status.columns@, needle, k) && i == status.columns@[k].index
                as usize,
        spec_column_for_title(status, needle) is None ==> forall|k: int|
            0 <= k < status.columns@.len() ==> !title_matches(#[trigger] status.columns@[k], needle),
{
    let columns = status.columns@;
    if exists|k: int| 0 <= k < columns.len() && title_matches(#[trigger] columns[k], needle) {
        let w = choose|k: int| 0 <= k < columns.len() && title_matches(#[trigger] columns[k], needle);
        lemma_first_match_exists(columns, needle, w);
    }
}

/// Some column matches, so there is a leftmost one.
proof fn lemma_first_match_exists(columns: Seq<Column>, needle: Seq<char>, w: int)
    requires
        0 <= w < columns.len(),
        title_matches(columns[w], needle),
    ensures
        exists|k: int| is_first_title_match(columns, needle, k),
    decreases w,
{
    if forall|j: int| 0 <= j < w ==> !title_matches(#[trigger] columns[j], needle) {
        assert(is_first_title_match(columns, needle, w));
    } else {
        let j = choose|j: int| 0 <= j < w && !!title_matches(#[trigger] columns[j], needle);
        lemma_first_match_exists(columns, needle, j);
    }
}

/// Law: every verb the handshake lists is supported, wherever it stands in
/// the list.
pub proof fn lemma_listed_verbs_are_supported(info: ScrollWmInfo, k: int)
    requires
        0 <= k < info.verbs@.len(),
    ensures
        advertises(info, info.verbs@[k]@),
{
}

/// Law: only listed verbs are supported: a supported verb is spelled exactly
/// like some entry of the list.
pub proof fn lemma_supported_verbs_are_listed(info: ScrollWmInfo, verb: Seq<char>)
    requires
        advertises(info, verb),
    ensures
        exists|k: int| 0 <= k < info.verbs@.len() && info.verbs@[k]@ == verb,
{
}

/// The two column lists agree on every title and index (other fields may differ).
pub open spec fn same_titles_and_indices(a: Seq<Column>, b: Seq<Column>) -> bool {
    &&& a.len() == b.len()
    &&& forall|k: int|
        0 <= k < a.len() ==> (#[trigger] a[k]).title@ == b[k].title@ && a[k].index == b[k].index
}

/// Law: the title lookup reads only the columns' titles and indices: two
/// strips whose columns agree on those (whatever their apps, widths or flags)
/// find the same column.
pub proof fn lemma_title_lookup_reads_titles_only(
    s1: StripStatus,
    s2: StripStatus,
    needle: Seq<char>,
)
    requires
        same_titles_and_indices(s1.columns@, s2.columns@),
    ensures
        spec_column_for_title(s1, needle) == spec_column_for_title(s2, needle),
{
    let a = s1.columns@;
    let b = s2.columns@;
    assert forall|k: int| 0 <= k < a.len() implies title_matches(a[k], needle) == title_matches(
        b[k],
        needle,
    ) by {
        assert(a[k].title@ == b[k].title@);
    }
    assert forall|k: int| is_first_title_match(a, needle, k) == is_first_title_match(
        b,
        needle,
        k,
    ) by {
        if 0 <= k < a.len() {
            assert(title_matches(a[k], needle) == title_matches(b[k], needle));
            assert forall|j: int| 0 <= j < k implies title_matches(a[j], needle)
                == title_matches(b[j], needle) by {}
        }
    }
    if exists|k: int| 0 <= k < a.len() && title_matches(#[trigger] a[k], needle) {
        let w = choose|k: int| 0 <= k < a.len() && title_matches(#[trigger] a[k], needle);
        assert(title_matches(b[w], needle));
        lemma_first_match_exists(a, needle, w);
        let ka = choose|k: int| is_first_title_match(a, needle, k);
        let kb = choose|k: int| is_first_title_match(b, needle, k);
        assert(is_first_title_match(b, needle, ka));
        lemma_first_match_unique(b, needle, ka, kb);
        assert(a[ka].index == b[ka].index);
    } else {
        assert forall|k: int| 0 <= k < b.len() implies !title_matches(#[trigger] b[k], needle) by {
            assert(!title_matches(a[k], needle));
        }
    }
}

/// Law: a column found by title has that index, and its title, lower-cased,
/// holds the lower-cased needle at some position.
pub proof fn lemma_found_title_holds_needle(status: StripStatus, needle: Seq<char>)
    ensures
        spec_column_for_title(status, needle) matches Some(i) ==> exists|k: int, j: int|
            0 <= k < status.columns@.len() && status.columns@[k].index as usize == i && 0 <= j
                && j + needle.len() <= status.columns@[k].title@.len() && #[trigger] ascii_lower(
                status.columns@[k].title@,
            ).subrange(j, j + needle.len()) == ascii_lower(needle),
{
    lemma_title_lookup_sound(status, needle);
    let cols = status.columns@;
    if spec_column_for_title(status, needle) is Some {
        let k = choose|k: int| is_first_title_match(cols, needle, k) && spec_column_for_title(status, needle)->0 == cols[k].index as usize;
        let j = choose|j: int| crate::text::occurs_at(ascii_lower(cols[k].title@), ascii_lower(needle), j);
        assert(ascii_lower(cols[k].title@).subrange(j, j + needle.len()) == ascii_lower(needle));
    }
}

/// Law: when some column's title, lower-cased, holds the lower-cased needle,
/// the lookup finds a column (the leftmost such one, at or before it).
pub proof fn lemma_matching_title_is_found(status: StripStatus, needle: Seq<char>, k: int, j: int)
    requires
        0 <= k < status.columns@.len(),
        0 <= j,
        j + needle.len() <= status.columns@[k].title@.len(),
        ascii_lower(status.columns@[k].title@).subrange(j, j + needle.len()) == ascii_lower(needle),
    ensures
        spec_column_for_title(status, needle) is Some,
{
    let cols = status.columns@;
    assert(crate::text::occurs_at(ascii_lower(cols[k].title@), ascii_lower(needle), j));
    assert(title_matches(cols[k], needle));
}

} // verus!
