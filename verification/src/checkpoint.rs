//! The persisted checkpoint: the last commit ids known synchronized on each
//! side of a repository pair, together with its exact file format.
//!
//! The on-disk form is a single JSON object,
//! `{"last_source_synced_oid":V,"last_target_synced_oid":V}` where each `V`
//! is either `null` or a quoted forty-character hex commit id; whitespace
//! between the tokens is tolerated, so pretty-printed records load too. A
//! file that does not match this shape is treated as "no prior state": a
//! missing or corrupt checkpoint degrades to the empty record instead of
//! failing a run.

use vstd::prelude::*;
use vstd::string::StrSliceExecFns;
use vstd::string::StringExecFns;

use crate::commit_id::{is_hex_id, CommitId};
use crate::text::match_at;

verus! {

/// The mathematical model of a checkpoint: each side is either absent or a
/// forty-character hex commit id.
#[verifier::ext_equal]
pub struct CheckpointView {
    pub source: Option<Seq<char>>,
    pub target: Option<Seq<char>>,
}

/// A well-formed model: whatever is present is a hex commit id.
pub open spec fn wf_checkpoint_view(m: CheckpointView) -> bool {
    &&& (m.source matches Some(h) ==> is_hex_id(h))
    &&& (m.target matches Some(h) ==> is_hex_id(h))
}

/// The model of the empty record: no prior synchronization.
pub open spec fn empty_checkpoint_view() -> CheckpointView {
    CheckpointView { source: None, target: None }
}

/// The persisted state record of the synchronization engine.
///
/// Both fields are `None` together (no prior sync) or both `Some` together
/// (a prior run established a common point). A record with exactly one field
/// set is not meaningful and is ignored by the engine when resolving a base.
pub struct SyncCheckpoint {
    pub last_source_synced_id: Option<CommitId>,
    pub last_target_synced_id: Option<CommitId>,
}

pub open spec fn opt_id_view(o: Option<CommitId>) -> Option<Seq<char>> {
    match o {
        Some(id) => Some(id@),
        None => None,
    }
}

impl View for SyncCheckpoint {
    type V = CheckpointView;

    open spec fn view(&self) -> CheckpointView {
        CheckpointView {
            source: opt_id_view(self.last_source_synced_id),
            target: opt_id_view(self.last_target_synced_id),
        }
    }
}

impl SyncCheckpoint {
    pub open spec fn wf(&self) -> bool {
        wf_checkpoint_view(self@)
    }

    /// Both sides recorded: the record can seed a base computation.
    pub open spec fn spec_is_complete(&self) -> bool {
        self.last_source_synced_id is Some && self.last_target_synced_id is Some
    }

    /// The empty record, used on a first run and after degradation.
    pub fn empty() -> (r: SyncCheckpoint)
        ensures
            r@ == empty_checkpoint_view(),
            r.wf(),
    {
        SyncCheckpoint { last_source_synced_id: None, last_target_synced_id: None }
    }

    pub fn is_complete(&self) -> (r: bool)
        ensures
            r == self.spec_is_complete(),
    {
        self.last_source_synced_id.is_some() && self.last_target_synced_id.is_some()
    }
}

// ---------------------------------------------------------------------------
// Serialization
// ---------------------------------------------------------------------------
/// One field of the record: `null`, or the id in quotes.
pub open spec fn spec_field(v: Option<Seq<char>>) -> Seq<char> {
    match v {
        Some(h) => "\""@ + h + "\""@,
        None => "null"@,
    }
}

/// The exact file content written for a checkpoint.
pub open spec fn spec_serialize(m: CheckpointView) -> Seq<char> {
    "{\"last_source_synced_oid\":"@ + spec_field(m.source) + ",\"last_target_synced_oid\":"@
        + spec_field(m.target) + "}"@
}

impl SyncCheckpoint {
    /// Writes the record in its canonical JSON form.
    pub fn serialize(&self) -> (r: String)
        ensures
            r@ == spec_serialize(self@),
    {
        let mut out = String::new();
        out.append("{\"last_source_synced_oid\":");
        match &self.last_source_synced_id {
            Some(id) => {
                out.append("\"");
                out.append(id.as_str());
                out.append("\"");
            },
            None => {
                out.append("null");
            },
        }
        out.append(",\"last_target_synced_oid\":");
        match &self.last_target_synced_id {
            Some(id) => {
                out.append("\"");
                out.append(id.as_str());
                out.append("\"");
            },
            None => {
                out.append("null");
            },
        }
        out.append("}");
        proof {
            assert(out@ =~= spec_serialize(self@));
        }
        out
    }
}

// ---------------------------------------------------------------------------
// Parsing
// ---------------------------------------------------------------------------
/// Reads one field value at position `i`: `null`, or a quoted hex id.
/// Yields the value and the position just after it.
pub open spec fn spec_value_at(s: Seq<char>, i: int) -> Option<(Option<Seq<char>>, int)> {
    if i + 4 <= s.len() && s.subrange(i, i + 4) == "null"@ {
        Some((None, i + 4))
    } else if i + 42 <= s.len() && s[i] == '"' && s[i + 41] == '"' && is_hex_id(
        s.subrange(i + 1, i + 41),
    ) {
        Some((Some(s.subrange(i + 1, i + 41)), i + 42))
    } else {
        None
    }
}

/// The whitespace characters JSON allows between tokens.
pub open spec fn is_ws(c: char) -> bool {
    c == ' ' || c == '\n' || c == '\r' || c == '\t'
}

/// The first position at or after `i` holding a non-whitespace character
/// (or the end of the text).
pub open spec fn spec_skip_ws(s: Seq<char>, i: int) -> int
    decreases s.len() - i,
    when 0 <= i <= s.len()
{
    if i < s.len() && is_ws(s[i]) {
        spec_skip_ws(s, i + 1)
    } else {
        i
    }
}

/// The grammar of a checkpoint file: the two fixed keys with their values,
/// in order, in one object — exactly what `serialize` writes, with
/// whitespace tolerated between the tokens and around the object.
pub open spec fn spec_parse(s: Seq<char>) -> Option<CheckpointView> {
    let key1 = "\"last_source_synced_oid\""@;
    let key2 = "\"last_target_synced_oid\""@;
    let i0 = spec_skip_ws(s, 0);
    if i0 < s.len() && s[i0] == '{' {
        let i1 = spec_skip_ws(s, i0 + 1);
        if i1 + key1.len() <= s.len() && s.subrange(i1, i1 + key1.len()) == key1 {
            let i2 = spec_skip_ws(s, i1 + key1.len());
            if i2 < s.len() && s[i2] == ':' {
                let i3 = spec_skip_ws(s, i2 + 1);
                match spec_value_at(s, i3) {
                    Some((v1, j0)) => {
                        let j1 = spec_skip_ws(s, j0);
                        if j1 < s.len() && s[j1] == ',' {
                            let j2 = spec_skip_ws(s, j1 + 1);
                            if j2 + key2.len() <= s.len() && s.subrange(j2, j2 + key2.len())
                                == key2 {
                                let j3 = spec_skip_ws(s, j2 + key2.len());
                                if j3 < s.len() && s[j3] == ':' {
                                    let j4 = spec_skip_ws(s, j3 + 1);
                                    match spec_value_at(s, j4) {
                                        Some((v2, k0)) => {
                                            let k1 = spec_skip_ws(s, k0);
                                            if k1 < s.len() && s[k1] == '}' && spec_skip_ws(
                                                s,
                                                k1 + 1,
                                            ) == s.len() {
                                                Some(CheckpointView { source: v1, target: v2 })
                                            } else {
                                                None
                                            }
                                        },
                                        None => None,
                                    }
                                } else {
                                    None
                                }
                            } else {
                                None
                            }
                        } else {
                            None
                        }
                    },
                    None => None,
                }
            } else {
                None
            }
        } else {
            None
        }
    } else {
        None
    }
}

/// The first non-whitespace position at or after `from`.
fn skip_ws(s: &str, from: usize) -> (r: usize)
    requires
        from <= s@.len(),
        s@.len() < usize::MAX,
    ensures
        r == spec_skip_ws(s@, from as int),
        from <= r <= s@.len(),
{
    let n = s.unicode_len();
    let mut i: usize = from;
    while i < n
        invariant
            from <= i <= n,
            n == s@.len(),
            n < usize::MAX,
            spec_skip_ws(s@, from as int) == spec_skip_ws(s@, i as int),
        decreases n - i,
    {
        let c = s.get_char(i);
        if !(c == ' ' || c == '\n' || c == '\r' || c == '\t') {
            proof {
                assert(spec_skip_ws(s@, i as int) == i as int);
            }
            return i;
        }
        proof {
            assert(spec_skip_ws(s@, i as int) == spec_skip_ws(s@, i + 1));
        }
        i += 1;
    }
    proof {
        assert(spec_skip_ws(s@, i as int) == i as int);
    }
    i
}

/// Reads one field value at `off`, as `spec_value_at` describes.
fn parse_value_at(s: &str, off: usize) -> (r: Option<(Option<CommitId>, usize)>)
    requires
        off <= s@.len(),
        s@.len() < usize::MAX - 100,
    ensures
        r matches Some((v, j)) ==> spec_value_at(s@, off as int) == Some(
            (opt_id_view(v), j as int),
        ) && j <= s@.len() && (v matches Some(id) ==> id.wf()),
        r is None ==> spec_value_at(s@, off as int) is None,
{
    proof {
        reveal_strlit("null");
        reveal_strlit("\"");
    }
    let n = s.unicode_len();
    if off + 4 <= n && match_at(s, off, "null") {
        return Some((None, off + 4));
    }
    if off + 42 <= n && s.get_char(off) == '"' && s.get_char(off + 41) == '"' {
        let h = s.substring_char(off + 1, off + 41);
        match CommitId::from_hex(h) {
            Some(id) => {
                return Some((Some(id), off + 42));
            },
            None => {
                return None;
            },
        }
    }
    None
}

/// Parses a checkpoint file: the serialized form, with whitespace between
/// tokens tolerated. Anything else is rejected, and the caller degrades to
/// the empty record.
pub fn parse_checkpoint(s: &str) -> (r: Option<SyncCheckpoint>)
    requires
        s@.len() < usize::MAX - 100,
    ensures
        r matches Some(cp) ==> spec_parse(s@) == Some(cp@) && cp.wf(),
        r is None ==> spec_parse(s@) is None,
{
    proof {
        reveal_strlit("\"last_source_synced_oid\"");
        reveal_strlit("\"last_target_synced_oid\"");
        assert("\"last_source_synced_oid\""@.len() == 24);
        assert("\"last_target_synced_oid\""@.len() == 24);
    }
    let n = s.unicode_len();
    let i0 = skip_ws(s, 0);
    if !(i0 < n && s.get_char(i0) == '{') {
        return None;
    }
    let i1 = skip_ws(s, i0 + 1);
    if i1 + 24 > n {
        return None;
    }
    if !match_at(s, i1, "\"last_source_synced_oid\"") {
        return None;
    }
    let i2 = skip_ws(s, i1 + 24);
    if !(i2 < n && s.get_char(i2) == ':') {
        return None;
    }
    let i3 = skip_ws(s, i2 + 1);
    let (v1, j0) = match parse_value_at(s, i3) {
        Some(p) => p,
        None => {
            return None;
        },
    };
    let j1 = skip_ws(s, j0);
    if !(j1 < n && s.get_char(j1) == ',') {
        return None;
    }
    let j2 = skip_ws(s, j1 + 1);
    if j2 + 24 > n {
        return None;
    }
    if !match_at(s, j2, "\"last_target_synced_oid\"") {
        return None;
    }
    let j3 = skip_ws(s, j2 + 24);
    if !(j3 < n && s.get_char(j3) == ':') {
        return None;
    }
    let j4 = skip_ws(s, j3 + 1);
    let (v2, k0) = match parse_value_at(s, j4) {
        Some(p) => p,
        None => {
            return None;
        },
    };
    let closing = skip_ws(s, k0);
    if !(closing < n && s.get_char(closing) == '}') {
        return None;
    }
    if skip_ws(s, closing + 1) != n {
        return None;
    }
    Some(SyncCheckpoint { last_source_synced_id: v1, last_target_synced_id: v2 })
}

/// What loading yields for a given file content: the parsed record where the
/// content is canonical, and the empty record everywhere else.
pub open spec fn spec_load(c: Option<Seq<char>>) -> CheckpointView {
    match c {
        Some(s) => match spec_parse(s) {
            Some(m) => m,
            None => empty_checkpoint_view(),
        },
        None => empty_checkpoint_view(),
    }
}

pub open spec fn opt_str_view(c: Option<&str>) -> Option<Seq<char>> {
    match c {
        Some(s) => Some(s@),
        None => None,
    }
}

/// Loads a checkpoint from the content of its file, if the file existed.
/// A missing or unreadable record is expected on a first run: it yields the
/// empty checkpoint rather than an error.
pub fn load_checkpoint(content: Option<&str>) -> (r: SyncCheckpoint)
    requires
        content matches Some(s) ==> s@.len() < usize::MAX - 100,
    ensures
        r.wf(),
        r@ == spec_load(opt_str_view(content)),
{
    match content {
        Some(s) => match parse_checkpoint(s) {
            Some(cp) => cp,
            None => SyncCheckpoint::empty(),
        },
        None => SyncCheckpoint::empty(),
    }
}

// ---------------------------------------------------------------------------
// The round-trip law
// ---------------------------------------------------------------------------
/// Saving and re-loading a checkpoint is the identity: parsing the canonical
/// serialization of any well-formed record restores exactly that record. In
/// particular, re-saving what was loaded leaves the file content unchanged.
pub proof fn lemma_checkpoint_round_trip(m: CheckpointView)
    requires
        wf_checkpoint_view(m),
    ensures
        spec_parse(spec_serialize(m)) == Some(m),
{
    reveal_strlit("{\"last_source_synced_oid\":");
    reveal_strlit(",\"last_target_synced_oid\":");
    reveal_strlit("\"last_source_synced_oid\"");
    reveal_strlit("\"last_target_synced_oid\"");
    reveal_strlit("}");
    reveal_strlit("null");
    reveal_strlit("\"");
    let p1 = "{\"last_source_synced_oid\":"@;
    let sep = ",\"last_target_synced_oid\":"@;
    let key1 = "\"last_source_synced_oid\""@;
    let key2 = "\"last_target_synced_oid\""@;
    let f1 = spec_field(m.source);
    let f2 = spec_field(m.target);
    let s = spec_serialize(m);
    assert(p1.len() == 26);
    assert(sep.len() == 26);
    assert(key1.len() == 24);
    assert(key2.len() == 24);
    lemma_field_shape(m.source);
    lemma_field_shape(m.target);
    assert(s =~= p1 + f1 + sep + f2 + "}"@);
    let j = 26 + f1.len() as int;
    let k = j + 26 + f2.len() as int;
    assert(s.len() == k + 1);
    assert(s.subrange(0, 26) =~= p1);
    assert(s.subrange(26, j) =~= f1);
    assert(s.subrange(j, j + 26) =~= sep);
    assert(s.subrange(j + 26, k) =~= f2);
    assert(s[k] == '}');
    // The canonical form holds no whitespace: every skip stays in place.
    assert(s[0] == '{' && !is_ws(s[0]));
    assert(spec_skip_ws(s, 0) == 0);
    assert(s.subrange(1, 25) =~= key1);
    assert(s[1] == '"' && !is_ws(s[1]));
    assert(spec_skip_ws(s, 1) == 1);
    assert(s[25] == ':' && !is_ws(s[25]));
    assert(spec_skip_ws(s, 25) == 25);
    assert(s[26] == f1[0] && !is_ws(s[26]));
    assert(spec_skip_ws(s, 26) == 26);
    lemma_value_at(s, 26, m.source);
    assert(spec_value_at(s, 26) == Some((m.source, j)));
    assert(s[j] == ',' && !is_ws(s[j]));
    assert(spec_skip_ws(s, j) == j);
    assert(s.subrange(j + 1, j + 25) =~= key2);
    assert(s[j + 1] == '"' && !is_ws(s[j + 1]));
    assert(spec_skip_ws(s, j + 1) == j + 1);
    assert(s[j + 25] == ':' && !is_ws(s[j + 25]));
    assert(spec_skip_ws(s, j + 25) == j + 25);
    assert(s[j + 26] == f2[0] && !is_ws(s[j + 26]));
    assert(spec_skip_ws(s, j + 26) == j + 26);
    lemma_value_at(s, j + 26, m.target);
    assert(spec_value_at(s, j + 26) == Some((m.target, k)));
    assert(!is_ws(s[k]));
    assert(spec_skip_ws(s, k) == k);
    assert(spec_skip_ws(s, k + 1) == s.len());
    assert(spec_parse(s) == Some(CheckpointView { source: m.source, target: m.target }));
    assert(CheckpointView { source: m.source, target: m.target } =~= m);
}

/// The shape of one serialized field: its length, and its text.
proof fn lemma_field_shape(v: Option<Seq<char>>)
    requires
        v matches Some(h) ==> is_hex_id(h),
    ensures
        v is None ==> spec_field(v).len() == 4,
        v matches Some(h) ==> spec_field(v).len() == 42,
        v matches Some(h) ==> spec_field(v)[0] == '"' && spec_field(v)[41] == '"' && spec_field(
            v,
        ).subrange(1, 41) =~= h,
{
    reveal_strlit("null");
    reveal_strlit("\"");
    match v {
        Some(h) => {
            assert(spec_field(v) =~= "\""@ + h + "\""@);
            assert(spec_field(v).subrange(1, 41) =~= h);
        },
        None => {
        },
    }
}

/// If the slice of `s` at `i` is exactly the serialized field of `v`, then
/// `spec_value_at` reads back `v` there.
proof fn lemma_value_at(s: Seq<char>, i: int, v: Option<Seq<char>>)
    requires
        v matches Some(h) ==> is_hex_id(h),
        0 <= i,
        i + spec_field(v).len() <= s.len(),
        s.subrange(i, i + spec_field(v).len()) =~= spec_field(v),
    ensures
        spec_value_at(s, i) == Some((v, i + spec_field(v).len())),
{
    reveal_strlit("null");
    reveal_strlit("\"");
    lemma_field_shape(v);
    match v {
        None => {
            assert(s.subrange(i, i + 4) =~= "null"@);
        },
        Some(h) => {
            let f = spec_field(v);
            assert(s[i] == f[0]);
            assert(s[i + 41] == f[41]);
            assert(s.subrange(i + 1, i + 41) =~= f.subrange(1, 41));
            assert(s.subrange(i + 1, i + 41) =~= h);
            // The `null` branch cannot fire: the first character is a quote.
            assert("null"@[0] == 'n');
            if i + 4 <= s.len() && s.subrange(i, i + 4) == "null"@ {
                assert(s[i] == 'n');
                assert(false);
            }
        },
    }
}

} // verus!
