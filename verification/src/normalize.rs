//! The source normalizer: the shared decoding rules that unwrap the
//! "JSON-encoded multi-file source" convention (with its brace-escaping
//! variants) and flatten a parsed `sources` mapping into address-scoped
//! (path, content) pairs.

use vstd::prelude::*;
use vstd::string::StrSliceExecFns;
use vstd::string::StringExecFns;
use crate::errors::DecodeError;
use crate::json::{parse_json, json_of, spec_get_object, spec_get_text, JsonValue};
use crate::strutil::join_path;

verus! {

/// The Unicode white-space characters, as `char::is_whitespace` counts them.
pub open spec fn is_space(c: char) -> bool {
    let u = c as u32;
    u == 0x09 || u == 0x0A || u == 0x0B || u == 0x0C || u == 0x0D || u == 0x20 || u == 0x85
        || u == 0xA0 || u == 0x1680 || (0x2000 <= u && u <= 0x200A) || u == 0x2028 || u == 0x2029
        || u == 0x202F || u == 0x205F || u == 0x3000
}

fn is_space_char(c: char) -> (r: bool)
    ensures
        r == is_space(c),
{
    let u = c as u32;
    u == 0x09 || u == 0x0A || u == 0x0B || u == 0x0C || u == 0x0D || u == 0x20 || u == 0x85
        || u == 0xA0 || u == 0x1680 || (0x2000 <= u && u <= 0x200A) || u == 0x2028 || u == 0x2029
        || u == 0x202F || u == 0x205F || u == 0x3000
}

/// How many white-space characters the text begins with.
pub open spec fn ws_prefix_len(s: Seq<char>) -> nat
    decreases s.len(),
{
    if s.len() > 0 && is_space(s[0]) {
        1 + ws_prefix_len(s.drop_first())
    } else {
        0
    }
}

/// How many white-space characters the text ends with.
pub open spec fn ws_suffix_len(s: Seq<char>) -> nat
    decreases s.len(),
{
    if s.len() > 0 && is_space(s.last()) {
        1 + ws_suffix_len(s.drop_last())
    } else {
        0
    }
}

/// The text with leading and trailing white space removed.
pub open spec fn trimmed(s: Seq<char>) -> Seq<char> {
    let p = ws_prefix_len(s) as int;
    if p == s.len() {
        Seq::empty()
    } else {
        s.subrange(p, s.len() - ws_suffix_len(s) as int)
    }
}

proof fn lemma_ws_prefix_props(s: Seq<char>)
    ensures
        ws_prefix_len(s) <= s.len(),
        forall|k: int| 0 <= k < ws_prefix_len(s) ==> is_space(s[k]),
        ws_prefix_len(s) < s.len() ==> !is_space(s[ws_prefix_len(s) as int]),
    decreases s.len(),
{
    if s.len() > 0 && is_space(s[0]) {
        lemma_ws_prefix_props(s.drop_first());
        assert forall|k: int| 0 <= k < ws_prefix_len(s) implies is_space(s[k]) by {
            if k > 0 {
                assert(s.drop_first()[k - 1] == s[k]);
            }
        }
    }
}

proof fn lemma_ws_suffix_props(s: Seq<char>)
    ensures
        ws_suffix_len(s) <= s.len(),
        forall|k: int| s.len() - ws_suffix_len(s) <= k < s.len() ==> is_space(s[k]),
    decreases s.len(),
{
    if s.len() > 0 && is_space(s.last()) {
        lemma_ws_suffix_props(s.drop_last());
        assert forall|k: int| s.len() - ws_suffix_len(s) <= k < s.len() implies is_space(
            s[k],
        ) by {
            if k < s.len() - 1 {
                assert(s.drop_last()[k] == s[k]);
            }
        }
    }
}

proof fn lemma_ws_prefix_at(s: Seq<char>, n: int)
    requires
        0 <= n <= s.len(),
        forall|k: int| 0 <= k < n ==> is_space(s[k]),
        n < s.len() ==> !is_space(s[n]),
    ensures
        ws_prefix_len(s) == n,
    decreases n,
{
    if n == 0 {
    } else {
        lemma_ws_prefix_at(s.drop_first(), n - 1);
    }
}

proof fn lemma_ws_suffix_at(s: Seq<char>, n: int)
    requires
        0 <= n <= s.len(),
        forall|k: int| s.len() - n <= k < s.len() ==> is_space(s[k]),
        n < s.len() ==> !is_space(s[s.len() - 1 - n]),
    ensures
        ws_suffix_len(s) == n,
    decreases n,
{
    if n == 0 {
    } else {
        lemma_ws_suffix_at(s.drop_last(), n - 1);
    }
}

/// Leading white-space count of a text.
fn ws_prefix(s: &str) -> (r: usize)
    ensures
        r == ws_prefix_len(s@),
{
    let n = s.unicode_len();
    let mut i: usize = 0;
    while i < n
        invariant
            i <= n,
            n == s@.len(),
            forall|k: int| 0 <= k < i ==> is_space(s@[k]),
        ensures
            i <= n,
            n == s@.len(),
            forall|k: int| 0 <= k < i ==> is_space(s@[k]),
            i == n || !is_space(s@[i as int]),
        decreases n - i,
    {
        if !is_space_char(s.get_char(i)) {
            break ;
        }
        i = i + 1;
    }
    proof {
        lemma_ws_prefix_at(s@, i as int);
    }
    i
}

/// Trailing white-space count of a text.
fn ws_suffix(s: &str) -> (r: usize)
    ensures
        r == ws_suffix_len(s@),
{
    let n = s.unicode_len();
    let mut j: usize = 0;
    while j < n
        invariant
            j <= n,
            n == s@.len(),
            forall|k: int| n - j <= k < n ==> is_space(s@[k]),
        ensures
            j <= n,
            n == s@.len(),
            forall|k: int| n - j <= k < n ==> is_space(s@[k]),
            j == n || !is_space(s@[n - 1 - j as int]),
        decreases n - j,
    {
        if !is_space_char(s.get_char(n - 1 - j)) {
            break ;
        }
        j = j + 1;
    }
    proof {
        lemma_ws_suffix_at(s@, j as int);
    }
    j
}

/// Whether a source blob carries the doubled-brace convention: after
/// trimming, it starts with `{{` and ends with `}}`.
pub open spec fn spec_detect_doubled(s: Seq<char>) -> bool {
    let t = trimmed(s);
    t.len() >= 2 && t[0] == '{' && t[1] == '{' && t[t.len() - 2] == '}' && t[t.len() - 1] == '}'
}

/// The string-sniffing step of the mixed decoding strategy.
pub fn detect_doubled(s: &str) -> (r: bool)
    ensures
        r == spec_detect_doubled(s@),
{
    let n = s.unicode_len();
    let p = ws_prefix(s);
    if p == n {
        return false;
    }
    let q = ws_suffix(s);
    proof {
        lemma_ws_prefix_props(s@);
        lemma_ws_suffix_props(s@);
        // the first non-space character cannot lie inside the space suffix
        assert(p < n - q) by {
            if p >= n - q {
                assert(is_space(s@[p as int]));
            }
        }
    }
    let end = n - q;
    if end - p < 2 {
        return false;
    }
    let r = s.get_char(p) == '{' && s.get_char(p + 1) == '{' && s.get_char(end - 2) == '}'
        && s.get_char(end - 1) == '}';
    proof {
        let t = trimmed(s@);
        assert(t =~= s@.subrange(p as int, end as int));
        assert(t[0] == s@[p as int]);
        assert(t[1] == s@[p as int + 1]);
        assert(t[t.len() - 2] == s@[end as int - 2]);
        assert(t[t.len() - 1] == s@[end as int - 1]);
    }
    r
}

/// One outer brace pair removed: the first character (which must be `{`) and
/// the last character (which must be `}`); anything else leaves nothing, as
/// a failed prefix or suffix strip does.
pub open spec fn strip_outer(s: Seq<char>) -> Seq<char> {
    if s.len() >= 1 && s[0] == '{' {
        let t = s.drop_first();
        if t.len() >= 1 && t.last() == '}' {
            t.drop_last()
        } else {
            Seq::empty()
        }
    } else {
        Seq::empty()
    }
}

/// Doubled occurrences of `c` collapsed to single ones, scanning from the
/// left without overlap, as one `str::replace` of `cc` by `c` does.
pub open spec fn collapse_pairs(s: Seq<char>, c: char) -> Seq<char>
    decreases s.len(),
{
    if s.len() >= 2 && s[0] == c && s[1] == c {
        seq![c] + collapse_pairs(s.skip(2), c)
    } else if s.len() >= 1 {
        seq![s[0]] + collapse_pairs(s.skip(1), c)
    } else {
        Seq::empty()
    }
}

fn collapse_pairs_exec(s: &str, c: char) -> (r: String)
    ensures
        r@ == collapse_pairs(s@, c),
{
    let n = s.unicode_len();
    let mut out = String::new();
    let mut i: usize = 0;
    proof {
        assert(s@.skip(0) =~= s@);
        assert(out@ + collapse_pairs(s@, c) =~= collapse_pairs(s@, c));
    }
    while i < n
        invariant
            i <= n,
            n == s@.len(),
            collapse_pairs(s@, c) == out@ + collapse_pairs(s@.skip(i as int), c),
        decreases n - i,
    {
        let piece = s.substring_char(i, i + 1);
        proof {
            assert(piece@ =~= seq![s@[i as int]]);
            assert(s@.skip(i as int)[0] == s@[i as int]);
            if i + 1 < n {
                assert(s@.skip(i as int)[1] == s@[i as int + 1]);
            }
        }
        if s.get_char(i) == c && i + 1 < n && s.get_char(i + 1) == c {
            proof {
                assert(s@.skip(i as int).skip(2) =~= s@.skip(i as int + 2));
                assert(collapse_pairs(s@.skip(i as int), c) == seq![c] + collapse_pairs(
                    s@.skip(i as int + 2),
                    c,
                ));
                assert(out@ + (seq![c] + collapse_pairs(s@.skip(i as int + 2), c)) =~= (out@
                    + seq![c]) + collapse_pairs(s@.skip(i as int + 2), c));
                assert(piece@ =~= seq![c]);
            }
            out.append(piece);
            proof {
                assert(collapse_pairs(s@, c) == out@ + collapse_pairs(s@.skip(i as int + 2), c));
            }
            i = i + 2;
        } else {
            proof {
                assert(s@.skip(i as int).skip(1) =~= s@.skip(i as int + 1));
                assert(collapse_pairs(s@.skip(i as int), c) == seq![s@[i as int]] + collapse_pairs(
                    s@.skip(i as int + 1),
                    c,
                ));
                assert(out@ + (seq![s@[i as int]] + collapse_pairs(s@.skip(i as int + 1), c)) =~= (
                out@ + seq![s@[i as int]]) + collapse_pairs(s@.skip(i as int + 1), c));
            }
            out.append(piece);
            proof {
                assert(collapse_pairs(s@, c) == out@ + collapse_pairs(s@.skip(i as int + 1), c));
            }
            i = i + 1;
        }
    }
    proof {
        assert(s@.skip(n as int) =~= Seq::<char>::empty());
        assert(collapse_pairs(s@, c) =~= out@);
    }
    out
}

/// The named unwrapping strategies a status-gated adapter may apply to a
/// `SourceCode` blob before parsing it as JSON.
#[derive(Clone, Copy, Debug, PartialEq, Eq, Structural)]
pub enum WrapRule {
    /// The blob is already a bare JSON object.
    Direct,
    /// When the doubled-brace convention is detected, strip exactly one
    /// leading `{` and one trailing `}`; an undetected blob is left whole, so
    /// that no needed character is removed from an unwrapped document.
    StripDetected,
    /// Collapse `{{` to `{` and then `}}` to `}` by literal substring
    /// replacement.
    CollapseDoubled,
}

/// What each unwrapping strategy yields on a blob.
pub open spec fn spec_unwrap(s: Seq<char>, rule: WrapRule) -> Seq<char> {
    match rule {
        WrapRule::Direct => s,
        WrapRule::StripDetected => if spec_detect_doubled(s) {
            strip_outer(s)
        } else {
            s
        },
        WrapRule::CollapseDoubled => collapse_pairs(collapse_pairs(s, '{'), '}'),
    }
}

/// Apply an unwrapping strategy to a source blob.
pub fn unwrap_source(s: &str, rule: WrapRule) -> (r: String)
    ensures
        r@ == spec_unwrap(s@, rule),
{
    match rule {
        WrapRule::Direct => s.to_owned(),
        WrapRule::StripDetected => {
            if detect_doubled(s) {
                let n = s.unicode_len();
                if n >= 2 && s.get_char(0) == '{' && s.get_char(n - 1) == '}' {
                    let core = s.substring_char(1, n - 1);
                    proof {
                        assert(s@.drop_first().drop_last() =~= s@.subrange(1, n - 1));
                    }
                    core.to_owned()
                } else {
                    proof {
                        assert(strip_outer(s@) =~= Seq::<char>::empty());
                    }
                    String::new()
                }
            } else {
                s.to_owned()
            }
        },
        WrapRule::CollapseDoubled => {
            let once = collapse_pairs_exec(s, '{');
            collapse_pairs_exec(once.as_str(), '}')
        },
    }
}

/// One canonical output unit: a file path already scoped under its contract
/// address, and the file's decoded content.
#[derive(Debug)]
pub struct SourceFile {
    pub path: String,
    pub content: String,
}

/// The mathematical image of a `SourceFile`.
pub ghost struct FileView {
    pub path: Seq<char>,
    pub content: Seq<char>,
}

impl View for SourceFile {
    type V = FileView;

    open spec fn view(&self) -> FileView {
        FileView { path: self.path@, content: self.content@ }
    }
}

pub open spec fn files_view(files: Seq<SourceFile>) -> Seq<FileView> {
    files.map_values(|f: SourceFile| f@)
}

/// The file one `sources` entry denotes: the path scoped under the address,
/// the content read from the entry's `content` field, with the fixed
/// placeholder substituted when that field is absent or not a string.
pub open spec fn entry_file(address: Seq<char>, e: (String, JsonValue)) -> FileView {
    FileView {
        path: address + "/"@ + e.0@,
        content: match spec_get_text(e.1, "content"@) {
            Some(c) => c,
            None => "Error: No content"@,
        },
    }
}

pub open spec fn entries_files(address: Seq<char>, entries: Seq<(String, JsonValue)>) -> Seq<
    FileView,
> {
    entries.map_values(|e: (String, JsonValue)| entry_file(address, e))
}

/// All files of a parsed multi-file document: one per entry of its `sources`
/// object, none when that object is absent.
pub open spec fn spec_sources_files(address: Seq<char>, doc: JsonValue) -> Seq<FileView> {
    match spec_get_object(doc, "sources"@) {
        Some(entries) => entries_files(address, entries),
        None => Seq::empty(),
    }
}

/// Flatten the `sources` mapping of a parsed document into one file per
/// entry, each path scoped under the contract address.
pub fn sources_files(address: &str, doc: &JsonValue) -> (r: Vec<SourceFile>)
    ensures
        files_view(r@) == spec_sources_files(address@, *doc),
{
    let mut out: Vec<SourceFile> = Vec::new();
    match doc.get_object("sources") {
        None => {
            proof {
                assert(files_view(out@) =~= spec_sources_files(address@, *doc));
            }
            out
        },
        Some(entries) => {
            let n = entries.len();
            let mut i: usize = 0;
            while i < n
                invariant
                    i <= n,
                    n == entries@.len(),
                    spec_get_object(*doc, "sources"@) == Some(entries@),
                    out@.len() == i,
                    forall|k: int|
                        0 <= k < i ==> out@[k]@ == entry_file(address@, entries@[k]),
                decreases n - i,
            {
                let path = join_path(address, entries[i].0.as_str());
                let content: String = match entries[i].1.get_text("content") {
                    Some(c) => c.to_owned(),
                    None => "Error: No content".to_owned(),
                };
                out.push(SourceFile { path, content });
                i = i + 1;
            }
            proof {
                assert(files_view(out@) =~= entries_files(address@, entries@));
            }
            out
        },
    }
}

/// What normalizing one source blob yields: unwrap it by the strategy, parse
/// the result as JSON, and flatten its `sources` mapping; a parse failure is
/// fatal.
pub open spec fn spec_normalize(address: Seq<char>, source_code: Seq<char>, rule: WrapRule) -> Result<
    Seq<FileView>,
    DecodeError,
> {
    match json_of(spec_unwrap(source_code, rule)) {
        Some(doc) => Ok(spec_sources_files(address, doc)),
        None => Err(DecodeError::InvalidJson),
    }
}

/// Unwrap a `SourceCode` blob, parse it, and flatten its `sources` mapping.
pub fn normalize_sources(address: &str, source_code: &str, rule: WrapRule) -> (r: Result<
    Vec<SourceFile>,
    DecodeError,
>)
    ensures
        match r {
            Ok(files) => spec_normalize(address@, source_code@, rule) == Ok::<
                Seq<FileView>,
                DecodeError,
            >(files_view(files@)),
            Err(e) => spec_normalize(address@, source_code@, rule) == Err::<
                Seq<FileView>,
                DecodeError,
            >(e),
        },
{
    let unwrapped = unwrap_source(source_code, rule);
    match parse_json(unwrapped.as_str()) {
        Ok(doc) => Ok(sources_files(address, &doc)),
        Err(e) => Err(e),
    }
}

} // verus!
