//! The provider adapter families: how each explorer's raw JSON envelope is
//! decoded into zero or more normalized source files, and the laws the
//! decoders obey.

use vstd::prelude::*;
use crate::errors::DecodeError;
use crate::json::{spec_get, spec_get_array, spec_get_text, JsonValue};
use crate::normalize::{
    files_view, normalize_sources, spec_detect_doubled, spec_normalize, FileView, SourceFile,
    WrapRule,
};
use crate::strutil::{join_flat, str_eq};

verus! {

/// How a status-gated envelope flags success: the string `"1"`, or the
/// number `1`.
#[derive(Clone, Copy, Debug, PartialEq, Eq, Structural)]
pub enum StatusKind {
    Text,
    Numeric,
}

/// Whether an envelope's `status` field flags success.
pub open spec fn spec_status_ok(envelope: JsonValue, kind: StatusKind) -> bool {
    match kind {
        StatusKind::Text => spec_get_text(envelope, "status"@) == Some("1"@),
        StatusKind::Numeric => spec_get(envelope, "status"@) == Some(JsonValue::Integer(1)),
    }
}

pub fn status_ok(envelope: &JsonValue, kind: StatusKind) -> (r: bool)
    ensures
        r == spec_status_ok(*envelope, kind),
{
    match kind {
        StatusKind::Text => match envelope.get_text("status") {
            Some(t) => str_eq(t, "1"),
            None => false,
        },
        StatusKind::Numeric => match envelope.get("status") {
            Some(x) => match x {
                JsonValue::Integer(i) => *i == 1i64,
                _ => false,
            },
            None => false,
        },
    }
}

/// What one decoding run yields: the normalized files, and whether the
/// provider reported a failure status (zero files, not a fatal error).
#[derive(Debug)]
pub struct DecodeResult {
    pub files: Vec<SourceFile>,
    pub status_failed: bool,
}

/// Files already decoded, prepended to the outcome of the remaining items.
pub open spec fn prepend_files(
    done: Seq<FileView>,
    rest: Result<Seq<FileView>, DecodeError>,
) -> Result<Seq<FileView>, DecodeError> {
    match rest {
        Ok(fs) => Ok(done + fs),
        Err(e) => Err(e),
    }
}

proof fn lemma_prepend_nil(rest: Result<Seq<FileView>, DecodeError>)
    ensures
        prepend_files(Seq::empty(), rest) == rest,
{
    match rest {
        Ok(fs) => {
            assert(Seq::<FileView>::empty() + fs =~= fs);
        },
        Err(_) => {},
    }
}

proof fn lemma_prepend_assoc(
    a: Seq<FileView>,
    b: Seq<FileView>,
    rest: Result<Seq<FileView>, DecodeError>,
)
    ensures
        prepend_files(a, prepend_files(b, rest)) == prepend_files(a + b, rest),
{
    match rest {
        Ok(fs) => {
            assert(a + (b + fs) =~= (a + b) + fs);
        },
        Err(_) => {},
    }
}

proof fn lemma_files_view_concat(a: Seq<SourceFile>, b: Seq<SourceFile>)
    ensures
        files_view(a + b) == files_view(a) + files_view(b),
{
    assert(files_view(a + b) =~= files_view(a) + files_view(b));
}

/// The `SourceCode` blob of one result entry in a status-gated multi-file
/// envelope, with the fallback each unwrapping strategy pairs with when the
/// field is absent or not a string (neither fallback is valid JSON, so the
/// entry then fails to decode).
pub open spec fn item_blob(item: JsonValue, rule: WrapRule) -> Seq<char> {
    match spec_get_text(item, "SourceCode"@) {
        Some(s) => s,
        None => match rule {
            WrapRule::Direct => "Error serde_json"@,
            _ => ""@,
        },
    }
}

/// The files of a status-gated multi-file result list, first fatal decode
/// failure aborting the whole list.
pub open spec fn multi_items_files(
    address: Seq<char>,
    items: Seq<JsonValue>,
    rule: WrapRule,
) -> Result<Seq<FileView>, DecodeError>
    decreases items.len(),
{
    if items.len() == 0 {
        Ok(Seq::empty())
    } else {
        match spec_normalize(address, item_blob(items[0], rule), rule) {
            Err(e) => Err(e),
            Ok(fs) => prepend_files(fs, multi_items_files(address, items.drop_first(), rule)),
        }
    }
}

/// What a status-gated multi-file adapter yields on an envelope: an empty
/// list and a raised flag when the status is not success; otherwise one
/// normalized batch per `result` entry, each unwrapped by the adapter's
/// strategy.
pub open spec fn spec_decode_status_multi(
    address: Seq<char>,
    envelope: JsonValue,
    rule: WrapRule,
    kind: StatusKind,
) -> Result<(Seq<FileView>, bool), DecodeError> {
    if !spec_status_ok(envelope, kind) {
        Ok((Seq::empty(), true))
    } else {
        match spec_get_array(envelope, "result"@) {
            None => Err(DecodeError::ResultNotArray),
            Some(items) => match multi_items_files(address, items, rule) {
                Ok(fs) => Ok((fs, false)),
                Err(e) => Err(e),
            },
        }
    }
}

/// Decode a status-gated multi-file envelope.
pub fn decode_status_multi(
    address: &str,
    envelope: &JsonValue,
    rule: WrapRule,
    kind: StatusKind,
) -> (r: Result<DecodeResult, DecodeError>)
    ensures
        match r {
            Ok(d) => spec_decode_status_multi(address@, *envelope, rule, kind) == Ok::<
                (Seq<FileView>, bool),
                DecodeError,
            >((files_view(d.files@), d.status_failed)),
            Err(e) => spec_decode_status_multi(address@, *envelope, rule, kind) == Err::<
                (Seq<FileView>, bool),
                DecodeError,
            >(e),
        },
{
    if !status_ok(envelope, kind) {
        let d = DecodeResult { files: Vec::new(), status_failed: true };
        proof {
            assert(files_view(d.files@) =~= Seq::<FileView>::empty());
        }
        return Ok(d);
    }
    let items = match envelope.get_array("result") {
        Some(a) => a,
        None => {
            return Err(DecodeError::ResultNotArray);
        },
    };
    let n = items.len();
    let mut files: Vec<SourceFile> = Vec::new();
    let mut i: usize = 0;
    proof {
        assert(items@.skip(0) =~= items@);
        assert(files_view(files@) =~= Seq::<FileView>::empty());
        lemma_prepend_nil(multi_items_files(address@, items@, rule));
    }
    while i < n
        invariant
            i <= n,
            n == items@.len(),
            spec_status_ok(*envelope, kind),
            spec_get_array(*envelope, "result"@) == Some(items@),
            multi_items_files(address@, items@, rule) == prepend_files(
                files_view(files@),
                multi_items_files(address@, items@.skip(i as int), rule),
            ),
        decreases n - i,
    {
        proof {
            assert(items@.skip(i as int)[0] == items@[i as int]);
            assert(items@.skip(i as int).drop_first() =~= items@.skip(i as int + 1));
        }
        let item = &items[i];
        let blob: &str = match item.get_text("SourceCode") {
            Some(s) => s,
            None => match rule {
                WrapRule::Direct => "Error serde_json",
                _ => "",
            },
        };
        proof {
            assert(blob@ == item_blob(items@[i as int], rule));
        }
        match normalize_sources(address, blob, rule) {
            Err(e) => {
                proof {
                    assert(multi_items_files(address@, items@.skip(i as int), rule) == Err::<
                        Seq<FileView>,
                        DecodeError,
                    >(e));
                }
                return Err(e);
            },
            Ok(mut fs) => {
                proof {
                    assert(multi_items_files(address@, items@.skip(i as int), rule)
                        == prepend_files(
                        files_view(fs@),
                        multi_items_files(address@, items@.skip(i as int + 1), rule),
                    ));
                    lemma_prepend_assoc(
                        files_view(files@),
                        files_view(fs@),
                        multi_items_files(address@, items@.skip(i as int + 1), rule),
                    );
                    lemma_files_view_concat(files@, fs@);
                }
                files.append(&mut fs);
            },
        }
        i = i + 1;
    }
    proof {
        assert(items@.skip(n as int) =~= Seq::<JsonValue>::empty());
        assert(files_view(files@) + Seq::<FileView>::empty() =~= files_view(files@));
    }
    Ok(DecodeResult { files, status_failed: false })
}

/// The `SourceCode` blob of one mixed-format result entry, with the fixed
/// placeholder substituted when the field is absent or not a string.
pub open spec fn mixed_code(item: JsonValue) -> Seq<char> {
    match spec_get_text(item, "SourceCode"@) {
        Some(s) => s,
        None => "Error: No source code"@,
    }
}

/// The contract name of one mixed-format result entry, with the fixed
/// placeholder substituted when the field is absent or not a string.
pub open spec fn flat_name(item: JsonValue) -> Seq<char> {
    match spec_get_text(item, "ContractName"@) {
        Some(s) => s,
        None => "Error: No contract name"@,
    }
}

/// The files of one mixed-format result entry: an empty blob is skipped; a
/// blob carrying the doubled-brace convention is unwrapped and flattened as
/// a multi-file document; any other blob is one flat file, named after the
/// contract, content verbatim.
pub open spec fn mixed_item_files(address: Seq<char>, item: JsonValue) -> Result<
    Seq<FileView>,
    DecodeError,
> {
    let code = mixed_code(item);
    if code.len() == 0 {
        Ok(Seq::empty())
    } else if spec_detect_doubled(code) {
        spec_normalize(address, code, WrapRule::StripDetected)
    } else {
        Ok(
            seq![
                FileView { path: address + "/"@ + flat_name(item) + ".sol"@, content: code },
            ],
        )
    }
}

/// The files of a mixed-format result list, first fatal decode failure
/// aborting the whole list.
pub open spec fn mixed_items_files(address: Seq<char>, items: Seq<JsonValue>) -> Result<
    Seq<FileView>,
    DecodeError,
>
    decreases items.len(),
{
    if items.len() == 0 {
        Ok(Seq::empty())
    } else {
        match mixed_item_files(address, items[0]) {
            Err(e) => Err(e),
            Ok(fs) => prepend_files(fs, mixed_items_files(address, items.drop_first())),
        }
    }
}

/// What the mixed single/multi adapter family yields on an envelope.
pub open spec fn spec_decode_mixed(address: Seq<char>, envelope: JsonValue) -> Result<
    (Seq<FileView>, bool),
    DecodeError,
> {
    if !spec_status_ok(envelope, StatusKind::Text) {
        Ok((Seq::empty(), true))
    } else {
        match spec_get_array(envelope, "result"@) {
            None => Err(DecodeError::ResultNotArray),
            Some(items) => match mixed_items_files(address, items) {
                Ok(fs) => Ok((fs, false)),
                Err(e) => Err(e),
            },
        }
    }
}

/// Decode a mixed single/multi envelope.
pub fn decode_mixed(address: &str, envelope: &JsonValue) -> (r: Result<DecodeResult, DecodeError>)
    ensures
        match r {
            Ok(d) => spec_decode_mixed(address@, *envelope) == Ok::<
                (Seq<FileView>, bool),
                DecodeError,
            >((files_view(d.files@), d.status_failed)),
            Err(e) => spec_decode_mixed(address@, *envelope) == Err::<
                (Seq<FileView>, bool),
                DecodeError,
            >(e),
        },
{
    if !status_ok(envelope, StatusKind::Text) {
        let d = DecodeResult { files: Vec::new(), status_failed: true };
        proof {
            assert(files_view(d.files@) =~= Seq::<FileView>::empty());
        }
        return Ok(d);
    }
    let items = match envelope.get_array("result") {
        Some(a) => a,
        None => {
            return Err(DecodeError::ResultNotArray);
        },
    };
    let n = items.len();
    let mut files: Vec<SourceFile> = Vec::new();
    let mut i: usize = 0;
    proof {
        assert(items@.skip(0) =~= items@);
        assert(files_view(files@) =~= Seq::<FileView>::empty());
        lemma_prepend_nil(mixed_items_files(address@, items@));
    }
    while i < n
        invariant
            i <= n,
            n == items@.len(),
            spec_status_ok(*envelope, StatusKind::Text),
            spec_get_array(*envelope, "result"@) == Some(items@),
            mixed_items_files(address@, items@) == prepend_files(
                files_view(files@),
                mixed_items_files(address@, items@.skip(i as int)),
            ),
        decreases n - i,
    {
        proof {
            assert(items@.skip(i as int)[0] == items@[i as int]);
            assert(items@.skip(i as int).drop_first() =~= items@.skip(i as int + 1));
        }
        let item = &items[i];
        let code: &str = match item.get_text("SourceCode") {
            Some(s) => s,
            None => "Error: No source code",
        };
        proof {
            assert(code@ == mixed_code(items@[i as int]));
        }
        if code.is_empty() {
            proof {
                lemma_prepend_nil(mixed_items_files(address@, items@.skip(i as int + 1)));
            }
            i = i + 1;
            continue ;
        }
        if crate::normalize::detect_doubled(code) {
            match normalize_sources(address, code, WrapRule::StripDetected) {
                Err(e) => {
                    proof {
                        assert(mixed_items_files(address@, items@.skip(i as int)) == Err::<
                            Seq<FileView>,
                            DecodeError,
                        >(e));
                    }
                    return Err(e);
                },
                Ok(mut fs) => {
                    proof {
                        lemma_prepend_assoc(
                            files_view(files@),
                            files_view(fs@),
                            mixed_items_files(address@, items@.skip(i as int + 1)),
                        );
                        lemma_files_view_concat(files@, fs@);
                    }
                    files.append(&mut fs);
                },
            }
        } else {
            let name: &str = match item.get_text("ContractName") {
                Some(s) => s,
                None => "Error: No contract name",
            };
            let flat = SourceFile { path: join_flat(address, name), content: code.to_owned() };
            proof {
                assert(flat@ == FileView {
                    path: address@ + "/"@ + flat_name(items@[i as int]) + ".sol"@,
                    content: mixed_code(items@[i as int]),
                });
                assert(mixed_item_files(address@, items@[i as int]) == Ok::<
                    Seq<FileView>,
                    DecodeError,
                >(seq![flat@]));
                lemma_prepend_assoc(
                    files_view(files@),
                    seq![flat@],
                    mixed_items_files(address@, items@.skip(i as int + 1)),
                );
                assert(files_view(files@.push(flat)) =~= files_view(files@) + seq![flat@]);
            }
            files.push(flat);
        }
        i = i + 1;
    }
    proof {
        assert(items@.skip(n as int) =~= Seq::<JsonValue>::empty());
        assert(files_view(files@) + Seq::<FileView>::empty() =~= files_view(files@));
    }
    Ok(DecodeResult { files, status_failed: false })
}

/// One entry of a single-file explorer's `additional_sources` array, with
/// the fixed placeholders substituted for absent fields.
pub open spec fn extra_file(address: Seq<char>, item: JsonValue) -> FileView {
    FileView {
        path: address + "/"@ + (match spec_get_text(item, "file_path"@) {
            Some(p) => p,
            None => "Error: No additional_sources file path"@,
        }),
        content: match spec_get_text(item, "source_code"@) {
            Some(c) => c,
            None => "Error: No additional_sources code"@,
        },
    }
}

/// What a single-file explorer's envelope yields: the mandatory main source
/// (its absence is the one fatal decoding failure of this family), followed
/// by one file per `additional_sources` entry.
pub open spec fn spec_decode_single_file(address: Seq<char>, envelope: JsonValue) -> Result<
    Seq<FileView>,
    DecodeError,
> {
    match spec_get_text(envelope, "source_code"@) {
        None => Err(DecodeError::MissingSourceCode),
        Some(main) => {
            let main_file = FileView {
                path: address + "/"@ + (match spec_get_text(envelope, "file_path"@) {
                    Some(p) => p,
                    None => "Error: No main file path"@,
                }),
                content: main,
            };
            let extras = match spec_get_array(envelope, "additional_sources"@) {
                Some(items) => items.map_values(|it: JsonValue| extra_file(address, it)),
                None => Seq::empty(),
            };
            Ok(seq![main_file] + extras)
        },
    }
}

/// Decode a single-file explorer envelope.
pub fn decode_single_file(address: &str, envelope: &JsonValue) -> (r: Result<
    Vec<SourceFile>,
    DecodeError,
>)
    ensures
        match r {
            Ok(files) => spec_decode_single_file(address@, *envelope) == Ok::<
                Seq<FileView>,
                DecodeError,
            >(files_view(files@)),
            Err(e) => spec_decode_single_file(address@, *envelope) == Err::<
                Seq<FileView>,
                DecodeError,
            >(e),
        },
{
    let main = match envelope.get_text("source_code") {
        Some(c) => c,
        None => {
            return Err(DecodeError::MissingSourceCode);
        },
    };
    let main_path = match envelope.get_text("file_path") {
        Some(p) => crate::strutil::join_path(address, p),
        None => crate::strutil::join_path(address, "Error: No main file path"),
    };
    let mut files: Vec<SourceFile> = Vec::new();
    files.push(SourceFile { path: main_path, content: main.to_owned() });
    match envelope.get_array("additional_sources") {
        None => {
            proof {
                assert(files_view(files@) =~= seq![files@[0]@] + Seq::<FileView>::empty());
            }
            Ok(files)
        },
        Some(items) => {
            let n = items.len();
            let mut i: usize = 0;
            while i < n
                invariant
                    i <= n,
                    n == items@.len(),
                    spec_get_array(*envelope, "additional_sources"@) == Some(items@),
                    files@.len() == i + 1,
                    files@[0]@ == (FileView {
                        path: address@ + "/"@ + (match spec_get_text(*envelope, "file_path"@) {
                            Some(p) => p,
                            None => "Error: No main file path"@,
                        }),
                        content: spec_get_text(*envelope, "source_code"@)->Some_0,
                    }),
                    spec_get_text(*envelope, "source_code"@) is Some,
                    forall|k: int|
                        1 <= k < i + 1 ==> files@[k]@ == extra_file(address@, items@[k - 1]),
                decreases n - i,
            {
                let item = &items[i];
                let path = match item.get_text("file_path") {
                    Some(p) => crate::strutil::join_path(address, p),
                    None => crate::strutil::join_path(
                        address,
                        "Error: No additional_sources file path",
                    ),
                };
                let content: String = match item.get_text("source_code") {
                    Some(c) => c.to_owned(),
                    None => "Error: No additional_sources code".to_owned(),
                };
                files.push(SourceFile { path, content });
                i = i + 1;
            }
            proof {
                let extras = items@.map_values(|it: JsonValue| extra_file(address@, it));
                assert(files_view(files@) =~= seq![files@[0]@] + extras);
            }
            Ok(files)
        },
    }
}

/// Provider-status law: on any envelope whose status flag is not success, a
/// status-gated decoder yields zero files and the raised status flag, never
/// a fatal error.
pub proof fn lemma_status_error_yields_empty(
    address: Seq<char>,
    envelope: JsonValue,
    rule: WrapRule,
    kind: StatusKind,
)
    requires
        !spec_status_ok(envelope, kind),
    ensures
        spec_decode_status_multi(address, envelope, rule, kind) == Ok::<
            (Seq<FileView>, bool),
            DecodeError,
        >((Seq::<FileView>::empty(), true)),
        kind is Text ==> spec_decode_mixed(address, envelope) == Ok::<
            (Seq<FileView>, bool),
            DecodeError,
        >((Seq::<FileView>::empty(), true)),
{
}

/// Skip law of the mixed family: a result entry with an empty `SourceCode`
/// blob contributes no file, and the remaining entries decode exactly as if
/// that entry were absent.
pub proof fn lemma_mixed_skips_empty_source(address: Seq<char>, items: Seq<JsonValue>, i: int)
    requires
        0 <= i < items.len(),
        mixed_code(items[i]).len() == 0,
    ensures
        mixed_item_files(address, items[i]) == Ok::<Seq<FileView>, DecodeError>(Seq::empty()),
        mixed_items_files(address, items) == mixed_items_files(address, items.remove(i)),
    decreases i,
{
    if i == 0 {
        lemma_prepend_nil(mixed_items_files(address, items.drop_first()));
        assert(items.remove(0) =~= items.drop_first());
    } else {
        lemma_mixed_skips_empty_source(address, items.drop_first(), i - 1);
        assert(items.remove(i).drop_first() =~= items.drop_first().remove(i - 1));
        assert(items.remove(i)[0] == items[0]);
    }
}

/// Flat-source law of the mixed family: a non-empty `SourceCode` blob that
/// does not carry the doubled-brace convention, together with a present
/// `ContractName`, yields exactly one file, named `<address>/<name>.sol`,
/// whose content is the blob verbatim.
pub proof fn lemma_mixed_flat_single_file(address: Seq<char>, item: JsonValue, name: Seq<char>)
    requires
        mixed_code(item).len() > 0,
        !spec_detect_doubled(mixed_code(item)),
        spec_get_text(item, "ContractName"@) == Some(name),
    ensures
        mixed_item_files(address, item) == Ok::<Seq<FileView>, DecodeError>(
            seq![
                FileView {
                    path: address + "/"@ + name + ".sol"@,
                    content: mixed_code(item),
                },
            ],
        ),
{
}

} // verus!
