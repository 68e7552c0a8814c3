//! Stripping the extended-length path prefix from transfer records.
//!
//! On the platform whose filesystem roots use drive letters, the daemon may
//! report paths with a four-character extended-length marker (`//?/` or
//! `\\?\`) in front of the drive letter. For display, the `srcFs` and `dstFs`
//! fields of every record under the `transferred` key are rewritten with that
//! marker removed; everything else in the document is left untouched.
use vstd::prelude::*;

use crate::json::{arr_view, lemma_arr_view, lemma_obj_view, obj_view, JsonSpec, JsonValue};

verus! {

broadcast use vstd::std_specs::vec::group_vec_axioms, vstd::seq::group_seq_axioms;

/// Whether the characters begin with one of the two four-character
/// extended-length markers, `//?/` or `\\?\`.
pub open spec fn has_ext_prefix(s: Seq<char>) -> bool {
    s.len() >= 4 && ((s[0] == '/' && s[1] == '/' && s[2] == '?' && s[3] == '/') || (s[0] == '\\'
        && s[1] == '\\' && s[2] == '?' && s[3] == '\\'))
}

/// The characters with a leading extended-length marker removed, and
/// unchanged when none is there.
pub open spec fn strip_ext_prefix(s: Seq<char>) -> Seq<char> {
    if has_ext_prefix(s) {
        s.skip(4)
    } else {
        s
    }
}

/// One member of a transfer record: a `dstFs` or `srcFs` string value has its
/// marker stripped; any other key, and any non-string value, stays as it is.
pub open spec fn normalize_field(m: (Seq<char>, JsonSpec)) -> (Seq<char>, JsonSpec) {
    if m.0 == "dstFs"@ || m.0 == "srcFs"@ {
        match m.1 {
            JsonSpec::Text(s) => (m.0, JsonSpec::Text(strip_ext_prefix(s))),
            _ => m,
        }
    } else {
        m
    }
}

/// One transfer record: each member normalized; a record that is not an
/// object stays as it is.
pub open spec fn normalize_record(t: JsonSpec) -> JsonSpec {
    match t {
        JsonSpec::Object(ms) => JsonSpec::Object(ms.map_values(|m: (Seq<char>, JsonSpec)| normalize_field(m))),
        _ => t,
    }
}

/// One member of the response document: the `transferred` array has each of
/// its records normalized; any other key, and a `transferred` value that is
/// not an array, stays as it is.
pub open spec fn normalize_doc_member(m: (Seq<char>, JsonSpec)) -> (Seq<char>, JsonSpec) {
    if m.0 == "transferred"@ {
        match m.1 {
            JsonSpec::Array(ts) => (m.0, JsonSpec::Array(ts.map_values(|t: JsonSpec| normalize_record(t)))),
            _ => m,
        }
    } else {
        m
    }
}

/// A whole response document, as `normalize_doc_member` says; a document that
/// is not an object stays as it is.
pub open spec fn normalize_doc(j: JsonSpec) -> JsonSpec {
    match j {
        JsonSpec::Object(ms) => JsonSpec::Object(ms.map_values(|m: (Seq<char>, JsonSpec)| normalize_doc_member(m))),
        _ => j,
    }
}

/// Removes a leading `//?/` or `\\?\` marker from the path, and returns any
/// other path unchanged.
pub fn normalize_windows_path(path: &str) -> (r: String)
    ensures
        r@ == strip_ext_prefix(path@),
{
    let n = path.unicode_len();
    if n >= 4 {
        let c0 = path.get_char(0);
        let c1 = path.get_char(1);
        let c2 = path.get_char(2);
        let c3 = path.get_char(3);
        if (c0 == '/' && c1 == '/' && c2 == '?' && c3 == '/') || (c0 == '\\' && c1 == '\\' && c2
            == '?' && c3 == '\\') {
            let tail = path.substring_char(4, n);
            proof {
                assert(tail@ =~= path@.skip(4));
            }
            return String::from_str(tail);
        }
    }
    String::from_str(path)
}

/// Normalizes the two path fields of one transfer record.
fn normalize_record_value(t: JsonValue) -> (r: JsonValue)
    ensures
        r@ == normalize_record(t@),
{
    match t {
        JsonValue::Object(members) => {
            let ghost orig: Seq<(String, JsonValue)> = members@;
            let dst_key = String::from_str("dstFs");
            let src_key = String::from_str("srcFs");
            let mut rest = members;
            let mut out: Vec<(String, JsonValue)> = Vec::new();
            let ghost mut i: int = 0;
            while rest.len() > 0
                invariant
                    0 <= i <= orig.len(),
                    rest@ == orig.skip(i),
                    out@.len() == i,
                    dst_key@ == "dstFs"@,
                    src_key@ == "srcFs"@,
                    forall|j: int|
                        0 <= j < i ==> ((#[trigger] out@[j]).0@, out@[j].1@) == normalize_field(
                            (orig[j].0@, orig[j].1@),
                        ),
                decreases rest@.len(),
            {
                let (k, v) = rest.remove(0);
                proof {
                    assert(orig.skip(i)[0] == orig[i]);
                    assert(orig.skip(i).remove(0) =~= orig.skip(i + 1));
                }
                let is_path_field = k.eq(&dst_key) || k.eq(&src_key);
                match v {
                    JsonValue::Text(s) => {
                        if is_path_field {
                            let stripped = normalize_windows_path(s.as_str());
                            out.push((k, JsonValue::Text(stripped)));
                        } else {
                            out.push((k, JsonValue::Text(s)));
                        }
                    },
                    other => {
                        out.push((k, other));
                    },
                }
                proof {
                    i = i + 1;
                }
            }
            proof {
                assert(orig.skip(i).len() == 0);
                assert(i == orig.len());
                lemma_obj_view(out@);
                lemma_obj_view(orig);
                assert(obj_view(out@) =~= obj_view(orig).map_values(
                    |m: (Seq<char>, JsonSpec)| normalize_field(m),
                ));
            }
            JsonValue::Object(out)
        },
        other => other,
    }
}

/// Normalizes every record of the `transferred` array.
fn normalize_record_list(ts: Vec<JsonValue>) -> (r: Vec<JsonValue>)
    ensures
        arr_view(r@) == arr_view(ts@).map_values(|t: JsonSpec| normalize_record(t)),
{
    let ghost orig: Seq<JsonValue> = ts@;
    let mut rest = ts;
    let mut out: Vec<JsonValue> = Vec::new();
    let ghost mut i: int = 0;
    while rest.len() > 0
        invariant
            0 <= i <= orig.len(),
            rest@ == orig.skip(i),
            out@.len() == i,
            forall|j: int| 0 <= j < i ==> (#[trigger] out@[j])@ == normalize_record(orig[j]@),
        decreases rest@.len(),
    {
        let t = rest.remove(0);
        proof {
            assert(orig.skip(i)[0] == orig[i]);
            assert(orig.skip(i).remove(0) =~= orig.skip(i + 1));
        }
        let n = normalize_record_value(t);
        out.push(n);
        proof {
            i = i + 1;
        }
    }
    proof {
        assert(orig.skip(i).len() == 0);
        assert(i == orig.len());
        lemma_arr_view(out@);
        lemma_arr_view(orig);
        assert(arr_view(out@) =~= arr_view(orig).map_values(|t: JsonSpec| normalize_record(t)));
    }
    out
}

/// Rewrites the `dstFs` and `srcFs` fields of every record under the
/// document's `transferred` key, stripping a leading extended-length marker;
/// every other part of the document comes through unchanged.
pub fn normalize_completed_transfers(v: JsonValue) -> (r: JsonValue)
    ensures
        r@ == normalize_doc(v@),
{
    match v {
        JsonValue::Object(members) => {
            let ghost orig: Seq<(String, JsonValue)> = members@;
            let list_key = String::from_str("transferred");
            let mut rest = members;
            let mut out: Vec<(String, JsonValue)> = Vec::new();
            let ghost mut i: int = 0;
            while rest.len() > 0
                invariant
                    0 <= i <= orig.len(),
                    rest@ == orig.skip(i),
                    out@.len() == i,
                    list_key@ == "transferred"@,
                    forall|j: int|
                        0 <= j < i ==> ((#[trigger] out@[j]).0@, out@[j].1@) == normalize_doc_member(
                            (orig[j].0@, orig[j].1@),
                        ),
                decreases rest@.len(),
            {
                let (k, v) = rest.remove(0);
                proof {
                    assert(orig.skip(i)[0] == orig[i]);
                    assert(orig.skip(i).remove(0) =~= orig.skip(i + 1));
                }
                let is_list = k.eq(&list_key);
                match v {
                    JsonValue::Array(ts) => {
                        if is_list {
                            let normalized = normalize_record_list(ts);
                            out.push((k, JsonValue::Array(normalized)));
                        } else {
                            out.push((k, JsonValue::Array(ts)));
                        }
                    },
                    other => {
                        out.push((k, other));
                    },
                }
                proof {
                    i = i + 1;
                }
            }
            proof {
                assert(orig.skip(i).len() == 0);
                assert(i == orig.len());
                lemma_obj_view(out@);
                lemma_obj_view(orig);
                assert(obj_view(out@) =~= obj_view(orig).map_values(
                    |m: (Seq<char>, JsonSpec)| normalize_doc_member(m),
                ));
            }
            JsonValue::Object(out)
        },
        other => other,
    }
}

} // verus!
