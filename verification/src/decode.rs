//! Decoding a JSON document into the typed response records.
//!
//! The rules are those of the response schema: a record is read from an
//! object; a field the object leaves out defaults to empty or zero; a field
//! the object holds with the wrong type fails the decode; anything that is
//! not an object where a record is expected fails the decode. Every decoder
//! returns `None` exactly where its specification function does.
use vstd::prelude::*;

use crate::json::{jsons_view, lemma_arr_view, Json, JsonVal};
use crate::types::{
    seq_view, CheckCidNftResponse, CheckCidNftResponseV, CheckNFTValue, CheckNFTValueV, Deals,
    DealsV, Files, FilesV, GetNftResponse, GetNftResponseV, ListNftResponse, ListNftResponseV,
    NftValue, NftValueV, Pin, PinV, StoreNftResponse, StoreNftResponseV,
};

verus! {

broadcast use vstd::std_specs::vec::group_vec_axioms, vstd::seq::group_seq_axioms;

/// A string field: absent means empty, any value but a string fails.
pub open spec fn spec_str_field(j: JsonVal, k: Seq<char>) -> Option<Seq<char>> {
    match j.field(k) {
        None => Some(Seq::empty()),
        Some(JsonVal::Str(s)) => Some(s),
        Some(_) => None,
    }
}

/// An integer field: absent means zero, any value but a number in the `i32`
/// range fails.
pub open spec fn spec_i32_field(j: JsonVal, k: Seq<char>) -> Option<i32> {
    match j.field(k) {
        None => Some(0),
        Some(JsonVal::Num(n)) => match n {
            Some(v) => if i32::MIN as i64 <= v && v <= i32::MAX as i64 {
                Some(v as i32)
            } else {
                None
            },
            None => None,
        },
        Some(_) => None,
    }
}

/// A boolean field: absent means false, any value but a boolean fails.
pub open spec fn spec_bool_field(j: JsonVal, k: Seq<char>) -> Option<bool> {
    match j.field(k) {
        None => Some(false),
        Some(JsonVal::Bool(b)) => Some(b),
        Some(_) => None,
    }
}

/// Each element of `a` decoded by `f`, in order; one failure fails the whole.
pub open spec fn decode_seq_with<X>(a: Seq<JsonVal>, f: spec_fn(JsonVal) -> Option<X>) -> Option<
    Seq<X>,
>
    decreases a.len(),
{
    if a.len() == 0 {
        Some(Seq::empty())
    } else {
        match (decode_seq_with(a.drop_last(), f), f(a.last())) {
            (Some(r), Some(x)) => Some(r.push(x)),
            _ => None,
        }
    }
}

/// One failing element fails the decode of the whole array.
pub proof fn lemma_decode_seq_with_fail<X>(a: Seq<JsonVal>, f: spec_fn(JsonVal) -> Option<X>, i: int)
    requires
        0 <= i < a.len(),
        f(a[i]) is None,
    ensures
        decode_seq_with(a, f) is None,
    decreases a.len(),
{
    if i < a.len() - 1 {
        lemma_decode_seq_with_fail(a.drop_last(), f, i);
        assert(a.drop_last()[i] == a[i]);
    }
}

/// One file record of an entry.
pub open spec fn spec_decode_files(j: JsonVal) -> Option<FilesV> {
    if !(j is Obj) {
        None
    } else {
        match (spec_str_field(j, "name"@), spec_str_field(j, "file_type"@)) {
            (Some(name), Some(file_type)) => Some(FilesV { name, file_type }),
            _ => None,
        }
    }
}

/// An array of file records.
pub open spec fn spec_decode_files_seq(a: Seq<JsonVal>) -> Option<Seq<FilesV>> {
    decode_seq_with(a, |x: JsonVal| spec_decode_files(x))
}

/// One storage deal record.
pub open spec fn spec_decode_deal(j: JsonVal) -> Option<DealsV> {
    if !(j is Obj) {
        None
    } else {
        match (
            spec_str_field(j, "batchRootCid"@),
            spec_str_field(j, "lastChanged"@),
            spec_str_field(j, "miner"@),
            spec_str_field(j, "pieceCid"@),
            spec_str_field(j, "status"@),
            spec_str_field(j, "statusText"@),
            spec_i32_field(j, "chainDealID"@),
            spec_str_field(j, "dealActivation"@),
            spec_str_field(j, "dealExpiration"@),
            spec_str_field(j, "datamodelSelector"@),
        ) {
            (
                Some(batch_root_cid),
                Some(last_changed),
                Some(miner),
                Some(piece_cid),
                Some(status),
                Some(status_text),
                Some(chain_deal_id),
                Some(deal_activation),
                Some(deal_expiration),
                Some(data_model_selector),
            ) => Some(
                DealsV {
                    batch_root_cid,
                    last_changed,
                    miner,
                    piece_cid,
                    status,
                    status_text,
                    chain_deal_id,
                    deal_activation,
                    deal_expiration,
                    data_model_selector,
                },
            ),
            _ => None,
        }
    }
}

/// An array of storage deal records.
pub open spec fn spec_decode_deals_seq(a: Seq<JsonVal>) -> Option<Seq<DealsV>> {
    decode_seq_with(a, |x: JsonVal| spec_decode_deal(x))
}

/// One element of a link array: it must be a string.
pub open spec fn spec_decode_link(j: JsonVal) -> Option<Seq<char>> {
    match j {
        JsonVal::Str(s) => Some(s),
        _ => None,
    }
}

/// An array of strings.
pub open spec fn spec_decode_links_seq(a: Seq<JsonVal>) -> Option<Seq<Seq<char>>> {
    decode_seq_with(a, |x: JsonVal| spec_decode_link(x))
}

/// The pin record: absent means the empty record, a non-object fails.
pub open spec fn spec_decode_pin(j: JsonVal) -> Option<PinV> {
    if !(j is Obj) {
        None
    } else {
        match (
            spec_str_field(j, "cid"@),
            spec_str_field(j, "status"@),
            spec_str_field(j, "created"@),
            spec_i32_field(j, "size"@),
        ) {
            (Some(cid), Some(status), Some(created), Some(size)) => Some(
                PinV { cid, status, created, size },
            ),
            _ => None,
        }
    }
}

/// A field holding a pin record: absent means the empty record.
pub open spec fn spec_pin_field(j: JsonVal, k: Seq<char>) -> Option<PinV> {
    match j.field(k) {
        None => Some(PinV::empty()),
        Some(p) => spec_decode_pin(p),
    }
}

/// A field holding an array of file records: absent means none.
pub open spec fn spec_files_field(j: JsonVal, k: Seq<char>) -> Option<Seq<FilesV>> {
    match j.field(k) {
        None => Some(Seq::empty()),
        Some(JsonVal::Arr(a)) => spec_decode_files_seq(a),
        Some(_) => None,
    }
}

/// A field holding an array of storage deal records: absent means none.
pub open spec fn spec_deals_field(j: JsonVal, k: Seq<char>) -> Option<Seq<DealsV>> {
    match j.field(k) {
        None => Some(Seq::empty()),
        Some(JsonVal::Arr(a)) => spec_decode_deals_seq(a),
        Some(_) => None,
    }
}

/// A field holding an array of strings: absent means none.
pub open spec fn spec_links_field(j: JsonVal, k: Seq<char>) -> Option<Seq<Seq<char>>> {
    match j.field(k) {
        None => Some(Seq::empty()),
        Some(JsonVal::Arr(a)) => spec_decode_links_seq(a),
        Some(_) => None,
    }
}

/// One stored entry.
pub open spec fn spec_decode_value(j: JsonVal) -> Option<NftValueV> {
    if !(j is Obj) {
        None
    } else {
        match (
            spec_str_field(j, "cid"@),
            spec_i32_field(j, "size"@),
            spec_str_field(j, "created"@),
            spec_str_field(j, "file_type"@),
            spec_str_field(j, "scope"@),
            spec_pin_field(j, "pin"@),
            spec_files_field(j, "files"@),
            spec_deals_field(j, "deals"@),
            spec_links_field(j, "link"@),
        ) {
            (
                Some(cid),
                Some(size),
                Some(created),
                Some(file_type),
                Some(scope),
                Some(pin),
                Some(files),
                Some(deals),
                Some(link),
            ) => Some(NftValueV { cid, size, created, file_type, scope, pin, files, deals, link }),
            _ => None,
        }
    }
}

/// An array of stored entries.
pub open spec fn spec_decode_values_seq(a: Seq<JsonVal>) -> Option<Seq<NftValueV>> {
    decode_seq_with(a, |x: JsonVal| spec_decode_value(x))
}

/// A field holding an array of stored entries: absent means none.
pub open spec fn spec_values_field(j: JsonVal, k: Seq<char>) -> Option<Seq<NftValueV>> {
    match j.field(k) {
        None => Some(Seq::empty()),
        Some(JsonVal::Arr(a)) => spec_decode_values_seq(a),
        Some(_) => None,
    }
}

/// The listing response.
pub open spec fn spec_decode_list(j: JsonVal) -> Option<ListNftResponseV> {
    if !(j is Obj) {
        None
    } else {
        match (spec_bool_field(j, "ok"@), spec_values_field(j, "value"@)) {
            (Some(ok), Some(value)) => Some(ListNftResponseV { ok, value }),
            _ => None,
        }
    }
}

/// A field holding one stored entry: absent means the empty record.
pub open spec fn spec_value_field(j: JsonVal, k: Seq<char>) -> Option<NftValueV> {
    match j.field(k) {
        None => Some(NftValueV::empty()),
        Some(v) => spec_decode_value(v),
    }
}

/// The upload response.
pub open spec fn spec_decode_store(j: JsonVal) -> Option<StoreNftResponseV> {
    if !(j is Obj) {
        None
    } else {
        match (spec_bool_field(j, "ok"@), spec_value_field(j, "value"@)) {
            (Some(ok), Some(value)) => Some(StoreNftResponseV { ok, value }),
            _ => None,
        }
    }
}

/// The fetch response.
pub open spec fn spec_decode_get(j: JsonVal) -> Option<GetNftResponseV> {
    if !(j is Obj) {
        None
    } else {
        match (spec_bool_field(j, "ok"@), spec_value_field(j, "value"@)) {
            (Some(ok), Some(value)) => Some(GetNftResponseV { ok, value }),
            _ => None,
        }
    }
}

/// The deletion response.
pub open spec fn spec_decode_delete(j: JsonVal) -> Option<crate::types::DeleteNftResponseV> {
    if !(j is Obj) {
        None
    } else {
        match spec_bool_field(j, "ok"@) {
            Some(ok) => Some(crate::types::DeleteNftResponseV { ok }),
            None => None,
        }
    }
}

/// What the existence check reports of an entry.
pub open spec fn spec_decode_check_value(j: JsonVal) -> Option<CheckNFTValueV> {
    if !(j is Obj) {
        None
    } else {
        match (
            spec_str_field(j, "cid"@),
            spec_pin_field(j, "pin"@),
            spec_deals_field(j, "deals"@),
        ) {
            (Some(cid), Some(pin), Some(deals)) => Some(CheckNFTValueV { cid, pin, deals }),
            _ => None,
        }
    }
}

/// A field holding the existence check's entry: absent means the empty record.
pub open spec fn spec_check_value_field(j: JsonVal, k: Seq<char>) -> Option<CheckNFTValueV> {
    match j.field(k) {
        None => Some(CheckNFTValueV::empty()),
        Some(v) => spec_decode_check_value(v),
    }
}

/// The existence check response.
pub open spec fn spec_decode_check(j: JsonVal) -> Option<CheckCidNftResponseV> {
    if !(j is Obj) {
        None
    } else {
        match (spec_bool_field(j, "ok"@), spec_check_value_field(j, "value"@)) {
            (Some(ok), Some(value)) => Some(CheckCidNftResponseV { ok, value }),
            _ => None,
        }
    }
}

/// Read a string field. Mirrors [`spec_str_field`].
fn str_field(j: &Json, key: &String) -> (r: Option<String>)
    ensures
        (match r {
            Some(s) => spec_str_field(j@, key@) == Some(s@),
            None => spec_str_field(j@, key@) is None,
        }),
{
    match j.field(key) {
        None => Some(String::new()),
        Some(Json::Str(s)) => Some(s.clone()),
        Some(_) => None,
    }
}

/// Read an integer field. Mirrors [`spec_i32_field`].
fn i32_field(j: &Json, key: &String) -> (r: Option<i32>)
    ensures
        (match r {
            Some(v) => spec_i32_field(j@, key@) == Some(v),
            None => spec_i32_field(j@, key@) is None,
        }),
{
    match j.field(key) {
        None => Some(0),
        Some(Json::Num(n)) => match n {
            Some(v) => {
                let v: i64 = *v;
                if i32::MIN as i64 <= v && v <= i32::MAX as i64 {
                    Some(v as i32)
                } else {
                    None
                }
            },
            None => None,
        },
        Some(_) => None,
    }
}

/// Read a boolean field. Mirrors [`spec_bool_field`].
fn bool_field(j: &Json, key: &String) -> (r: Option<bool>)
    ensures
        (match r {
            Some(b) => spec_bool_field(j@, key@) == Some(b),
            None => spec_bool_field(j@, key@) is None,
        }),
{
    match j.field(key) {
        None => Some(false),
        Some(Json::Bool(b)) => Some(*b),
        Some(_) => None,
    }
}

/// Decode one file record. Mirrors [`spec_decode_files`].
pub fn decode_files(j: &Json) -> (r: Option<Files>)
    ensures
        (match r {
            Some(v) => spec_decode_files(j@) == Some(v@),
            None => spec_decode_files(j@) is None,
        }),
{
    match j {
        Json::Obj(_) => {},
        _ => {
            return None;
        },
    }
    let name = match str_field(j, &"name".to_owned()) {
        Some(x) => x,
        None => {
            return None;
        },
    };
    let file_type = match str_field(j, &"file_type".to_owned()) {
        Some(x) => x,
        None => {
            return None;
        },
    };
    Some(Files { name, file_type })
}

/// Decode one storage deal record. Mirrors [`spec_decode_deal`].
pub fn decode_deal(j: &Json) -> (r: Option<Deals>)
    ensures
        (match r {
            Some(v) => spec_decode_deal(j@) == Some(v@),
            None => spec_decode_deal(j@) is None,
        }),
{
    match j {
        Json::Obj(_) => {},
        _ => {
            return None;
        },
    }
    let batch_root_cid = match str_field(j, &"batchRootCid".to_owned()) {
        Some(x) => x,
        None => {
            return None;
        },
    };
    let last_changed = match str_field(j, &"lastChanged".to_owned()) {
        Some(x) => x,
        None => {
            return None;
        },
    };
    let miner = match str_field(j, &"miner".to_owned()) {
        Some(x) => x,
        None => {
            return None;
        },
    };
    let piece_cid = match str_field(j, &"pieceCid".to_owned()) {
        Some(x) => x,
        None => {
            return None;
        },
    };
    let status = match str_field(j, &"status".to_owned()) {
        Some(x) => x,
        None => {
            return None;
        },
    };
    let status_text = match str_field(j, &"statusText".to_owned()) {
        Some(x) => x,
        None => {
            return None;
        },
    };
    let chain_deal_id = match i32_field(j, &"chainDealID".to_owned()) {
        Some(x) => x,
        None => {
            return None;
        },
    };
    let deal_activation = match str_field(j, &"dealActivation".to_owned()) {
        Some(x) => x,
        None => {
            return None;
        },
    };
    let deal_expiration = match str_field(j, &"dealExpiration".to_owned()) {
        Some(x) => x,
        None => {
            return None;
        },
    };
    let data_model_selector = match str_field(j, &"datamodelSelector".to_owned()) {
        Some(x) => x,
        None => {
            return None;
        },
    };
    Some(
        Deals {
            batch_root_cid,
            last_changed,
            miner,
            piece_cid,
            status,
            status_text,
            chain_deal_id,
            deal_activation,
            deal_expiration,
            data_model_selector,
        },
    )
}

/// Decode the pin record. Mirrors [`spec_decode_pin`].
pub fn decode_pin(j: &Json) -> (r: Option<Pin>)
    ensures
        (match r {
            Some(v) => spec_decode_pin(j@) == Some(v@),
            None => spec_decode_pin(j@) is None,
        }),
{
    match j {
        Json::Obj(_) => {},
        _ => {
            return None;
        },
    }
    let cid = match str_field(j, &"cid".to_owned()) {
        Some(x) => x,
        None => {
            return None;
        },
    };
    let status = match str_field(j, &"status".to_owned()) {
        Some(x) => x,
        None => {
            return None;
        },
    };
    let created = match str_field(j, &"created".to_owned()) {
        Some(x) => x,
        None => {
            return None;
        },
    };
    let size = match i32_field(j, &"size".to_owned()) {
        Some(x) => x,
        None => {
            return None;
        },
    };
    Some(Pin { cid, status, created, size })
}

/// Decode an array of file records. Mirrors [`spec_decode_files_seq`].
pub fn decode_files_arr(a: &Vec<Json>) -> (r: Option<Vec<Files>>)
    ensures
        (match r {
            Some(v) => spec_decode_files_seq(jsons_view(a@)) == Some(seq_view(v@)),
            None => spec_decode_files_seq(jsons_view(a@)) is None,
        }),
{
    let ghost av = jsons_view(a@);
    let mut out: Vec<Files> = Vec::new();
    let mut i: usize = 0;
    proof {
        assert(av.take(0) =~= Seq::<JsonVal>::empty());
        assert(seq_view(out@) =~= Seq::<FilesV>::empty());
    }
    while i < a.len()
        invariant
            0 <= i <= a@.len(),
            av == jsons_view(a@),
            av.len() == a@.len(),
            spec_decode_files_seq(av.take(i as int)) == Some(seq_view(out@)),
        decreases a@.len() - i,
    {
        proof {
            assert(av[i as int] == a@[i as int]@);
        }
        match decode_files(&a[i]) {
            Some(f) => {
                let ghost prev = seq_view(out@);
                let ghost fv = f@;
                out.push(f);
                proof {
                    assert(av.take(i + 1).drop_last() =~= av.take(i as int));
                    assert(av.take(i + 1).last() == av[i as int]);
                    assert(seq_view(out@) =~= prev.push(fv));
                }
            },
            None => {
                proof {
                    lemma_decode_seq_with_fail(av, |x: JsonVal| spec_decode_files(x), i as int);
                }
                return None;
            },
        }
        i = i + 1;
    }
    proof {
        assert(av.take(i as int) =~= av);
    }
    Some(out)
}

/// Decode an array of storage deal records. Mirrors [`spec_decode_deals_seq`].
pub fn decode_deals_arr(a: &Vec<Json>) -> (r: Option<Vec<Deals>>)
    ensures
        (match r {
            Some(v) => spec_decode_deals_seq(jsons_view(a@)) == Some(seq_view(v@)),
            None => spec_decode_deals_seq(jsons_view(a@)) is None,
        }),
{
    let ghost av = jsons_view(a@);
    let mut out: Vec<Deals> = Vec::new();
    let mut i: usize = 0;
    proof {
        assert(av.take(0) =~= Seq::<JsonVal>::empty());
        assert(seq_view(out@) =~= Seq::<DealsV>::empty());
    }
    while i < a.len()
        invariant
            0 <= i <= a@.len(),
            av == jsons_view(a@),
            av.len() == a@.len(),
            spec_decode_deals_seq(av.take(i as int)) == Some(seq_view(out@)),
        decreases a@.len() - i,
    {
        proof {
            assert(av[i as int] == a@[i as int]@);
        }
        match decode_deal(&a[i]) {
            Some(d) => {
                let ghost prev = seq_view(out@);
                let ghost dv = d@;
                out.push(d);
                proof {
                    assert(av.take(i + 1).drop_last() =~= av.take(i as int));
                    assert(av.take(i + 1).last() == av[i as int]);
                    assert(seq_view(out@) =~= prev.push(dv));
                }
            },
            None => {
                proof {
                    lemma_decode_seq_with_fail(av, |x: JsonVal| spec_decode_deal(x), i as int);
                }
                return None;
            },
        }
        i = i + 1;
    }
    proof {
        assert(av.take(i as int) =~= av);
    }
    Some(out)
}

/// Decode an array of strings. Mirrors [`spec_decode_links_seq`].
pub fn decode_links_arr(a: &Vec<Json>) -> (r: Option<Vec<String>>)
    ensures
        (match r {
            Some(v) => spec_decode_links_seq(jsons_view(a@)) == Some(seq_view(v@)),
            None => spec_decode_links_seq(jsons_view(a@)) is None,
        }),
{
    let ghost av = jsons_view(a@);
    let mut out: Vec<String> = Vec::new();
    let mut i: usize = 0;
    proof {
        assert(av.take(0) =~= Seq::<JsonVal>::empty());
        assert(seq_view(out@) =~= Seq::<Seq<char>>::empty());
    }
    while i < a.len()
        invariant
            0 <= i <= a@.len(),
            av == jsons_view(a@),
            av.len() == a@.len(),
            spec_decode_links_seq(av.take(i as int)) == Some(seq_view(out@)),
        decreases a@.len() - i,
    {
        proof {
            assert(av[i as int] == a@[i as int]@);
        }
        match &a[i] {
            Json::Str(s) => {
                let ghost prev = seq_view(out@);
                let sc = s.clone();
                let ghost sv = sc@;
                out.push(sc);
                proof {
                    assert(av.take(i + 1).drop_last() =~= av.take(i as int));
                    assert(av.take(i + 1).last() == av[i as int]);
                    assert(seq_view(out@) =~= prev.push(sv));
                }
            },
            _ => {
                proof {
                    lemma_decode_seq_with_fail(av, |x: JsonVal| spec_decode_link(x), i as int);
                }
                return None;
            },
        }
        i = i + 1;
    }
    proof {
        assert(av.take(i as int) =~= av);
    }
    Some(out)
}

/// Read the pin field. Mirrors [`spec_pin_field`].
fn pin_field(j: &Json, key: &String) -> (r: Option<Pin>)
    ensures
        (match r {
            Some(v) => spec_pin_field(j@, key@) == Some(v@),
            None => spec_pin_field(j@, key@) is None,
        }),
{
    match j.field(key) {
        None => Some(Pin::default()),
        Some(p) => decode_pin(p),
    }
}

/// Read the files field. Mirrors [`spec_files_field`].
fn files_field(j: &Json, key: &String) -> (r: Option<Vec<Files>>)
    ensures
        (match r {
            Some(v) => spec_files_field(j@, key@) == Some(seq_view(v@)),
            None => spec_files_field(j@, key@) is None,
        }),
{
    match j.field(key) {
        None => {
            let v: Vec<Files> = Vec::new();
            proof {
                assert(seq_view(v@) =~= Seq::<FilesV>::empty());
            }
            Some(v)
        },
        Some(p) => match p {
            Json::Arr(a) => {
                proof {
                    lemma_arr_view(*p, *a);
                }
                decode_files_arr(a)
            },
            _ => None,
        },
    }
}

/// Read the deals field. Mirrors [`spec_deals_field`].
fn deals_field(j: &Json, key: &String) -> (r: Option<Vec<Deals>>)
    ensures
        (match r {
            Some(v) => spec_deals_field(j@, key@) == Some(seq_view(v@)),
            None => spec_deals_field(j@, key@) is None,
        }),
{
    match j.field(key) {
        None => {
            let v: Vec<Deals> = Vec::new();
            proof {
                assert(seq_view(v@) =~= Seq::<DealsV>::empty());
            }
            Some(v)
        },
        Some(p) => match p {
            Json::Arr(a) => {
                proof {
                    lemma_arr_view(*p, *a);
                }
                decode_deals_arr(a)
            },
            _ => None,
        },
    }
}

/// Read the link field. Mirrors [`spec_links_field`].
fn links_field(j: &Json, key: &String) -> (r: Option<Vec<String>>)
    ensures
        (match r {
            Some(v) => spec_links_field(j@, key@) == Some(seq_view(v@)),
            None => spec_links_field(j@, key@) is None,
        }),
{
    match j.field(key) {
        None => {
            let v: Vec<String> = Vec::new();
            proof {
                assert(seq_view(v@) =~= Seq::<Seq<char>>::empty());
            }
            Some(v)
        },
        Some(p) => match p {
            Json::Arr(a) => {
                proof {
                    lemma_arr_view(*p, *a);
                }
                decode_links_arr(a)
            },
            _ => None,
        },
    }
}

/// Decode one stored entry. Mirrors [`spec_decode_value`].
pub fn decode_value(j: &Json) -> (r: Option<NftValue>)
    ensures
        (match r {
            Some(v) => spec_decode_value(j@) == Some(v@),
            None => spec_decode_value(j@) is None,
        }),
{
    match j {
        Json::Obj(_) => {},
        _ => {
            return None;
        },
    }
    let cid = match str_field(j, &"cid".to_owned()) {
        Some(x) => x,
        None => {
            return None;
        },
    };
    let size = match i32_field(j, &"size".to_owned()) {
        Some(x) => x,
        None => {
            return None;
        },
    };
    let created = match str_field(j, &"created".to_owned()) {
        Some(x) => x,
        None => {
            return None;
        },
    };
    let file_type = match str_field(j, &"file_type".to_owned()) {
        Some(x) => x,
        None => {
            return None;
        },
    };
    let scope = match str_field(j, &"scope".to_owned()) {
        Some(x) => x,
        None => {
            return None;
        },
    };
    let pin = match pin_field(j, &"pin".to_owned()) {
        Some(x) => x,
        None => {
            return None;
        },
    };
    let files = match files_field(j, &"files".to_owned()) {
        Some(x) => x,
        None => {
            return None;
        },
    };
    let deals = match deals_field(j, &"deals".to_owned()) {
        Some(x) => x,
        None => {
            return None;
        },
    };
    let link = match links_field(j, &"link".to_owned()) {
        Some(x) => x,
        None => {
            return None;
        },
    };
    Some(NftValue { cid, size, created, file_type, scope, pin, files, deals, link })
}

/// Decode an array of stored entries. Mirrors [`spec_decode_values_seq`].
pub fn decode_values_arr(a: &Vec<Json>) -> (r: Option<Vec<NftValue>>)
    ensures
        (match r {
            Some(v) => spec_decode_values_seq(jsons_view(a@)) == Some(seq_view(v@)),
            None => spec_decode_values_seq(jsons_view(a@)) is None,
        }),
{
    let ghost av = jsons_view(a@);
    let mut out: Vec<NftValue> = Vec::new();
    let mut i: usize = 0;
    proof {
        assert(av.take(0) =~= Seq::<JsonVal>::empty());
        assert(seq_view(out@) =~= Seq::<NftValueV>::empty());
    }
    while i < a.len()
        invariant
            0 <= i <= a@.len(),
            av == jsons_view(a@),
            av.len() == a@.len(),
            spec_decode_values_seq(av.take(i as int)) == Some(seq_view(out@)),
        decreases a@.len() - i,
    {
        proof {
            assert(av[i as int] == a@[i as int]@);
        }
        match decode_value(&a[i]) {
            Some(v) => {
                let ghost prev = seq_view(out@);
                let ghost vv = v@;
                out.push(v);
                proof {
                    assert(av.take(i + 1).drop_last() =~= av.take(i as int));
                    assert(av.take(i + 1).last() == av[i as int]);
                    assert(seq_view(out@) =~= prev.push(vv));
                }
            },
            None => {
                proof {
                    lemma_decode_seq_with_fail(av, |x: JsonVal| spec_decode_value(x), i as int);
                }
                return None;
            },
        }
        i = i + 1;
    }
    proof {
        assert(av.take(i as int) =~= av);
    }
    Some(out)
}

/// Read the field holding the page of stored entries. Mirrors
/// [`spec_values_field`].
fn values_field(j: &Json, key: &String) -> (r: Option<Vec<NftValue>>)
    ensures
        (match r {
            Some(v) => spec_values_field(j@, key@) == Some(seq_view(v@)),
            None => spec_values_field(j@, key@) is None,
        }),
{
    match j.field(key) {
        None => {
            let v: Vec<NftValue> = Vec::new();
            proof {
                assert(seq_view(v@) =~= Seq::<NftValueV>::empty());
            }
            Some(v)
        },
        Some(p) => match p {
            Json::Arr(a) => {
                proof {
                    lemma_arr_view(*p, *a);
                }
                decode_values_arr(a)
            },
            _ => None,
        },
    }
}

/// Decode the listing response. Mirrors [`spec_decode_list`].
pub fn decode_list(j: &Json) -> (r: Option<ListNftResponse>)
    ensures
        (match r {
            Some(v) => spec_decode_list(j@) == Some(v@),
            None => spec_decode_list(j@) is None,
        }),
{
    match j {
        Json::Obj(_) => {},
        _ => {
            return None;
        },
    }
    let ok = match bool_field(j, &"ok".to_owned()) {
        Some(x) => x,
        None => {
            return None;
        },
    };
    let value = match values_field(j, &"value".to_owned()) {
        Some(x) => x,
        None => {
            return None;
        },
    };
    Some(ListNftResponse { ok, value })
}

/// Read the field holding one stored entry. Mirrors [`spec_value_field`].
fn value_field(j: &Json, key: &String) -> (r: Option<NftValue>)
    ensures
        (match r {
            Some(v) => spec_value_field(j@, key@) == Some(v@),
            None => spec_value_field(j@, key@) is None,
        }),
{
    match j.field(key) {
        None => Some(NftValue::default()),
        Some(p) => decode_value(p),
    }
}

/// Decode the upload response. Mirrors [`spec_decode_store`].
pub fn decode_store(j: &Json) -> (r: Option<StoreNftResponse>)
    ensures
        (match r {
            Some(v) => spec_decode_store(j@) == Some(v@),
            None => spec_decode_store(j@) is None,
        }),
{
    match j {
        Json::Obj(_) => {},
        _ => {
            return None;
        },
    }
    let ok = match bool_field(j, &"ok".to_owned()) {
        Some(x) => x,
        None => {
            return None;
        },
    };
    let value = match value_field(j, &"value".to_owned()) {
        Some(x) => x,
        None => {
            return None;
        },
    };
    Some(StoreNftResponse { ok, value })
}

/// Decode the fetch response. Mirrors [`spec_decode_get`].
pub fn decode_get(j: &Json) -> (r: Option<GetNftResponse>)
    ensures
        (match r {
            Some(v) => spec_decode_get(j@) == Some(v@),
            None => spec_decode_get(j@) is None,
        }),
{
    match j {
        Json::Obj(_) => {},
        _ => {
            return None;
        },
    }
    let ok = match bool_field(j, &"ok".to_owned()) {
        Some(x) => x,
        None => {
            return None;
        },
    };
    let value = match value_field(j, &"value".to_owned()) {
        Some(x) => x,
        None => {
            return None;
        },
    };
    Some(GetNftResponse { ok, value })
}

/// Decode the deletion response. Mirrors [`spec_decode_delete`].
pub fn decode_delete(j: &Json) -> (r: Option<crate::types::DeleteNftResponse>)
    ensures
        (match r {
            Some(v) => spec_decode_delete(j@) == Some(v@),
            None => spec_decode_delete(j@) is None,
        }),
{
    match j {
        Json::Obj(_) => {},
        _ => {
            return None;
        },
    }
    let ok = match bool_field(j, &"ok".to_owned()) {
        Some(x) => x,
        None => {
            return None;
        },
    };
    Some(crate::types::DeleteNftResponse { ok })
}

/// Decode what the existence check reports of an entry. Mirrors
/// [`spec_decode_check_value`].
pub fn decode_check_value(j: &Json) -> (r: Option<CheckNFTValue>)
    ensures
        (match r {
            Some(v) => spec_decode_check_value(j@) == Some(v@),
            None => spec_decode_check_value(j@) is None,
        }),
{
    match j {
        Json::Obj(_) => {},
        _ => {
            return None;
        },
    }
    let cid = match str_field(j, &"cid".to_owned()) {
        Some(x) => x,
        None => {
            return None;
        },
    };
    let pin = match pin_field(j, &"pin".to_owned()) {
        Some(x) => x,
        None => {
            return None;
        },
    };
    let deals = match deals_field(j, &"deals".to_owned()) {
        Some(x) => x,
        None => {
            return None;
        },
    };
    Some(CheckNFTValue { cid, pin, deals })
}

/// Read the field holding the existence check's entry. Mirrors
/// [`spec_check_value_field`].
fn check_value_field(j: &Json, key: &String) -> (r: Option<CheckNFTValue>)
    ensures
        (match r {
            Some(v) => spec_check_value_field(j@, key@) == Some(v@),
            None => spec_check_value_field(j@, key@) is None,
        }),
{
    match j.field(key) {
        None => Some(CheckNFTValue::default()),
        Some(p) => decode_check_value(p),
    }
}

/// Decode the existence check response. Mirrors [`spec_decode_check`].
pub fn decode_check(j: &Json) -> (r: Option<CheckCidNftResponse>)
    ensures
        (match r {
            Some(v) => spec_decode_check(j@) == Some(v@),
            None => spec_decode_check(j@) is None,
        }),
{
    match j {
        Json::Obj(_) => {},
        _ => {
            return None;
        },
    }
    let ok = match bool_field(j, &"ok".to_owned()) {
        Some(x) => x,
        None => {
            return None;
        },
    };
    let value = match check_value_field(j, &"value".to_owned()) {
        Some(x) => x,
        None => {
            return None;
        },
    };
    Some(CheckCidNftResponse { ok, value })
}

} // verus!
