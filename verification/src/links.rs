//! Convenience links derived for stored entries, and the metadata-only view
//! of a listing.
//!
//! For an entry with identifier `cid` the service's content can be reached
//! three ways: through the subdomain gateway, through the public gateway, and
//! under the native scheme. A listing restricted to metadata entries keeps
//! only the entries whose first file is the metadata file, and its links
//! point at that file.
use vstd::prelude::*;

use vstd::string::StringExecFns;

use crate::types::{seq_view, NftValue, NftValueV};

verus! {

broadcast use vstd::std_specs::vec::group_vec_axioms, vstd::seq::group_seq_axioms;

/// The subdomain gateway URL for `cid`.
pub open spec fn gateway_link(cid: Seq<char>) -> Seq<char> {
    "https://"@ + cid + ".ipfs.dweb.link"@
}

/// The public gateway URL for `cid`.
pub open spec fn public_gateway_link(cid: Seq<char>) -> Seq<char> {
    "https://ipfs.io/ipfs/"@ + cid
}

/// The native-scheme URL for `cid`.
pub open spec fn native_link(cid: Seq<char>) -> Seq<char> {
    "ipfs://"@ + cid
}

/// The three convenience links of an entry, in order: gateway, public
/// gateway, native scheme.
pub open spec fn entry_links(cid: Seq<char>) -> Seq<Seq<char>> {
    seq![gateway_link(cid), public_gateway_link(cid), native_link(cid)]
}

/// The subdomain gateway URL of the metadata file of `cid`.
pub open spec fn metadata_gateway_link(cid: Seq<char>) -> Seq<char> {
    "https://"@ + cid + ".ipfs.dweb.link/metadata.json"@
}

/// The public gateway URL of the metadata file of `cid`.
pub open spec fn metadata_public_gateway_link(cid: Seq<char>) -> Seq<char> {
    "https://ipfs.io/ipfs/"@ + cid + "/metadata.json"@
}

/// The native-scheme URL of the metadata file of `cid`.
pub open spec fn metadata_native_link(cid: Seq<char>) -> Seq<char> {
    "ipfs://"@ + cid + "/metadata.json"@
}

/// The three convenience links of a metadata entry, in order: gateway,
/// public gateway, native scheme.
pub open spec fn metadata_entry_links(cid: Seq<char>) -> Seq<Seq<char>> {
    seq![
        metadata_gateway_link(cid),
        metadata_public_gateway_link(cid),
        metadata_native_link(cid),
    ]
}

/// The entry with its convenience links set.
pub open spec fn plain_decorated(v: NftValueV) -> NftValueV {
    NftValueV { link: entry_links(v.cid), ..v }
}

/// The entry with the convenience links of its metadata file set.
pub open spec fn metadata_decorated(v: NftValueV) -> NftValueV {
    NftValueV { link: metadata_entry_links(v.cid), ..v }
}

/// Whether the entry is a metadata entry: its first file is the metadata
/// file.
pub open spec fn is_metadata_entry(v: NftValueV) -> bool {
    v.files.len() > 0 && v.files[0].name == "metadata.json"@
}

/// Every entry of the listing, each with its convenience links set.
pub open spec fn spec_decorate_all(vs: Seq<NftValueV>) -> Seq<NftValueV> {
    Seq::new(vs.len(), |i: int| plain_decorated(vs[i]))
}

/// The metadata entries of the listing, in order, each with the convenience
/// links of its metadata file set.
pub open spec fn spec_metadata_listing(vs: Seq<NftValueV>) -> Seq<NftValueV>
    decreases vs.len(),
{
    if vs.len() == 0 {
        Seq::empty()
    } else {
        let rest = spec_metadata_listing(vs.drop_first());
        if is_metadata_entry(vs[0]) {
            seq![metadata_decorated(vs[0])] + rest
        } else {
            rest
        }
    }
}

/// Law: a listing restricted to metadata entries holds only entries whose
/// first file is the metadata file.
pub proof fn lemma_metadata_listing_only_metadata(vs: Seq<NftValueV>)
    ensures
        forall|i: int| 0 <= i < spec_metadata_listing(vs).len() ==> #[trigger] is_metadata_entry(
            spec_metadata_listing(vs)[i],
        ),
    decreases vs.len(),
{
    if vs.len() > 0 {
        lemma_metadata_listing_only_metadata(vs.drop_first());
        if is_metadata_entry(vs[0]) {
            assert forall|i: int| 0 <= i < spec_metadata_listing(vs).len() implies #[trigger] is_metadata_entry(
                spec_metadata_listing(vs)[i],
            ) by {
                if i > 0 {
                    assert(spec_metadata_listing(vs)[i] == spec_metadata_listing(vs.drop_first())[
                        i - 1
                    ]);
                }
            }
        }
    }
}

/// Build the three convenience links for `cid`: the gateway URL, the public
/// gateway URL and the native-scheme URL, in that order.
pub fn convenience_links(cid: &String) -> (r: Vec<String>)
    ensures
        seq_view(r@) == entry_links(cid@),
{
    let l1 = String::from_str("https://").concat(cid.as_str()).concat(".ipfs.dweb.link");
    let l2 = String::from_str("https://ipfs.io/ipfs/").concat(cid.as_str());
    let l3 = String::from_str("ipfs://").concat(cid.as_str());
    let mut r: Vec<String> = Vec::new();
    r.push(l1);
    r.push(l2);
    r.push(l3);
    proof {
        assert(seq_view(r@) =~= entry_links(cid@));
    }
    r
}

/// Build the three convenience links for the metadata file of `cid`, in the
/// same order.
pub fn metadata_convenience_links(cid: &String) -> (r: Vec<String>)
    ensures
        seq_view(r@) == metadata_entry_links(cid@),
{
    let l1 = String::from_str("https://").concat(cid.as_str()).concat(
        ".ipfs.dweb.link/metadata.json",
    );
    let l2 = String::from_str("https://ipfs.io/ipfs/").concat(cid.as_str()).concat(
        "/metadata.json",
    );
    let l3 = String::from_str("ipfs://").concat(cid.as_str()).concat("/metadata.json");
    let mut r: Vec<String> = Vec::new();
    r.push(l1);
    r.push(l2);
    r.push(l3);
    proof {
        assert(seq_view(r@) =~= metadata_entry_links(cid@));
    }
    r
}

/// Set the convenience links of every entry of the listing.
pub fn decorate_entries(entries: Vec<NftValue>) -> (r: Vec<NftValue>)
    ensures
        seq_view(r@) == spec_decorate_all(seq_view(entries@)),
{
    let ghost orig = seq_view(entries@);
    let mut remaining = entries;
    let mut out: Vec<NftValue> = Vec::new();
    proof {
        assert(seq_view(out@) =~= Seq::<NftValueV>::empty());
    }
    while remaining.len() > 0
        invariant
            out@.len() + remaining@.len() == orig.len(),
            seq_view(remaining@) =~= orig.skip(out@.len() as int),
            seq_view(out@) =~= spec_decorate_all(orig).take(out@.len() as int),
        decreases remaining@.len(),
    {
        let ghost done: int = out@.len() as int;
        let ghost rem_v = seq_view(remaining@);
        let mut v = remaining.remove(0);
        proof {
            assert(seq_view(remaining@) =~= rem_v.drop_first());
            assert(rem_v.drop_first() =~= orig.skip(done + 1));
            assert(v@ == rem_v[0]);
            assert(rem_v[0] == orig.skip(done)[0]);
            assert(orig.skip(done)[0] == orig[done]);
        }
        let links = convenience_links(&v.cid);
        v.link = links;
        proof {
            assert(v@ == plain_decorated(orig[done]));
        }
        let ghost prev = seq_view(out@);
        out.push(v);
        proof {
            assert(seq_view(out@) =~= prev.push(plain_decorated(orig[done])));
            assert(seq_view(out@) =~= spec_decorate_all(orig).take(done + 1));
        }
    }
    proof {
        assert(seq_view(out@) =~= spec_decorate_all(orig));
    }
    out
}

/// Keep only the metadata entries of the listing and set the convenience
/// links of each one's metadata file.
pub fn decorate_metadata_entries(entries: Vec<NftValue>) -> (r: Vec<NftValue>)
    ensures
        seq_view(r@) == spec_metadata_listing(seq_view(entries@)),
{
    let ghost orig = seq_view(entries@);
    let mut remaining = entries;
    let mut out: Vec<NftValue> = Vec::new();
    proof {
        assert(seq_view(out@) =~= Seq::<NftValueV>::empty());
        assert(seq_view(remaining@) =~= orig);
    }
    let key = "metadata.json".to_owned();
    while remaining.len() > 0
        invariant
            key@ == "metadata.json"@,
            spec_metadata_listing(orig) == seq_view(out@) + spec_metadata_listing(
                seq_view(remaining@),
            ),
        decreases remaining@.len(),
    {
        let ghost rem_v = seq_view(remaining@);
        let mut v = remaining.remove(0);
        proof {
            assert(seq_view(remaining@) =~= rem_v.drop_first());
            assert(v@ == rem_v[0]);
        }
        let keep = v.files.len() > 0 && v.files[0].name == key;
        proof {
            assert(keep == is_metadata_entry(rem_v[0]));
        }
        if keep {
            let links = metadata_convenience_links(&v.cid);
            v.link = links;
            proof {
                assert(v@ == metadata_decorated(rem_v[0]));
            }
            let ghost prev = seq_view(out@);
            out.push(v);
            proof {
                assert(seq_view(out@) =~= prev.push(metadata_decorated(rem_v[0])));
                assert(prev.push(metadata_decorated(rem_v[0])) + spec_metadata_listing(
                    rem_v.drop_first(),
                ) =~= prev + spec_metadata_listing(rem_v));
            }
        }
    }
    proof {
        assert(seq_view(remaining@) =~= Seq::<NftValueV>::empty());
        assert(seq_view(out@) + spec_metadata_listing(seq_view(remaining@)) =~= seq_view(out@));
    }
    out
}

} // verus!
