//! The typed records that the service's JSON responses decode into.
//!
//! Each record mirrors one of the vendor's response shapes. A field that the
//! response leaves out defaults to empty or zero, so every record also has a
//! `Default` with that meaning. Each record has a ghost counterpart — its
//! view — over which the contracts of the decoders and of the client
//! operations are stated.
use vstd::prelude::*;

verus! {

broadcast use vstd::std_specs::vec::group_vec_axioms, vstd::seq::group_seq_axioms;

/// The views of the elements of a sequence of viewable values.
pub open spec fn seq_view<T: View>(s: Seq<T>) -> Seq<T::V> {
    Seq::new(s.len(), |i: int| s[i]@)
}

/// File name and mime type of one file of a stored entry.
#[derive(Debug)]
pub struct Files {
    /// file name
    pub name: String,
    /// file mime type
    pub file_type: String,
}

/// The mathematical value of a [`Files`] record.
pub ghost struct FilesV {
    pub name: Seq<char>,
    pub file_type: Seq<char>,
}

impl FilesV {
    /// The record with every field empty.
    pub open spec fn empty() -> FilesV {
        FilesV { name: Seq::empty(), file_type: Seq::empty() }
    }
}

impl View for Files {
    type V = FilesV;

    open spec fn view(&self) -> FilesV {
        FilesV { name: self.name@, file_type: self.file_type@ }
    }
}

impl Default for Files {
    /// The record with every field empty.
    fn default() -> (r: Files)
        ensures
            r@ == FilesV::empty(),
    {
        Files { name: String::new(), file_type: String::new() }
    }
}

/// One storage deal made for a stored entry.
#[derive(Debug)]
pub struct Deals {
    pub batch_root_cid: String,
    pub last_changed: String,
    pub miner: String,
    pub piece_cid: String,
    pub status: String,
    pub status_text: String,
    pub chain_deal_id: i32,
    pub deal_activation: String,
    pub deal_expiration: String,
    pub data_model_selector: String,
}

/// The mathematical value of a [`Deals`] record.
pub ghost struct DealsV {
    pub batch_root_cid: Seq<char>,
    pub last_changed: Seq<char>,
    pub miner: Seq<char>,
    pub piece_cid: Seq<char>,
    pub status: Seq<char>,
    pub status_text: Seq<char>,
    pub chain_deal_id: i32,
    pub deal_activation: Seq<char>,
    pub deal_expiration: Seq<char>,
    pub data_model_selector: Seq<char>,
}

impl DealsV {
    /// The record with every field empty or zero.
    pub open spec fn empty() -> DealsV {
        DealsV {
            batch_root_cid: Seq::empty(),
            last_changed: Seq::empty(),
            miner: Seq::empty(),
            piece_cid: Seq::empty(),
            status: Seq::empty(),
            status_text: Seq::empty(),
            chain_deal_id: 0,
            deal_activation: Seq::empty(),
            deal_expiration: Seq::empty(),
            data_model_selector: Seq::empty(),
        }
    }
}

impl View for Deals {
    type V = DealsV;

    open spec fn view(&self) -> DealsV {
        DealsV {
            batch_root_cid: self.batch_root_cid@,
            last_changed: self.last_changed@,
            miner: self.miner@,
            piece_cid: self.piece_cid@,
            status: self.status@,
            status_text: self.status_text@,
            chain_deal_id: self.chain_deal_id,
            deal_activation: self.deal_activation@,
            deal_expiration: self.deal_expiration@,
            data_model_selector: self.data_model_selector@,
        }
    }
}

impl Default for Deals {
    /// The record with every field empty or zero.
    fn default() -> (r: Deals)
        ensures
            r@ == DealsV::empty(),
    {
        Deals {
            batch_root_cid: String::new(),
            last_changed: String::new(),
            miner: String::new(),
            piece_cid: String::new(),
            status: String::new(),
            status_text: String::new(),
            chain_deal_id: 0,
            deal_activation: String::new(),
            deal_expiration: String::new(),
            data_model_selector: String::new(),
        }
    }
}

/// Pin state of a stored entry on the content-addressed network.
#[derive(Debug)]
pub struct Pin {
    /// content identifier (file hash)
    pub cid: String,
    /// pin status of the entry
    pub status: String,
    /// creation date
    pub created: String,
    /// size of the file
    pub size: i32,
}

/// The mathematical value of a [`Pin`] record.
pub ghost struct PinV {
    pub cid: Seq<char>,
    pub status: Seq<char>,
    pub created: Seq<char>,
    pub size: i32,
}

impl PinV {
    /// The record with every field empty or zero.
    pub open spec fn empty() -> PinV {
        PinV { cid: Seq::empty(), status: Seq::empty(), created: Seq::empty(), size: 0 }
    }
}

impl View for Pin {
    type V = PinV;

    open spec fn view(&self) -> PinV {
        PinV { cid: self.cid@, status: self.status@, created: self.created@, size: self.size }
    }
}

impl Default for Pin {
    /// The record with every field empty or zero.
    fn default() -> (r: Pin)
        ensures
            r@ == PinV::empty(),
    {
        Pin { cid: String::new(), status: String::new(), created: String::new(), size: 0 }
    }
}

/// One stored entry, as the service reports it.
#[derive(Debug)]
pub struct NftValue {
    /// content identifier (file hash)
    pub cid: String,
    /// file size
    pub size: i32,
    /// date uploaded
    pub created: String,
    /// mime type of the file
    pub file_type: String,
    pub scope: String,
    /// pin state of the entry
    pub pin: Pin,
    /// the entry's files (name and mime type)
    pub files: Vec<Files>,
    /// storage deals made for the entry
    pub deals: Vec<Deals>,
    /// convenience links to view the entry
    pub link: Vec<String>,
}

/// The mathematical value of a [`NftValue`] record.
pub ghost struct NftValueV {
    pub cid: Seq<char>,
    pub size: i32,
    pub created: Seq<char>,
    pub file_type: Seq<char>,
    pub scope: Seq<char>,
    pub pin: PinV,
    pub files: Seq<FilesV>,
    pub deals: Seq<DealsV>,
    pub link: Seq<Seq<char>>,
}

impl NftValueV {
    /// The record with every field empty or zero.
    pub open spec fn empty() -> NftValueV {
        NftValueV {
            cid: Seq::empty(),
            size: 0,
            created: Seq::empty(),
            file_type: Seq::empty(),
            scope: Seq::empty(),
            pin: PinV::empty(),
            files: Seq::empty(),
            deals: Seq::empty(),
            link: Seq::empty(),
        }
    }
}

impl View for NftValue {
    type V = NftValueV;

    open spec fn view(&self) -> NftValueV {
        NftValueV {
            cid: self.cid@,
            size: self.size,
            created: self.created@,
            file_type: self.file_type@,
            scope: self.scope@,
            pin: self.pin@,
            files: seq_view(self.files@),
            deals: seq_view(self.deals@),
            link: seq_view(self.link@),
        }
    }
}

impl Default for NftValue {
    /// The record with every field empty or zero.
    fn default() -> (r: NftValue)
        ensures
            r@ == NftValueV::empty(),
    {
        let r = NftValue {
            cid: String::new(),
            size: 0,
            created: String::new(),
            file_type: String::new(),
            scope: String::new(),
            pin: Pin::default(),
            files: Vec::new(),
            deals: Vec::new(),
            link: Vec::new(),
        };
        proof {
            assert(seq_view(r.files@) =~= Seq::<FilesV>::empty());
            assert(seq_view(r.deals@) =~= Seq::<DealsV>::empty());
            assert(seq_view(r.link@) =~= Seq::<Seq<char>>::empty());
        }
        r
    }
}

/// What the existence check reports of an entry.
#[derive(Debug)]
pub struct CheckNFTValue {
    /// content identifier (file hash)
    pub cid: String,
    /// pin state of the entry
    pub pin: Pin,
    /// storage deals made for the entry
    pub deals: Vec<Deals>,
}

/// The mathematical value of a [`CheckNFTValue`] record.
pub ghost struct CheckNFTValueV {
    pub cid: Seq<char>,
    pub pin: PinV,
    pub deals: Seq<DealsV>,
}

impl CheckNFTValueV {
    /// The record with every field empty or zero.
    pub open spec fn empty() -> CheckNFTValueV {
        CheckNFTValueV { cid: Seq::empty(), pin: PinV::empty(), deals: Seq::empty() }
    }
}

impl View for CheckNFTValue {
    type V = CheckNFTValueV;

    open spec fn view(&self) -> CheckNFTValueV {
        CheckNFTValueV { cid: self.cid@, pin: self.pin@, deals: seq_view(self.deals@) }
    }
}

impl Default for CheckNFTValue {
    /// The record with every field empty or zero.
    fn default() -> (r: CheckNFTValue)
        ensures
            r@ == CheckNFTValueV::empty(),
    {
        let r = CheckNFTValue { cid: String::new(), pin: Pin::default(), deals: Vec::new() };
        proof {
            assert(seq_view(r.deals@) =~= Seq::<DealsV>::empty());
        }
        r
    }
}

/// Response of the listing operation.
#[derive(Debug)]
pub struct ListNftResponse {
    /// status of the request
    pub ok: bool,
    /// the stored entries of the page
    pub value: Vec<NftValue>,
}

/// The mathematical value of a [`ListNftResponse`].
pub ghost struct ListNftResponseV {
    pub ok: bool,
    pub value: Seq<NftValueV>,
}

impl View for ListNftResponse {
    type V = ListNftResponseV;

    open spec fn view(&self) -> ListNftResponseV {
        ListNftResponseV { ok: self.ok, value: seq_view(self.value@) }
    }
}

impl Default for ListNftResponse {
    /// The response with every field empty or false.
    fn default() -> (r: ListNftResponse)
        ensures
            r@ == (ListNftResponseV { ok: false, value: Seq::empty() }),
    {
        let r = ListNftResponse { ok: false, value: Vec::new() };
        proof {
            assert(seq_view(r.value@) =~= Seq::<NftValueV>::empty());
        }
        r
    }
}

/// Response of an upload.
#[derive(Debug)]
pub struct StoreNftResponse {
    /// status of the request
    pub ok: bool,
    /// the stored entry
    pub value: NftValue,
}

/// The mathematical value of a [`StoreNftResponse`].
pub ghost struct StoreNftResponseV {
    pub ok: bool,
    pub value: NftValueV,
}

impl View for StoreNftResponse {
    type V = StoreNftResponseV;

    open spec fn view(&self) -> StoreNftResponseV {
        StoreNftResponseV { ok: self.ok, value: self.value@ }
    }
}

impl Default for StoreNftResponse {
    /// The response with every field empty or false.
    fn default() -> (r: StoreNftResponse)
        ensures
            r@ == (StoreNftResponseV { ok: false, value: NftValueV::empty() }),
    {
        StoreNftResponse { ok: false, value: NftValue::default() }
    }
}

/// Response of a fetch by identifier.
#[derive(Debug)]
pub struct GetNftResponse {
    /// status of the request
    pub ok: bool,
    /// the fetched entry
    pub value: NftValue,
}

/// The mathematical value of a [`GetNftResponse`].
pub ghost struct GetNftResponseV {
    pub ok: bool,
    pub value: NftValueV,
}

impl View for GetNftResponse {
    type V = GetNftResponseV;

    open spec fn view(&self) -> GetNftResponseV {
        GetNftResponseV { ok: self.ok, value: self.value@ }
    }
}

impl Default for GetNftResponse {
    /// The response with every field empty or false.
    fn default() -> (r: GetNftResponse)
        ensures
            r@ == (GetNftResponseV { ok: false, value: NftValueV::empty() }),
    {
        GetNftResponse { ok: false, value: NftValue::default() }
    }
}

/// Response of a deletion.
#[derive(Debug)]
pub struct DeleteNftResponse {
    /// status of the request
    pub ok: bool,
}

/// The mathematical value of a [`DeleteNftResponse`].
pub ghost struct DeleteNftResponseV {
    pub ok: bool,
}

impl View for DeleteNftResponse {
    type V = DeleteNftResponseV;

    open spec fn view(&self) -> DeleteNftResponseV {
        DeleteNftResponseV { ok: self.ok }
    }
}

impl Default for DeleteNftResponse {
    /// The response with the flag false.
    fn default() -> (r: DeleteNftResponse)
        ensures
            r@ == (DeleteNftResponseV { ok: false }),
    {
        DeleteNftResponse { ok: false }
    }
}

/// Response of the existence check.
#[derive(Debug)]
pub struct CheckCidNftResponse {
    /// status of the request
    pub ok: bool,
    /// what the check reports of the entry
    pub value: CheckNFTValue,
}

/// The mathematical value of a [`CheckCidNftResponse`].
pub ghost struct CheckCidNftResponseV {
    pub ok: bool,
    pub value: CheckNFTValueV,
}

impl View for CheckCidNftResponse {
    type V = CheckCidNftResponseV;

    open spec fn view(&self) -> CheckCidNftResponseV {
        CheckCidNftResponseV { ok: self.ok, value: self.value@ }
    }
}

impl Default for CheckCidNftResponse {
    /// The response with every field empty or false.
    fn default() -> (r: CheckCidNftResponse)
        ensures
            r@ == (CheckCidNftResponseV { ok: false, value: CheckNFTValueV::empty() }),
    {
        CheckCidNftResponse { ok: false, value: CheckNFTValue::default() }
    }
}

} // verus!
