//! The step logic of the composed operations.
//!
//! Three operations are more than one request: storing content with its
//! metadata (two uploads, the second naming what the first returned), the
//! same for a directory of files, and deleting everything (list a page,
//! delete its entries, list again, until a page comes back empty). The
//! decisions of each are a state machine here — what to send next, and how a
//! response moves the state — so that the shell around the library only
//! performs requests. The laws at the end state the shape of each composed
//! run.
use vstd::prelude::*;

use crate::encode::{
    directory_metadata_payload, metadata_payload, spec_directory_metadata_payload,
    spec_metadata_payload,
};
use crate::types::{seq_view, ListNftResponse, ListNftResponseV, NftValueV, StoreNftResponse, StoreNftResponseV};

verus! {

broadcast use vstd::std_specs::vec::group_vec_axioms, vstd::seq::group_seq_axioms;

/// Where a composed store stands: before the first upload, before the
/// second, or done. Each pending stage carries the payload to upload.
pub enum StoreStage {
    /// The content itself is still to upload.
    First(Vec<u8>),
    /// The metadata document is still to upload.
    Second(Vec<u8>),
    /// Both uploads are answered.
    Done,
}

/// The mathematical value of a [`StoreStage`].
pub ghost enum StoreStageV {
    First(Seq<u8>),
    Second(Seq<u8>),
    Done,
}

impl View for StoreStage {
    type V = StoreStageV;

    open spec fn view(&self) -> StoreStageV {
        match self {
            StoreStage::First(p) => StoreStageV::First(p@),
            StoreStage::Second(p) => StoreStageV::Second(p@),
            StoreStage::Done => StoreStageV::Done,
        }
    }
}

/// The composed store operation: upload the content, then upload a metadata
/// document naming the identifier the service returned for it.
pub struct StoreNftFlow {
    /// the name the metadata document will carry
    pub nft_name: String,
    /// the description the metadata document will carry
    pub description: String,
    /// where the operation stands
    pub stage: StoreStage,
}

/// The mathematical value of a [`StoreNftFlow`].
pub ghost struct StoreNftFlowV {
    pub nft_name: Seq<char>,
    pub description: Seq<char>,
    pub stage: StoreStageV,
}

impl View for StoreNftFlow {
    type V = StoreNftFlowV;

    open spec fn view(&self) -> StoreNftFlowV {
        StoreNftFlowV {
            nft_name: self.nft_name@,
            description: self.description@,
            stage: self.stage@,
        }
    }
}

/// A fresh composed store: the content is still to upload.
pub open spec fn store_flow_init(
    file: Seq<u8>,
    nft_name: Seq<char>,
    description: Seq<char>,
) -> StoreNftFlowV {
    StoreNftFlowV { nft_name, description, stage: StoreStageV::First(file) }
}

/// The payload the composed store uploads next, if one is pending.
pub open spec fn store_flow_next(f: StoreNftFlowV) -> Option<Seq<u8>> {
    match f.stage {
        StoreStageV::First(p) => Some(p),
        StoreStageV::Second(p) => Some(p),
        StoreStageV::Done => None,
    }
}

/// How an upload's response moves the composed store on: the first response
/// fixes the metadata payload, naming the identifier the service returned;
/// the second response ends the operation.
pub open spec fn store_flow_step(f: StoreNftFlowV, resp: StoreNftResponseV) -> StoreNftFlowV {
    match f.stage {
        StoreStageV::First(_) => StoreNftFlowV {
            stage: StoreStageV::Second(
                spec_metadata_payload(f.nft_name, f.description, resp.value.cid),
            ),
            ..f
        },
        StoreStageV::Second(_) => StoreNftFlowV { stage: StoreStageV::Done, ..f },
        StoreStageV::Done => f,
    }
}

impl StoreNftFlow {
    /// Begin a composed store of `file` under `nft_name` and `description`.
    pub fn new(file: Vec<u8>, nft_name: String, description: String) -> (r: StoreNftFlow)
        ensures
            r@ == store_flow_init(file@, nft_name@, description@),
    {
        StoreNftFlow { nft_name, description, stage: StoreStage::First(file) }
    }

    /// The payload to upload next, if one is pending. Mirrors
    /// [`store_flow_next`].
    pub fn next_upload(&self) -> (r: Option<&Vec<u8>>)
        ensures
            (match r {
                Some(p) => store_flow_next(self@) == Some(p@),
                None => store_flow_next(self@) is None,
            }),
    {
        match &self.stage {
            StoreStage::First(p) => Some(p),
            StoreStage::Second(p) => Some(p),
            StoreStage::Done => None,
        }
    }

    /// Feed in the response of the upload just made. Mirrors
    /// [`store_flow_step`].
    pub fn on_response(&mut self, resp: &StoreNftResponse)
        ensures
            final(self)@ == store_flow_step(old(self)@, resp@),
    {
        let next = match &self.stage {
            StoreStage::First(_) => StoreStage::Second(
                metadata_payload(
                    self.nft_name.as_str(),
                    self.description.as_str(),
                    resp.value.cid.as_str(),
                ),
            ),
            StoreStage::Second(_) => StoreStage::Done,
            StoreStage::Done => {
                return ;
            },
        };
        self.stage = next;
    }
}

/// One multipart upload: files and their names, position by position.
pub struct MultipartUpload {
    /// the files' bytes
    pub files: Vec<Vec<u8>>,
    /// the files' names
    pub file_names: Vec<String>,
}

/// The mathematical value of a [`MultipartUpload`].
pub ghost struct MultipartUploadV {
    pub files: Seq<Seq<u8>>,
    pub file_names: Seq<Seq<char>>,
}

impl View for MultipartUpload {
    type V = MultipartUploadV;

    open spec fn view(&self) -> MultipartUploadV {
        MultipartUploadV { files: seq_view(self.files@), file_names: seq_view(self.file_names@) }
    }
}

/// Where a composed directory store stands.
pub enum DirectoryStage {
    /// The directory's files are still to upload.
    First(MultipartUpload),
    /// The metadata document is still to upload.
    Second(MultipartUpload),
    /// Both uploads are answered.
    Done,
}

/// The mathematical value of a [`DirectoryStage`].
pub ghost enum DirectoryStageV {
    First(MultipartUploadV),
    Second(MultipartUploadV),
    Done,
}

impl View for DirectoryStage {
    type V = DirectoryStageV;

    open spec fn view(&self) -> DirectoryStageV {
        match self {
            DirectoryStage::First(u) => DirectoryStageV::First(u@),
            DirectoryStage::Second(u) => DirectoryStageV::Second(u@),
            DirectoryStage::Done => DirectoryStageV::Done,
        }
    }
}

/// The composed directory store: upload the named files as one directory,
/// then upload a metadata document listing each file's native-scheme URL
/// inside the directory the service returned.
pub struct StoreDirectoryFlow {
    /// the name the metadata document will carry
    pub nft_name: String,
    /// the description the metadata document will carry
    pub description: String,
    /// where the operation stands
    pub stage: DirectoryStage,
}

/// The mathematical value of a [`StoreDirectoryFlow`].
pub ghost struct StoreDirectoryFlowV {
    pub nft_name: Seq<char>,
    pub description: Seq<char>,
    pub stage: DirectoryStageV,
}

impl View for StoreDirectoryFlow {
    type V = StoreDirectoryFlowV;

    open spec fn view(&self) -> StoreDirectoryFlowV {
        StoreDirectoryFlowV {
            nft_name: self.nft_name@,
            description: self.description@,
            stage: self.stage@,
        }
    }
}

/// The names of an entry's files, in order.
pub open spec fn file_names_of(files: Seq<crate::types::FilesV>) -> Seq<Seq<char>> {
    Seq::new(files.len(), |i: int| files[i].name)
}

/// A fresh composed directory store: the files are still to upload.
pub open spec fn directory_flow_init(
    files: Seq<Seq<u8>>,
    file_names: Seq<Seq<char>>,
    nft_name: Seq<char>,
    description: Seq<char>,
) -> StoreDirectoryFlowV {
    StoreDirectoryFlowV {
        nft_name,
        description,
        stage: DirectoryStageV::First(MultipartUploadV { files, file_names }),
    }
}

/// The multipart upload the composed directory store makes next, if one is
/// pending.
pub open spec fn directory_flow_next(f: StoreDirectoryFlowV) -> Option<MultipartUploadV> {
    match f.stage {
        DirectoryStageV::First(u) => Some(u),
        DirectoryStageV::Second(u) => Some(u),
        DirectoryStageV::Done => None,
    }
}

/// The name the metadata document is uploaded under.
pub open spec fn metadata_file_name() -> Seq<char> {
    "metadata.json"@
}

/// How an upload's response moves the composed directory store on: the first
/// response fixes the metadata payload — one native-scheme URL for each file
/// the service reports, inside the directory it returned — uploaded as the
/// single metadata file; the second response ends the operation.
pub open spec fn directory_flow_step(
    f: StoreDirectoryFlowV,
    resp: StoreNftResponseV,
) -> StoreDirectoryFlowV {
    match f.stage {
        DirectoryStageV::First(_) => StoreDirectoryFlowV {
            stage: DirectoryStageV::Second(
                MultipartUploadV {
                    files: seq![
                        spec_directory_metadata_payload(
                            f.nft_name,
                            f.description,
                            resp.value.cid,
                            file_names_of(resp.value.files),
                        ),
                    ],
                    file_names: seq![metadata_file_name()],
                },
            ),
            ..f
        },
        DirectoryStageV::Second(_) => StoreDirectoryFlowV { stage: DirectoryStageV::Done, ..f },
        DirectoryStageV::Done => f,
    }
}

impl StoreDirectoryFlow {
    /// Begin a composed directory store of the named files.
    pub fn new(
        files: Vec<Vec<u8>>,
        file_names: Vec<String>,
        nft_name: String,
        description: String,
    ) -> (r: StoreDirectoryFlow)
        ensures
            r@ == directory_flow_init(
                seq_view(files@),
                seq_view(file_names@),
                nft_name@,
                description@,
            ),
    {
        StoreDirectoryFlow {
            nft_name,
            description,
            stage: DirectoryStage::First(MultipartUpload { files, file_names }),
        }
    }

    /// The multipart upload to make next, if one is pending. Mirrors
    /// [`directory_flow_next`].
    pub fn next_upload(&self) -> (r: Option<&MultipartUpload>)
        ensures
            (match r {
                Some(u) => directory_flow_next(self@) == Some(u@),
                None => directory_flow_next(self@) is None,
            }),
    {
        match &self.stage {
            DirectoryStage::First(u) => Some(u),
            DirectoryStage::Second(u) => Some(u),
            DirectoryStage::Done => None,
        }
    }

    /// Feed in the response of the upload just made. Mirrors
    /// [`directory_flow_step`].
    pub fn on_response(&mut self, resp: &StoreNftResponse)
        ensures
            final(self)@ == directory_flow_step(old(self)@, resp@),
    {
        let next = match &self.stage {
            DirectoryStage::First(_) => {
                let mut names: Vec<String> = Vec::new();
                let mut i: usize = 0;
                proof {
                    assert(seq_view(names@) =~= Seq::<Seq<char>>::empty());
                    assert(file_names_of(resp.value@.files).take(0) =~= Seq::<Seq<char>>::empty());
                }
                while i < resp.value.files.len()
                    invariant
                        0 <= i <= resp.value.files@.len(),
                        resp.value@.files.len() == resp.value.files@.len(),
                        seq_view(names@) =~= file_names_of(resp.value@.files).take(i as int),
                    decreases resp.value.files@.len() - i,
                {
                    let ghost prev = seq_view(names@);
                    let name = resp.value.files[i].name.clone();
                    proof {
                        assert(resp.value@.files[i as int] == resp.value.files@[i as int]@);
                    }
                    names.push(name);
                    proof {
                        assert(seq_view(names@) =~= prev.push(
                            file_names_of(resp.value@.files)[i as int],
                        ));
                        assert(seq_view(names@) =~= file_names_of(resp.value@.files).take(i + 1));
                    }
                    i = i + 1;
                }
                proof {
                    assert(file_names_of(resp.value@.files).take(i as int) =~= file_names_of(
                        resp.value@.files,
                    ));
                }
                let payload = directory_metadata_payload(
                    self.nft_name.as_str(),
                    self.description.as_str(),
                    resp.value.cid.as_str(),
                    &names,
                );
                let mut payloads: Vec<Vec<u8>> = Vec::new();
                payloads.push(payload);
                let mut payload_names: Vec<String> = Vec::new();
                payload_names.push("metadata.json".to_owned());
                let upload = MultipartUpload { files: payloads, file_names: payload_names };
                proof {
                    assert(upload@.files =~= seq![
                        spec_directory_metadata_payload(
                            self.nft_name@,
                            self.description@,
                            resp.value@.cid,
                            file_names_of(resp.value@.files),
                        ),
                    ]);
                    assert(upload@.file_names =~= seq![metadata_file_name()]);
                }
                DirectoryStage::Second(upload)
            },
            DirectoryStage::Second(_) => DirectoryStage::Done,
            DirectoryStage::Done => {
                return ;
            },
        };
        self.stage = next;
    }
}

/// The identifiers of the listed entries, in order.
pub open spec fn cids_of(vs: Seq<NftValueV>) -> Seq<Seq<char>> {
    Seq::new(vs.len(), |i: int| vs[i].cid)
}

/// What the delete-all operation does next.
#[derive(Debug)]
pub enum DeleteAllAction {
    /// Ask the service for a page of stored entries.
    List,
    /// Delete the entry with this identifier.
    Delete(String),
    /// Nothing: a page came back empty, the operation is over.
    Finished,
}

/// The mathematical value of a [`DeleteAllAction`].
pub ghost enum DeleteAllActionV {
    List,
    Delete(Seq<char>),
    Finished,
}

impl View for DeleteAllAction {
    type V = DeleteAllActionV;

    open spec fn view(&self) -> DeleteAllActionV {
        match self {
            DeleteAllAction::List => DeleteAllActionV::List,
            DeleteAllAction::Delete(cid) => DeleteAllActionV::Delete(cid@),
            DeleteAllAction::Finished => DeleteAllActionV::Finished,
        }
    }
}

/// The delete-all operation: list a page, delete its entries one by one,
/// list again, until a page comes back empty.
pub struct DeleteAllFlow {
    /// identifiers of the listed page still to delete, front first
    pub pending: Vec<String>,
    /// whether a page has come back empty
    pub finished: bool,
}

/// The mathematical value of a [`DeleteAllFlow`].
pub ghost struct DeleteAllFlowV {
    pub pending: Seq<Seq<char>>,
    pub finished: bool,
}

impl View for DeleteAllFlow {
    type V = DeleteAllFlowV;

    open spec fn view(&self) -> DeleteAllFlowV {
        DeleteAllFlowV { pending: seq_view(self.pending@), finished: self.finished }
    }
}

/// A fresh delete-all operation: nothing pending, nothing listed yet.
pub open spec fn delete_all_init() -> DeleteAllFlowV {
    DeleteAllFlowV { pending: Seq::empty(), finished: false }
}

/// What the delete-all operation does next: delete the front pending entry;
/// list when no entry is pending; nothing once a page came back empty.
pub open spec fn delete_all_next(f: DeleteAllFlowV) -> DeleteAllActionV {
    if f.finished {
        DeleteAllActionV::Finished
    } else if f.pending.len() == 0 {
        DeleteAllActionV::List
    } else {
        DeleteAllActionV::Delete(f.pending[0])
    }
}

/// How a listed page moves the operation on: an empty page ends it, any
/// other page queues each listed identifier for deletion.
pub open spec fn delete_all_on_list(f: DeleteAllFlowV, page: ListNftResponseV) -> DeleteAllFlowV {
    if page.value.len() == 0 {
        DeleteAllFlowV { pending: f.pending, finished: true }
    } else {
        DeleteAllFlowV { pending: cids_of(page.value), finished: f.finished }
    }
}

/// How an acknowledged deletion moves the operation on: the front pending
/// identifier is done.
pub open spec fn delete_all_on_deleted(f: DeleteAllFlowV) -> DeleteAllFlowV {
    if f.pending.len() == 0 {
        f
    } else {
        DeleteAllFlowV { pending: f.pending.drop_first(), finished: f.finished }
    }
}

/// The page size every list request of the operation asks for.
pub fn delete_all_page_limit() -> (r: &'static str)
    ensures
        r@ == "100"@,
{
    "100"
}

impl DeleteAllFlow {
    /// Begin a delete-all operation.
    pub fn new() -> (r: DeleteAllFlow)
        ensures
            r@ == delete_all_init(),
    {
        let r = DeleteAllFlow { pending: Vec::new(), finished: false };
        proof {
            assert(seq_view(r.pending@) =~= Seq::<Seq<char>>::empty());
        }
        r
    }

    /// What to do next. Mirrors [`delete_all_next`].
    pub fn next_action(&self) -> (r: DeleteAllAction)
        ensures
            r@ == delete_all_next(self@),
    {
        if self.finished {
            DeleteAllAction::Finished
        } else if self.pending.len() == 0 {
            DeleteAllAction::List
        } else {
            proof {
                assert(seq_view(self.pending@)[0] == self.pending@[0]@);
            }
            DeleteAllAction::Delete(self.pending[0].clone())
        }
    }

    /// Feed in a listed page. Mirrors [`delete_all_on_list`].
    pub fn on_list(&mut self, page: &ListNftResponse)
        ensures
            final(self)@ == delete_all_on_list(old(self)@, page@),
    {
        if page.value.len() == 0 {
            self.finished = true;
            return ;
        }
        let mut cids: Vec<String> = Vec::new();
        let mut i: usize = 0;
        proof {
            assert(seq_view(cids@) =~= Seq::<Seq<char>>::empty());
            assert(cids_of(page@.value).take(0) =~= Seq::<Seq<char>>::empty());
        }
        while i < page.value.len()
            invariant
                0 <= i <= page.value@.len(),
                page@.value.len() == page.value@.len(),
                seq_view(cids@) =~= cids_of(page@.value).take(i as int),
            decreases page.value@.len() - i,
        {
            let ghost prev = seq_view(cids@);
            let cid = page.value[i].cid.clone();
            proof {
                assert(page@.value[i as int] == page.value@[i as int]@);
            }
            cids.push(cid);
            proof {
                assert(seq_view(cids@) =~= prev.push(cids_of(page@.value)[i as int]));
                assert(seq_view(cids@) =~= cids_of(page@.value).take(i + 1));
            }
            i = i + 1;
        }
        proof {
            assert(cids_of(page@.value).take(i as int) =~= cids_of(page@.value));
        }
        self.pending = cids;
    }

    /// Feed in an acknowledged deletion. Mirrors [`delete_all_on_deleted`].
    pub fn on_deleted(&mut self)
        ensures
            final(self)@ == delete_all_on_deleted(old(self)@),
    {
        if self.pending.len() > 0 {
            let ghost prev = seq_view(self.pending@);
            self.pending.remove(0);
            proof {
                assert(seq_view(self.pending@) =~= prev.drop_first());
            }
        }
    }
}

/// Law: a composed store uploads exactly twice — first the content itself,
/// then the metadata document naming the identifier the service returned for
/// the content — and is then done.
pub proof fn lemma_store_flow_two_uploads(
    file: Seq<u8>,
    nft_name: Seq<char>,
    description: Seq<char>,
    first_response: StoreNftResponseV,
    second_response: StoreNftResponseV,
)
    ensures
        store_flow_next(store_flow_init(file, nft_name, description)) == Some(file),
        store_flow_next(
            store_flow_step(store_flow_init(file, nft_name, description), first_response),
        ) == Some(spec_metadata_payload(nft_name, description, first_response.value.cid)),
        store_flow_next(
            store_flow_step(
                store_flow_step(store_flow_init(file, nft_name, description), first_response),
                second_response,
            ),
        ) is None,
{
}

/// Law: a composed directory store uploads exactly twice — first the named
/// files, then one metadata file listing the native-scheme URL of each file
/// the service reported inside the directory it returned — and is then done.
pub proof fn lemma_directory_flow_two_uploads(
    files: Seq<Seq<u8>>,
    file_names: Seq<Seq<char>>,
    nft_name: Seq<char>,
    description: Seq<char>,
    first_response: StoreNftResponseV,
    second_response: StoreNftResponseV,
)
    ensures
        directory_flow_next(directory_flow_init(files, file_names, nft_name, description)) == Some(
            MultipartUploadV { files, file_names },
        ),
        directory_flow_next(
            directory_flow_step(
                directory_flow_init(files, file_names, nft_name, description),
                first_response,
            ),
        ) == Some(
            MultipartUploadV {
                files: seq![
                    spec_directory_metadata_payload(
                        nft_name,
                        description,
                        first_response.value.cid,
                        file_names_of(first_response.value.files),
                    ),
                ],
                file_names: seq![metadata_file_name()],
            },
        ),
        directory_flow_next(
            directory_flow_step(
                directory_flow_step(
                    directory_flow_init(files, file_names, nft_name, description),
                    first_response,
                ),
                second_response,
            ),
        ) is None,
{
}

/// Law: the delete-all operation is finished exactly when a listed page came
/// back with zero entries; until then it lists or deletes.
pub proof fn lemma_delete_all_finishes(f: DeleteAllFlowV, page: ListNftResponseV)
    ensures
        page.value.len() == 0 ==> delete_all_next(delete_all_on_list(f, page))
            == DeleteAllActionV::Finished,
        page.value.len() > 0 && !f.finished ==> delete_all_next(delete_all_on_list(f, page))
            == DeleteAllActionV::Delete(page.value[0].cid),
{
}

} // verus!
