use vstd::prelude::*;

verus! {

/// An opaque, contract-scoped payload describing one intended action.
pub struct Blob {
    pub contract_name: String,
    pub data: Vec<u8>,
}

/// What a blob holds, as plain values.
pub struct BlobView {
    pub contract_name: Seq<char>,
    pub data: Seq<u8>,
}

impl View for Blob {
    type V = BlobView;

    open spec fn view(&self) -> BlobView {
        BlobView { contract_name: self.contract_name@, data: self.data@ }
    }
}

/// The views of a sequence of blobs, position by position.
pub open spec fn blobs_view(v: Seq<Blob>) -> Seq<BlobView> {
    v.map_values(|b: Blob| b@)
}

/// The full input handed to the proving engine.
pub struct ContractInput {
    pub initial_state: Vec<u8>,
    pub identity: String,
    pub tx_hash: String,
    pub private_blob: Vec<u8>,
    pub blobs: Vec<Blob>,
    pub index: usize,
}

/// A blob transaction: the submitter and the blobs it carries.
pub struct BlobTransaction {
    pub identity: String,
    pub blobs: Vec<Blob>,
}

/// A proof transaction, referring to an accepted blob transaction by hash.
pub struct ProofTransaction {
    pub blob_tx_hash: String,
    pub proof: Vec<u8>,
    pub contract_name: String,
}

/// A fresh vector with the same bytes.
pub fn copy_bytes(v: &Vec<u8>) -> (r: Vec<u8>)
    ensures
        r@ == v@,
{
    let mut r: Vec<u8> = Vec::with_capacity(v.len());
    let mut i: usize = 0;
    while i < v.len()
        invariant
            i <= v@.len(),
            r@ == v@.subrange(0, i as int),
        decreases v@.len() - i,
    {
        r.push(v[i]);
        i = i + 1;
    }
    assert(r@ =~= v@);
    r
}

/// A fresh blob with the same contract name and bytes.
pub fn copy_blob(b: &Blob) -> (r: Blob)
    ensures
        r@ == b@,
{
    Blob { contract_name: b.contract_name.clone(), data: copy_bytes(&b.data) }
}

/// A fresh sequence of blobs, each equal to the one at the same position.
pub fn copy_blobs(v: &Vec<Blob>) -> (r: Vec<Blob>)
    ensures
        blobs_view(r@) == blobs_view(v@),
{
    let mut r: Vec<Blob> = Vec::with_capacity(v.len());
    let mut i: usize = 0;
    while i < v.len()
        invariant
            i <= v@.len(),
            r@.len() == i,
            forall|j: int| 0 <= j < i ==> #[trigger] r@[j]@ == v@[j]@,
        decreases v@.len() - i,
    {
        let b = copy_blob(&v[i]);
        r.push(b);
        i = i + 1;
    }
    assert(blobs_view(r@) =~= blobs_view(v@));
    r
}

/// Builds the execution input for one proving attempt. The transaction hash
/// is not known before the blob transaction is accepted, so it is left
/// empty; no private witness is supplied. The index is not checked here: the
/// guest program judges it.
pub fn build_input(initial_state: Vec<u8>, identity: String, blobs: Vec<Blob>, index: usize) -> (r:
    ContractInput)
    ensures
        r.initial_state@ == initial_state@,
        r.identity@ == identity@,
        r.tx_hash@ == Seq::<char>::empty(),
        r.private_blob@ == Seq::<u8>::empty(),
        blobs_view(r.blobs@) == blobs_view(blobs@),
        r.index == index,
{
    ContractInput {
        initial_state,
        identity,
        tx_hash: String::new(),
        private_blob: Vec::new(),
        blobs,
        index,
    }
}

} // verus!
