//! Uploading and serving files, addressed by content identifiers (CIDs).
use crate::views::{route, routes_are, Method, RouteInfo};
use libipld::cbor::DagCborCodec;
use libipld::multihash::{Code, MultihashDigest};
use libipld::prelude::Codec;
use libipld::{Cid, Ipld, Multihash};
use crate::text::is_ascii_alphanumeric;
use vstd::arithmetic::power2::pow2;
use vstd::prelude::*;

verus! {

/// The answer to an upload: the CID of the stored file.
pub struct UploadResponse {
    hash: String,
}

/// The multicodec code of DAG-CBOR.
pub const DAG_CBOR: u64 = 0x71;

/// The `i`-th of the `width` big-endian bytes of `n`.
pub open spec fn be_byte(n: nat, width: nat, i: int) -> u8 {
    ((n / pow2((8 * (width - 1 - i)) as nat)) % 256) as u8
}

/// The `width` big-endian bytes of `n`.
pub open spec fn be_bytes(n: nat, width: nat) -> Seq<u8> {
    Seq::new(width, |i: int| be_byte(n, width, i))
}

/// The CBOR head of a byte string of length `n` (major type 2), in its
/// shortest form: the length in the initial byte up to 23, else in 1, 2, 4 or
/// 8 following bytes.
pub open spec fn cbor_bytes_head(n: nat) -> Seq<u8> {
    if n <= 23 {
        seq![(0x40 + n) as u8]
    } else if n <= 0xff {
        seq![0x58u8] + be_bytes(n, 1)
    } else if n <= 0xffff {
        seq![0x59u8] + be_bytes(n, 2)
    } else if n <= 0xffff_ffff {
        seq![0x5au8] + be_bytes(n, 4)
    } else {
        seq![0x5bu8] + be_bytes(n, 8)
    }
}

/// The DAG-CBOR encoding of the IPLD bytes value `data`: the byte string's head,
/// then the bytes.
pub open spec fn dag_cbor_bytes(data: Seq<u8>) -> Seq<u8> {
    cbor_bytes_head(data.len()) + data
}

/// The Blake2b-256 multihash of `data`, in its binary form.
pub uninterp spec fn blake2b256_multihash(data: Seq<u8>) -> Seq<u8>;

/// Whether `multihash` has the shape of a binary Blake2b-256 multihash: the
/// code 0xb220 and the size 32 as varints (`a0 e4 02 20`), then 32 digest
/// bytes.
pub open spec fn is_blake2b256_multihash(multihash: Seq<u8>) -> bool {
    &&& multihash.len() == 36
    &&& multihash[0] == 0xa0u8
    &&& multihash[1] == 0xe4u8
    &&& multihash[2] == 0x02u8
    &&& multihash[3] == 0x20u8
}

/// The text (multibase base32) of the version 1 CID with content type `codec`
/// and the multihash whose binary form is `multihash`, or `None` where those
/// bytes are no multihash.
pub uninterp spec fn cid_v1_text(codec: u64, multihash: Seq<u8>) -> Option<Seq<char>>;

/// The canonical text of the CID written `text`, or `None` where `text` is no
/// CID.
pub uninterp spec fn cid_canonical_text(text: Seq<char>) -> Option<Seq<char>>;

/// `DagCborCodec.encode` of the IPLD value `Ipld::Bytes(data)`: the byte
/// string's CBOR head, then the bytes. Writing into a `Vec` never fails.
#[verifier::external_body]
fn dag_cbor_encode_bytes(data: &[u8]) -> (res: Option<Vec<u8>>)
    ensures
        res is Some,
        res matches Some(enc) ==> enc@ == dag_cbor_bytes(data@),
{
    DagCborCodec.encode(&Ipld::Bytes(data.to_vec())).ok()
}

/// `Code::Blake2b256.digest`, rendered with `Multihash::to_bytes`: named
/// `blake2b256_multihash`, with the varint code and size in front of the 32
/// digest bytes.
#[verifier::external_body]
fn blake2b256_digest(data: &[u8]) -> (res: Vec<u8>)
    ensures
        res@ == blake2b256_multihash(data@),
        is_blake2b256_multihash(res@),
{
    Code::Blake2b256.digest(data).to_bytes()
}

/// `Cid::new_v1` over the multihash read back with `Multihash::from_bytes`,
/// rendered with `Display`. Bytes of the Blake2b-256 multihash shape always
/// read back.
#[verifier::external_body]
fn new_cid_v1(codec: u64, multihash: &[u8]) -> (res: Option<String>)
    ensures
        match res {
            Some(t) => cid_v1_text(codec, multihash@) == Some(t@),
            None => cid_v1_text(codec, multihash@) is None,
        },
        is_blake2b256_multihash(multihash@) ==> res is Some,
{
    match Multihash::from_bytes(multihash) {
        Ok(mh) => Some(Cid::new_v1(codec, mh).to_string()),
        Err(_) => None,
    }
}

/// `Cid::try_from` a text, rendered back with `Display`. The rendering is
/// multibase base32 (lower case, after the prefix `b`) for a version 1 CID
/// and base58 for a version 0 one, so it is ASCII letters and digits only.
#[verifier::external_body]
fn parse_cid(text: &str) -> (res: Option<String>)
    ensures
        match res {
            Some(t) => cid_canonical_text(text@) == Some(t@),
            None => cid_canonical_text(text@) is None,
        },
        res matches Some(t) ==> t@.len() > 0 && forall|i: int|
            0 <= i < t@.len() ==> is_ascii_alphanumeric(#[trigger] t@[i]),
{
    match Cid::try_from(text) {
        Ok(c) => Some(c.to_string()),
        Err(_) => None,
    }
}

/// The CID of the IPLD bytes value `data`: version 1, DAG-CBOR, over the
/// Blake2b-256 multihash of its DAG-CBOR encoding, as text.
pub open spec fn spec_cid(data: Seq<u8>) -> Option<Seq<char>> {
    cid_v1_text(DAG_CBOR, blake2b256_multihash(dag_cbor_bytes(data)))
}

/// The DAG-CBOR version 1 CID of the IPLD bytes value `data`, as text. It is
/// always made.
pub fn cid(data: &[u8]) -> (res: String)
    ensures
        spec_cid(data@) == Some(res@),
        cid_v1_text(DAG_CBOR, blake2b256_multihash(cbor_bytes_head(data@.len()) + data@)) == Some(
            res@,
        ),
{
    let enc = match dag_cbor_encode_bytes(data) {
        Some(enc) => enc,
        None => {
            proof {
                assert(false);
            }
            Vec::new()
        },
    };
    let mh = blake2b256_digest(enc.as_slice());
    match new_cid_v1(DAG_CBOR, mh.as_slice()) {
        Some(t) => t,
        None => {
            proof {
                assert(false);
            }
            String::new()
        },
    }
}

/// The CID covers all of the data, whatever its length: it is the version 1
/// DAG-CBOR CID of the multihash of the byte string's head followed by every
/// byte of `data`, and those hashed bytes end with the whole of `data`.
pub proof fn lemma_cid_covers_all_data(data: Seq<u8>)
    ensures
        spec_cid(data) == cid_v1_text(
            DAG_CBOR,
            blake2b256_multihash(cbor_bytes_head(data.len()) + data),
        ),
        dag_cbor_bytes(data).len() == cbor_bytes_head(data.len()).len() + data.len(),
        dag_cbor_bytes(data).subrange(
            cbor_bytes_head(data.len()).len() as int,
            dag_cbor_bytes(data).len() as int,
        ) == data,
{
    let head = cbor_bytes_head(data.len());
    assert((head + data).subrange(head.len() as int, (head + data).len() as int) =~= data);
}

/// The first byte of a byte string's head tells how long the head is.
proof fn lemma_head_len_from_first_byte(n: nat, m: nat)
    requires
        cbor_bytes_head(n)[0] == cbor_bytes_head(m)[0],
    ensures
        cbor_bytes_head(n).len() == cbor_bytes_head(m).len(),
{
}

/// Different data are hashed as different bytes: two byte strings have the
/// same DAG-CBOR encoding exactly when they are the same, so no two files
/// that differ anywhere share the bytes their CIDs are computed over.
pub proof fn lemma_dag_cbor_bytes_injective(a: Seq<u8>, b: Seq<u8>)
    ensures
        dag_cbor_bytes(a) == dag_cbor_bytes(b) <==> a == b,
{
    if dag_cbor_bytes(a) == dag_cbor_bytes(b) {
        let ha = cbor_bytes_head(a.len());
        let hb = cbor_bytes_head(b.len());
        assert(ha.len() >= 1 && hb.len() >= 1);
        assert(dag_cbor_bytes(a)[0] == ha[0]);
        assert(dag_cbor_bytes(b)[0] == hb[0]);
        lemma_head_len_from_first_byte(a.len(), b.len());
        lemma_cid_covers_all_data(a);
        lemma_cid_covers_all_data(b);
        assert(a.len() == b.len());
        assert(a =~= b);
    }
}

/// The path that appending `name` to the path `root` gives: `name` itself if it
/// is absolute, else `name` after `root`, with a `/` between them where `root`
/// is not empty and does not end in one.
pub open spec fn pushed_path(root: Seq<char>, name: Seq<char>) -> Seq<char> {
    if name.len() > 0 && name[0] == '/' {
        name
    } else if root.len() > 0 && root.last() != '/' {
        root + seq!['/'] + name
    } else {
        root + name
    }
}

/// Appends `name` to the path `root`, as `PathBuf::push` does.
pub fn push_path(root: &str, name: &str) -> (res: String)
    ensures
        res@ == pushed_path(root@, name@),
{
    let n = name.unicode_len();
    if n > 0 && name.get_char(0) == '/' {
        return String::from_str(name);
    }
    let r = root.unicode_len();
    if r > 0 && root.get_char(r - 1) != '/' {
        let with_sep = String::from_str(root).concat("/");
        proof {
            reveal_strlit("/");
        }
        with_sep.concat(name)
    } else {
        String::from_str(root).concat(name)
    }
}

/// The status of a request for a file that does not exist.
pub const NOT_FOUND: u16 = 404;

/// The storage root: the one given, else `/tmp`.
pub open spec fn storage_root_of(storage_root: Option<&str>) -> Seq<char> {
    match storage_root {
        Some(r) => r@,
        None => "/tmp"@,
    }
}

/// Whether `name` is a plain path component: not empty, and ASCII letters and
/// digits only (no `/`, no `.`).
pub open spec fn is_plain_component(name: Seq<char>) -> bool {
    &&& name.len() > 0
    &&& forall|i: int| 0 <= i < name.len() ==> is_ascii_alphanumeric(#[trigger] name[i])
}

/// Whether `path` is the directory `root` with one plain component appended.
pub open spec fn one_component_under(root: Seq<char>, path: Seq<char>) -> bool {
    exists|name: Seq<char>| is_plain_component(name) && path == #[trigger] pushed_path(root, name)
}

/// Appending a plain component keeps the root: the path is the root, a `/`
/// where the root needs one, and the component.
pub proof fn lemma_component_stays_under_root(root: Seq<char>, name: Seq<char>)
    requires
        is_plain_component(name),
    ensures
        root.is_prefix_of(pushed_path(root, name)),
        pushed_path(root, name) == (if root.len() > 0 && root.last() != '/' {
            root + seq!['/'] + name
        } else {
            root + name
        }),
{
    assert(is_ascii_alphanumeric(name[0]));
    let p = pushed_path(root, name);
    assert(p.subrange(0, root.len() as int) =~= root);
}

/// Where the file with CID `cid` is stored under `storage_root` (the default
/// storage root is `/tmp`): the canonical text of the CID appended to the
/// root, as one plain component, so the path stays under the root. Not found
/// where `cid` is no CID.
pub fn get_file_path(storage_root: Option<&str>, cid: &str) -> (res: Result<String, u16>)
    ensures
        match cid_canonical_text(cid@) {
            Some(c) => res matches Ok(p) && p@ == pushed_path(storage_root_of(storage_root), c),
            None => res == Err::<String, u16>(NOT_FOUND),
        },
        res matches Ok(p) ==> one_component_under(storage_root_of(storage_root), p@)
            && storage_root_of(storage_root).is_prefix_of(p@),
{
    let canonical = match parse_cid(cid) {
        Some(c) => c,
        None => return Err(NOT_FOUND),
    };
    let root = match storage_root {
        Some(r) => r,
        None => "/tmp",
    };
    let path = push_path(root, canonical.as_str());
    proof {
        lemma_component_stays_under_root(root@, canonical@);
        assert(is_plain_component(canonical@));
    }
    Ok(path)
}

/// The routes of files.
pub open spec fn file_routes() -> Seq<(Method, Seq<char>, bool, Seq<char>)> {
    seq![
        (Method::Post, "/upload"@, false, "upload"@),
        (Method::Options, "/upload"@, false, "upload_options"@),
        (Method::Get, "/<cid>"@, false, "get_file"@),
        (Method::Options, "/<_cid>"@, false, "get_file_options"@),
    ]
}

/// The routes of files: `POST /upload`, `OPTIONS /upload`, `GET /<cid>` and
/// `OPTIONS /<_cid>`.
pub fn routes() -> (res: Vec<RouteInfo>)
    ensures
        routes_are(res@, file_routes()),
{
    let mut res: Vec<RouteInfo> = Vec::new();
    res.push(route(Method::Post, "/upload", false, "upload"));
    res.push(route(Method::Options, "/upload", false, "upload_options"));
    res.push(route(Method::Get, "/<cid>", false, "get_file"));
    res.push(route(Method::Options, "/<_cid>", false, "get_file_options"));
    res
}

} // verus!
