use vstd::prelude::*;
use vstd::slice::slice_subrange;
use vstd::slice::slice_to_vec;

use crate::error::SignError;

verus! {

/// The `id_type` value that marks the signature as a PKCS#7/CMS container.
pub const PKEY_ID_PKCS7: u8 = 2;

/// Length of the serialised trailer record.
pub const RECORD_LEN: usize = 12;

/// Length of the magic marker that ends a signed module.
pub const MAGIC_LEN: usize = 28;

/// The magic marker `~Module signature appended~\n`, as bytes.
pub open spec fn magic() -> Seq<u8> {
    seq![
        0x7eu8, 0x4du8, 0x6fu8, 0x64u8, 0x75u8, 0x6cu8, 0x65u8, 0x20u8,
        0x73u8, 0x69u8, 0x67u8, 0x6eu8, 0x61u8, 0x74u8, 0x75u8, 0x72u8, 0x65u8, 0x20u8,
        0x61u8, 0x70u8, 0x70u8, 0x65u8, 0x6eu8, 0x64u8, 0x65u8, 0x64u8, 0x7eu8, 0x0au8,
    ]
}

/// Big-endian encoding of a 32-bit unsigned integer.
pub open spec fn be32(n: u32) -> Seq<u8> {
    seq![(n >> 24u32) as u8, (n >> 16u32) as u8, (n >> 8u32) as u8, n as u8]
}

/// The integer whose big-endian encoding is `b0 b1 b2 b3`.
pub open spec fn be32_value(b0: u8, b1: u8, b2: u8, b3: u8) -> u32 {
    ((b0 as u32) << 24u32) | ((b1 as u32) << 16u32) | ((b2 as u32) << 8u32) | (b3 as u32)
}

/// The serialised trailer record for a signature blob of `len` bytes:
/// algorithm, hash, id type, signer length, key id length, three zero bytes,
/// then the blob length in big-endian.
pub open spec fn trailer_bytes(len: u32) -> Seq<u8> {
    seq![0u8, 0u8, PKEY_ID_PKCS7, 0u8, 0u8, 0u8, 0u8, 0u8] + be32(len)
}

/// A signed module: its contents, the signature blob, the trailer record for
/// the blob and the magic marker.
pub open spec fn signed_stream(module: Seq<u8>, sig: Seq<u8>) -> Seq<u8> {
    module + sig + trailer_bytes(sig.len() as u32) + magic()
}

/// What a loader recovers from a signed module by reading it from its end:
/// the module contents and the signature blob, or `None` where the stream
/// carries no well-formed trailer.
pub open spec fn parse_signed(s: Seq<u8>) -> Option<(Seq<u8>, Seq<u8>)> {
    let n = s.len();
    if n < 40 || s.subrange(n - 28, n as int) != magic() {
        None
    } else {
        let rec = s.subrange(n - 40, n - 28);
        let len = be32_value(rec[8], rec[9], rec[10], rec[11]) as int;
        if rec[2] != PKEY_ID_PKCS7 || len > n - 40 {
            None
        } else {
            Some((s.subrange(0, n - 40 - len), s.subrange(n - 40 - len, n - 40)))
        }
    }
}

pub proof fn lemma_be32_round_trip(n: u32)
    ensures
        be32_value(be32(n)[0], be32(n)[1], be32(n)[2], be32(n)[3]) == n,
{
    let b0 = (n >> 24u32) as u8;
    let b1 = (n >> 16u32) as u8;
    let b2 = (n >> 8u32) as u8;
    let b3 = n as u8;
    assert(((b0 as u32) << 24u32) | ((b1 as u32) << 16u32) | ((b2 as u32) << 8u32) | (b3 as u32)
        == n) by (bit_vector)
        requires
            b0 == (n >> 24u32) as u8,
            b1 == (n >> 16u32) as u8,
            b2 == (n >> 8u32) as u8,
            b3 == n as u8,
    ;
}

pub proof fn lemma_be32_decode(b0: u8, b1: u8, b2: u8, b3: u8)
    ensures
        be32(be32_value(b0, b1, b2, b3)) == seq![b0, b1, b2, b3],
{
    let n = be32_value(b0, b1, b2, b3);
    assert((n >> 24u32) as u8 == b0 && (n >> 16u32) as u8 == b1 && (n >> 8u32) as u8 == b2
        && n as u8 == b3) by (bit_vector)
        requires
            n == ((b0 as u32) << 24u32) | ((b1 as u32) << 16u32) | ((b2 as u32) << 8u32) | (
            b3 as u32),
    ;
    assert(be32(n) =~= seq![b0, b1, b2, b3]);
}

/// The fixed-layout record that follows the signature blob in a signed module.
#[derive(Debug, Clone, Copy, PartialEq, Eq)]
pub struct ModuleSignature {
    pub algo: u8,
    pub hash: u8,
    pub id_type: u8,
    pub signer_len: u8,
    pub key_id_len: u8,
    pub pad: [u8; 3],
    pub sig_len: u32,
}

impl ModuleSignature {
    /// The record's bytes: the five one-byte fields, the padding, and the
    /// signature length in big-endian.
    pub open spec fn spec_bytes(self) -> Seq<u8> {
        seq![
            self.algo,
            self.hash,
            self.id_type,
            self.signer_len,
            self.key_id_len,
            self.pad@[0],
            self.pad@[1],
            self.pad@[2],
        ] + be32(self.sig_len)
    }

    /// Every field but `sig_len` holds its fixed value for a PKCS#7 signature.
    pub open spec fn has_fixed_fields(self) -> bool {
        &&& self.algo == 0
        &&& self.hash == 0
        &&& self.id_type == PKEY_ID_PKCS7
        &&& self.signer_len == 0
        &&& self.key_id_len == 0
        &&& self.pad@ == seq![0u8, 0u8, 0u8]
    }

    /// A record for a PKCS#7 signature with a zero length.
    pub fn new() -> (r: ModuleSignature)
        ensures
            r.has_fixed_fields(),
            r.sig_len == 0,
    {
        let r = ModuleSignature {
            algo: 0,
            hash: 0,
            id_type: PKEY_ID_PKCS7,
            signer_len: 0,
            key_id_len: 0,
            pad: [0, 0, 0],
            sig_len: 0,
        };
        assert(r.pad@ =~= seq![0u8, 0u8, 0u8]);
        r
    }

    /// The record for a signature blob of `sig` bytes; fails where the
    /// length does not fit the 32-bit length field.
    pub fn for_signature(sig: &[u8]) -> (r: Result<ModuleSignature, SignError>)
        ensures
            sig@.len() <= u32::MAX <==> r is Ok,
            r is Ok ==> r->Ok_0.has_fixed_fields() && r->Ok_0.sig_len == sig@.len(),
            r is Err ==> r->Err_0 == SignError::SignatureTooLong,
    {
        if sig.len() > u32::MAX as usize {
            return Err(SignError::SignatureTooLong);
        }
        let mut r = ModuleSignature::new();
        r.sig_len = sig.len() as u32;
        Ok(r)
    }

    /// The record as twelve bytes, in field order, with `sig_len` in big-endian.
    pub fn to_bytes(&self) -> (r: Vec<u8>)
        ensures
            r@ == self.spec_bytes(),
            r@.len() == RECORD_LEN,
    {
        let mut v: Vec<u8> = Vec::with_capacity(RECORD_LEN);
        v.push(self.algo);
        v.push(self.hash);
        v.push(self.id_type);
        v.push(self.signer_len);
        v.push(self.key_id_len);
        v.push(self.pad[0]);
        v.push(self.pad[1]);
        v.push(self.pad[2]);
        v.push((self.sig_len >> 24u32) as u8);
        v.push((self.sig_len >> 16u32) as u8);
        v.push((self.sig_len >> 8u32) as u8);
        v.push(self.sig_len as u8);
        assert(v@ =~= self.spec_bytes());
        v
    }

    /// Reads a record back from its twelve bytes; `None` for any other length.
    pub fn from_bytes(b: &[u8]) -> (r: Option<ModuleSignature>)
        ensures
            b@.len() == RECORD_LEN <==> r is Some,
            r is Some ==> r->0.spec_bytes() == b@,
    {
        if b.len() != RECORD_LEN {
            return None;
        }
        let sig_len: u32 = ((b[8] as u32) << 24u32) | ((b[9] as u32) << 16u32) | ((b[10] as u32)
            << 8u32) | (b[11] as u32);
        let r = ModuleSignature {
            algo: b[0],
            hash: b[1],
            id_type: b[2],
            signer_len: b[3],
            key_id_len: b[4],
            pad: [b[5], b[6], b[7]],
            sig_len,
        };
        proof {
            lemma_be32_decode(b@[8], b@[9], b@[10], b@[11]);
        }
        assert(r.spec_bytes() =~= b@);
        Some(r)
    }
}

impl Default for ModuleSignature {
    fn default() -> (r: ModuleSignature)
        ensures
            r.has_fixed_fields(),
            r.sig_len == 0,
    {
        ModuleSignature::new()
    }
}

/// The serialised record of any record with the fixed field values is the
/// trailer for its length, and is twelve bytes long.
pub proof fn lemma_record_layout(r: ModuleSignature)
    requires
        r.has_fixed_fields(),
    ensures
        r.spec_bytes() == trailer_bytes(r.sig_len),
        r.spec_bytes().len() == RECORD_LEN,
{
    assert(r.spec_bytes() =~= trailer_bytes(r.sig_len));
}

/// For all module contents and every signature blob whose length fits the
/// length field, the record that the signed stream carries is twelve bytes
/// long, has the fixed field values, and its length field reads back as the
/// blob's exact length.
pub proof fn lemma_record_matches_blob(module: Seq<u8>, sig: Seq<u8>)
    requires
        sig.len() <= u32::MAX,
    ensures
        ({
            let s = signed_stream(module, sig);
            let rec = s.subrange(s.len() - 40, s.len() - 28);
            &&& rec.len() == RECORD_LEN
            &&& rec == trailer_bytes(sig.len() as u32)
            &&& be32_value(rec[8], rec[9], rec[10], rec[11]) as int == sig.len()
        }),
{
    let s = signed_stream(module, sig);
    assert(s.subrange(s.len() - 40, s.len() - 28) =~= trailer_bytes(sig.len() as u32));
    lemma_be32_round_trip(sig.len() as u32);
}

/// The magic marker as bytes.
pub fn magic_bytes() -> (r: Vec<u8>)
    ensures
        r@ == magic(),
{
    let r: Vec<u8> = vec![
        0x7e, 0x4d, 0x6f, 0x64, 0x75, 0x6c, 0x65, 0x20,
        0x73, 0x69, 0x67, 0x6e, 0x61, 0x74, 0x75, 0x72, 0x65, 0x20,
        0x61, 0x70, 0x70, 0x65, 0x6e, 0x64, 0x65, 0x64, 0x7e, 0x0a,
    ];
    assert(r@ =~= magic());
    r
}

/// Appends the signature blob, its trailer record and the magic marker to
/// the module contents. Fails only where the blob's length does not fit the
/// record's 32-bit length field.
pub fn build_signed_stream(module: Vec<u8>, sig: &[u8]) -> (r: Result<Vec<u8>, SignError>)
    ensures
        sig@.len() <= u32::MAX <==> r is Ok,
        r is Ok ==> r->Ok_0@ == signed_stream(module@, sig@),
        r is Err ==> r->Err_0 == SignError::SignatureTooLong,
{
    let rec = match ModuleSignature::for_signature(sig) {
        Ok(rec) => rec,
        Err(e) => return Err(e),
    };
    proof {
        lemma_record_layout(rec);
    }
    let mut out = module;
    let mut blob = slice_to_vec(sig);
    out.append(&mut blob);
    let mut rec_bytes = rec.to_bytes();
    out.append(&mut rec_bytes);
    let mut m = magic_bytes();
    out.append(&mut m);
    assert(out@ =~= signed_stream(module@, sig@));
    Ok(out)
}

/// Reads a signed module from its end: checks the magic marker and the
/// record before it, and splits off the signature blob that the record's
/// length names. Returns the module contents and the blob.
pub fn split_signed_stream(s: &[u8]) -> (r: Option<(Vec<u8>, Vec<u8>)>)
    ensures
        r is None <==> parse_signed(s@) is None,
        r matches Some((a, b)) ==> parse_signed(s@) == Some((a@, b@)),
{
    let n = s.len();
    if n < RECORD_LEN + MAGIC_LEN {
        return None;
    }
    let m = magic_bytes();
    let mut i: usize = 0;
    while i < MAGIC_LEN
        invariant
            n == s@.len(),
            n >= 40,
            m@ == magic(),
            i <= MAGIC_LEN,
            forall|j: int| 0 <= j < i ==> s@[n - 28 + j] == magic()[j],
        decreases MAGIC_LEN - i,
    {
        if s[n - MAGIC_LEN + i] != m[i] {
            assert(s@.subrange(n - 28, n as int)[i as int] != magic()[i as int]);
            return None;
        }
        i = i + 1;
    }
    assert(s@.subrange(n - 28, n as int) =~= magic());
    let rec_start = n - MAGIC_LEN - RECORD_LEN;
    let rec = match ModuleSignature::from_bytes(slice_subrange(s, rec_start, n - MAGIC_LEN)) {
        Some(rec) => rec,
        None => return None,
    };
    let ghost recs = s@.subrange(n - 40, n - 28);
    proof {
        lemma_be32_round_trip(rec.sig_len);
        assert(rec.spec_bytes()[8] == recs[8] && rec.spec_bytes()[9] == recs[9]
            && rec.spec_bytes()[10] == recs[10] && rec.spec_bytes()[11] == recs[11]);
        assert(be32(rec.sig_len) =~= rec.spec_bytes().subrange(8, 12));
    }
    if rec.id_type != PKEY_ID_PKCS7 || rec.sig_len as usize > rec_start {
        return None;
    }
    let sig_start = rec_start - rec.sig_len as usize;
    let module = slice_to_vec(slice_subrange(s, 0, sig_start));
    let sig = slice_to_vec(slice_subrange(s, sig_start, rec_start));
    Some((module, sig))
}

/// Reading a signed module back from its end recovers the module contents
/// and the signature blob byte for byte.
pub proof fn lemma_round_trip(module: Seq<u8>, sig: Seq<u8>)
    requires
        sig.len() <= u32::MAX,
    ensures
        parse_signed(signed_stream(module, sig)) == Some((module, sig)),
{
    let s = signed_stream(module, sig);
    let n = s.len();
    let l = sig.len() as u32;
    assert(n == module.len() + sig.len() + 40);
    assert(s.subrange(n - 28, n as int) =~= magic());
    let rec = s.subrange(n - 40, n - 28);
    assert(rec =~= trailer_bytes(l));
    lemma_be32_round_trip(l);
    assert(be32_value(rec[8], rec[9], rec[10], rec[11]) == l);
    assert(s.subrange(0, n - 40 - sig.len()) =~= module);
    assert(s.subrange(n - 40 - sig.len(), n - 40) =~= sig);
}

} // verus!
