use openssl::pkey::{PKey, Private};
use openssl::x509::X509;
use vstd::prelude::*;
use vstd::string::*;

use crate::crypto::{load_private_key, load_x509, sign_contents, MEM_BIO_MAX};
use crate::error::SignError;
use crate::options::{p7s_path, temp_path, SignerOptions};
use crate::trailer::{build_signed_stream, signed_stream};

verus! {

/// A file-system step of a signing run, performed in order by the caller.
#[derive(Debug, Clone, PartialEq, Eq)]
pub enum Action {
    /// Create (or truncate) the file at `path` and write `data` to it.
    Write { path: String, data: Vec<u8> },
    /// Rename the file at `from` to `to`, replacing `to`.
    Rename { from: String, to: String },
}

/// The mathematical form of an [`Action`].
pub enum ActionView {
    Write(Seq<char>, Seq<u8>),
    Rename(Seq<char>, Seq<char>),
}

impl View for Action {
    type V = ActionView;

    open spec fn view(&self) -> ActionView {
        match self {
            Action::Write { path, data } => ActionView::Write(path@, data@),
            Action::Rename { from, to } => ActionView::Rename(from@, to@),
        }
    }
}

/// Where the signature blob comes from: computed from a key and a
/// certificate, or taken as it is from a precomputed signature file.
pub enum SigningStrategy {
    /// Sign with the contents of the PEM key file and of the certificate file.
    Compute { key_pem: Vec<u8>, cert: Vec<u8> },
    /// Use these bytes as the signature blob.
    UseRaw(Vec<u8>),
}

/// The steps of a run whose module contents are `module` and whose signature
/// blob is `sig`, or `None` where the blob is too long for the trailer.
/// In signing mode the blob is first saved to `<module>.p7s` if asked, and
/// the run stops there if only a signature was asked for. Otherwise the
/// signed stream is written to the destination, which then replaces the
/// module where no destination was given.
pub open spec fn spec_plan(opts: SignerOptions, module: Seq<u8>, sig: Seq<u8>) -> Option<
    Seq<ActionView>,
> {
    let save = if !opts.raw_sig && opts.save_sig {
        seq![ActionView::Write(p7s_path(opts.module@), sig)]
    } else {
        Seq::empty()
    };
    if !opts.raw_sig && opts.sign_only {
        Some(save)
    } else if sig.len() > u32::MAX {
        None
    } else {
        let write = seq![ActionView::Write(opts.dest@, signed_stream(module, sig))];
        let rename = if opts.replace_orig {
            seq![ActionView::Rename(opts.dest@, opts.module@)]
        } else {
            Seq::empty()
        };
        Some(save + write + rename)
    }
}

/// A file system as a map from paths to contents.
pub type FileSystem = Map<Seq<char>, Seq<u8>>;

pub open spec fn apply_action(fs: FileSystem, a: ActionView) -> FileSystem {
    match a {
        ActionView::Write(p, d) => fs.insert(p, d),
        ActionView::Rename(from, to) => if fs.contains_key(from) {
            fs.remove(from).insert(to, fs[from])
        } else {
            fs
        },
    }
}

/// The file system after performing `acts` in order.
pub open spec fn apply_actions(fs: FileSystem, acts: Seq<ActionView>) -> FileSystem
    decreases acts.len(),
{
    if acts.len() == 0 {
        fs
    } else {
        apply_actions(apply_action(fs, acts[0]), acts.subrange(1, acts.len() as int))
    }
}

/// Decides the file-system steps of a run from its options, the module
/// contents and the signature blob.
pub fn plan_outputs(opts: &SignerOptions, module: Vec<u8>, sig: Vec<u8>) -> (r: Result<
    Vec<Action>,
    SignError,
>)
    ensures
        r matches Ok(v) ==> spec_plan(*opts, module@, sig@) == Some(v@.map_values(|a: Action| a@)),
        r matches Err(e) ==> spec_plan(*opts, module@, sig@) is None && e
            == SignError::SignatureTooLong,
        r is Ok <==> spec_plan(*opts, module@, sig@) is Some,
{
    let mut acts: Vec<Action> = Vec::new();
    if !opts.raw_sig && opts.save_sig {
        proof {
            reveal_strlit(".p7s");
        }
        let path = opts.module.clone().concat(".p7s");
        assert(path@ =~= p7s_path(opts.module@));
        acts.push(Action::Write { path, data: sig.clone() });
    }
    assert(acts@.map_values(|a: Action| a@) =~= (if !opts.raw_sig && opts.save_sig {
        seq![ActionView::Write(p7s_path(opts.module@), sig@)]
    } else {
        Seq::empty()
    }));
    if !opts.raw_sig && opts.sign_only {
        return Ok(acts);
    }
    let stream = match build_signed_stream(module, sig.as_slice()) {
        Ok(s) => s,
        Err(e) => return Err(e),
    };
    acts.push(Action::Write { path: opts.dest.clone(), data: stream });
    if opts.replace_orig {
        acts.push(Action::Rename { from: opts.dest.clone(), to: opts.module.clone() });
    }
    assert(acts@.map_values(|a: Action| a@) =~= spec_plan(*opts, module@, sig@)->0);
    Ok(acts)
}

/// Runs the decisions of one signing run: obtains the signature blob by the
/// strategy and returns the file-system steps that complete the run. With a
/// raw signature, the blob is passed through untouched. Which steps follow
/// is decided by `opts` alone; the strategy only supplies the blob.
pub fn sign_module(opts: &SignerOptions, module: Vec<u8>, strategy: SigningStrategy) -> (r:
    Result<Vec<Action>, SignError>)
    ensures
        strategy matches SigningStrategy::UseRaw(sig) ==> (match r {
            Ok(v) => spec_plan(*opts, module@, sig@) == Some(v@.map_values(|a: Action| a@)),
            Err(e) => spec_plan(*opts, module@, sig@) is None && e == SignError::SignatureTooLong,
        }),
        strategy matches SigningStrategy::Compute { key_pem, .. } && key_pem@.len() > MEM_BIO_MAX
            ==> r == Err::<Vec<Action>, SignError>(SignError::InputTooLarge),
        strategy matches SigningStrategy::Compute { .. } ==> (match r {
            Ok(v) => exists|sig: Seq<u8>|
                spec_plan(*opts, module@, sig) == Some(v@.map_values(|a: Action| a@)),
            Err(e) => e != SignError::MissingKey && e != SignError::MissingCert && e
                != SignError::MissingModule,
        }),
{
    match strategy {
        SigningStrategy::UseRaw(sig) => plan_outputs(opts, module, sig),
        SigningStrategy::Compute { key_pem, cert } => {
            let key: PKey<Private> = match load_private_key(key_pem.as_slice()) {
                Ok(k) => k,
                Err(e) => return Err(e),
            };
            let x509: X509 = match load_x509(cert.as_slice()) {
                Ok(c) => c,
                Err(e) => return Err(e),
            };
            let sig = match sign_contents(&x509, &key, module.as_slice()) {
                Ok(s) => s,
                Err(e) => return Err(e),
            };
            plan_outputs(opts, module, sig)
        },
    }
}

proof fn lemma_apply_single(fs: FileSystem, a: ActionView)
    ensures
        apply_actions(fs, seq![a]) == apply_action(fs, a),
{
    assert(seq![a].subrange(1, 1) =~= Seq::<ActionView>::empty());
    assert(apply_actions(apply_action(fs, a), Seq::<ActionView>::empty()) == apply_action(fs, a));
}

proof fn lemma_apply_concat(fs: FileSystem, a: Seq<ActionView>, b: Seq<ActionView>)
    ensures
        apply_actions(fs, a + b) == apply_actions(apply_actions(fs, a), b),
    decreases a.len(),
{
    if a.len() == 0 {
        assert(a + b =~= b);
    } else {
        assert((a + b).subrange(1, (a + b).len() as int) =~= a.subrange(1, a.len() as int) + b);
        lemma_apply_concat(apply_action(fs, a[0]), a.subrange(1, a.len() as int), b);
    }
}

proof fn lemma_paths_distinct(m: Seq<char>)
    ensures
        p7s_path(m) != m,
        temp_path(m) != m,
        p7s_path(m) != temp_path(m),
{
    assert(p7s_path(m).len() == m.len() + 4);
    assert(temp_path(m).len() == m.len() + 9);
}

/// With a signature that is only to be computed, the run leaves every file
/// as it was, but for `<module>.p7s`, which holds the blob exactly when
/// saving it was asked for: no destination is written and the module is not
/// replaced.
pub proof fn lemma_sign_only_effects(
    opts: SignerOptions,
    module: Seq<u8>,
    sig: Seq<u8>,
    fs: FileSystem,
)
    requires
        !opts.raw_sig,
        opts.sign_only,
    ensures
        spec_plan(opts, module, sig) is Some,
        apply_actions(fs, spec_plan(opts, module, sig)->0) == (if opts.save_sig {
            fs.insert(p7s_path(opts.module@), sig)
        } else {
            fs
        }),
{
    if opts.save_sig {
        lemma_apply_single(fs, ActionView::Write(p7s_path(opts.module@), sig));
    }
}

/// Without a destination, the module's path ends up holding the signed
/// stream and the temporary file is gone; with a destination, the signed
/// stream is at the destination and, where the destination is not the
/// module itself, the module is left as it was.
pub proof fn lemma_output_placement(
    opts: SignerOptions,
    module: Seq<u8>,
    sig: Seq<u8>,
    fs: FileSystem,
)
    requires
        opts.wf(),
        opts.raw_sig || !opts.sign_only,
        sig.len() <= u32::MAX,
    ensures
        spec_plan(opts, module, sig) is Some,
        ({
            let after = apply_actions(fs, spec_plan(opts, module, sig)->0);
            let m = opts.module@;
            &&& opts.replace_orig ==> after.contains_key(m) && after[m] == signed_stream(
                module,
                sig,
            ) && !after.contains_key(opts.dest@)
            &&& !opts.replace_orig ==> after.contains_key(opts.dest@) && after[opts.dest@]
                == signed_stream(module, sig)
            &&& !opts.replace_orig && opts.dest@ != m ==> after.contains_key(m)
                == fs.contains_key(m) && (fs.contains_key(m) ==> after[m] == fs[m])
        }),
{
    let m = opts.module@;
    let stream = signed_stream(module, sig);
    lemma_paths_distinct(m);
    let save = if !opts.raw_sig && opts.save_sig {
        seq![ActionView::Write(p7s_path(m), sig)]
    } else {
        Seq::empty()
    };
    let w = ActionView::Write(opts.dest@, stream);
    let fs1 = apply_actions(fs, save);
    if !opts.raw_sig && opts.save_sig {
        lemma_apply_single(fs, ActionView::Write(p7s_path(m), sig));
    }
    assert(fs1.contains_key(m) == fs.contains_key(m) && (fs.contains_key(m) ==> fs1[m] == fs[m]));
    let fs2 = apply_action(fs1, w);
    lemma_apply_single(fs1, w);
    lemma_apply_concat(fs, save, seq![w]);
    if opts.replace_orig {
        let r = ActionView::Rename(opts.dest@, m);
        lemma_apply_single(fs2, r);
        lemma_apply_concat(fs, save + seq![w], seq![r]);
        assert(apply_action(fs2, r) =~= fs2.remove(opts.dest@).insert(m, stream));
    } else {
        assert(save + seq![w] + Seq::<ActionView>::empty() =~= save + seq![w]);
    }
}

/// Raw-signature mode is a pass-through: for the same module contents,
/// blob, destination and replacement policy, it plans exactly what signing
/// mode plans when that blob is the computed signature and neither saving
/// nor stopping early was asked for.
pub proof fn lemma_raw_is_pass_through(
    raw: SignerOptions,
    signing: SignerOptions,
    module: Seq<u8>,
    sig: Seq<u8>,
)
    requires
        raw.raw_sig,
        !signing.raw_sig,
        !signing.save_sig,
        !signing.sign_only,
        raw.module@ == signing.module@,
        raw.dest@ == signing.dest@,
        raw.replace_orig == signing.replace_orig,
    ensures
        spec_plan(raw, module, sig) == spec_plan(signing, module, sig),
{
}

} // verus!
