use vstd::prelude::*;
use vstd::string::*;

use crate::error::SignError;

verus! {

/// The suffix of the temporary file that a module is signed into before it
/// replaces the original: `.~signed~`.
pub open spec fn temp_suffix() -> Seq<char> {
    seq!['.', '~', 's', 'i', 'g', 'n', 'e', 'd', '~']
}

/// The suffix of the detached signature file: `.p7s`.
pub open spec fn p7s_suffix() -> Seq<char> {
    seq!['.', 'p', '7', 's']
}

/// Where a module is signed into when no destination is given.
pub open spec fn temp_path(module: Seq<char>) -> Seq<char> {
    module + temp_suffix()
}

/// Where the detached signature of a module is saved.
pub open spec fn p7s_path(module: Seq<char>) -> Seq<char> {
    module + p7s_suffix()
}

/// The resolved configuration of one signing run.
#[derive(Debug, Clone, PartialEq, Eq)]
pub struct SignerOptions {
    /// Path of the PEM private key.
    pub key_file: String,
    /// Path of the certificate, DER or PEM.
    pub x509_file: String,
    /// Path of the module to sign.
    pub module: String,
    /// Append a precomputed signature instead of signing.
    pub raw_sig: bool,
    /// Path of the precomputed signature; empty unless `raw_sig`.
    pub raw_sigfile: String,
    /// Also save the computed signature to `<module>.p7s`.
    pub save_sig: bool,
    /// Stop after computing (and possibly saving) the signature.
    pub sign_only: bool,
    /// Replace the module with the signed output.
    pub replace_orig: bool,
    /// Where the signed output is written.
    pub dest: String,
}

impl SignerOptions {
    /// With no destination given, the output goes to the temporary path that
    /// then replaces the module.
    pub open spec fn wf(self) -> bool {
        self.replace_orig ==> self.dest@ == temp_path(self.module@)
    }

    /// Resolves the run's parameters. The key, certificate and module paths
    /// are required, and are checked in that order. A raw signature file
    /// selects raw-signature mode; a destination turns off replacing the module.
    pub fn new(
        key_file: Option<String>,
        x509_file: Option<String>,
        module: Option<String>,
        raw_sigfile: Option<String>,
        save_sig: bool,
        sign_only: bool,
        dest: Option<String>,
    ) -> (r: Result<SignerOptions, SignError>)
        ensures
            key_file is None ==> r == Err::<SignerOptions, SignError>(SignError::MissingKey),
            key_file is Some && x509_file is None ==> r == Err::<SignerOptions, SignError>(
                SignError::MissingCert,
            ),
            key_file is Some && x509_file is Some && module is None ==> r == Err::<
                SignerOptions,
                SignError,
            >(SignError::MissingModule),
            r is Ok <==> key_file is Some && x509_file is Some && module is Some,
            r matches Ok(o) ==> {
                &&& o.wf()
                &&& o.key_file@ == key_file->0@
                &&& o.x509_file@ == x509_file->0@
                &&& o.module@ == module->0@
                &&& o.raw_sig == raw_sigfile is Some
                &&& o.raw_sigfile@ == (if raw_sigfile is Some {
                    raw_sigfile->0@
                } else {
                    Seq::<char>::empty()
                })
                &&& o.save_sig == save_sig
                &&& o.sign_only == sign_only
                &&& o.replace_orig == dest is None
                &&& o.dest@ == (if dest is Some {
                    dest->0@
                } else {
                    temp_path(module->0@)
                })
            },
    {
        let key_file = match key_file {
            Some(k) => k,
            None => return Err(SignError::MissingKey),
        };
        let x509_file = match x509_file {
            Some(x) => x,
            None => return Err(SignError::MissingCert),
        };
        let module = match module {
            Some(m) => m,
            None => return Err(SignError::MissingModule),
        };
        let raw_sig = raw_sigfile.is_some();
        let raw_sigfile = match raw_sigfile {
            Some(f) => f,
            None => String::new(),
        };
        let replace_orig = dest.is_none();
        let dest = match dest {
            Some(d) => d,
            None => {
                proof {
                    reveal_strlit(".~signed~");
                }
                let d = module.clone().concat(".~signed~");
                assert(d@ =~= temp_path(module@));
                d
            },
        };
        Ok(
            SignerOptions {
                key_file,
                x509_file,
                module,
                raw_sig,
                raw_sigfile,
                save_sig,
                sign_only,
                replace_orig,
                dest,
            },
        )
    }
}

} // verus!
