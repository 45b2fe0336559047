//! The names under which credentials stand in a device's store, and what a
//! store that is opened makes of the names and files it finds.

use crate::identity_laws;
use crate::material::ValidatedCredential;
use crate::state::StoreError;
use crate::text;
use vstd::prelude::*;
use vstd::string::*;

verus! {

/// The directory of an installed revision.
pub open spec fn revision_name_of(revision: u64) -> Seq<char> {
    "revision-"@ + text::decimal(revision as nat)
}

pub fn revision_name(revision: u64) -> (r: String)
    ensures
        r@ == revision_name_of(revision),
{
    "revision-".to_owned().concat(text::decimal_text(revision).as_str())
}

/// The directory in which a revision is written before it is installed.
pub open spec fn staging_name_of(revision: u64) -> Seq<char> {
    ".revision-"@ + text::decimal(revision as nat) + ".staging"@
}

pub fn staging_name(revision: u64) -> (r: String)
    ensures
        r@ == staging_name_of(revision),
{
    ".revision-".to_owned().concat(text::decimal_text(revision).as_str()).concat(".staging")
}

/// A name that only an installed revision bears.
pub open spec fn is_committed(name: Seq<char>) -> bool {
    text::starts_with(name, "revision-"@)
}

pub open spec fn any_committed(names: Seq<Seq<char>>) -> bool {
    exists|i: int| 0 <= i < names.len() && is_committed(#[trigger] names[i])
}

/// Whether a revision was ever installed, by the names in the directory of
/// credentials.
pub fn has_committed_revision(names: &Vec<String>) -> (r: bool)
    ensures
        r == any_committed(text::texts(names@)),
{
    let prefix = text::chars_of("revision-");
    let mut i: usize = 0;
    while i < names.len()
        invariant
            i <= names@.len(),
            prefix@ == "revision-"@,
            forall|j: int| 0 <= j < i ==> !is_committed(#[trigger] text::texts(names@)[j]),
        decreases names@.len() - i,
    {
        let name = text::chars_of(names[i].as_str());
        assert(text::texts(names@)[i as int] == name@);
        if text::has_prefix(name.as_slice(), prefix.as_slice()) {
            return true;
        }
        i = i + 1;
    }
    false
}

/// How a store is opened.
#[derive(Clone, Copy, Debug, PartialEq, Eq, Structural)]
pub enum Opening {
    /// The stored state is read back.
    Resume,
    /// The first credential is installed and the first state written.
    Initialize,
}

/// A store whose state is missing is initialized only if no revision was
/// ever installed in it.
pub fn opening(state_found: bool, names: &Vec<String>) -> (r: Result<Opening, StoreError>)
    ensures
        r == (if state_found {
            Ok::<Opening, StoreError>(Opening::Resume)
        } else if any_committed(text::texts(names@)) {
            Err(StoreError::InvalidState)
        } else {
            Ok(Opening::Initialize)
        }),
{
    if state_found {
        Ok(Opening::Resume)
    } else if has_committed_revision(names) {
        Err(StoreError::InvalidState)
    } else {
        Ok(Opening::Initialize)
    }
}

/// A file that was read and holds the given bytes.
pub open spec fn holds(file: Option<Vec<u8>>, bytes: Seq<u8>) -> bool {
    file is Some && file->0@ == bytes
}

fn file_holds(file: &Option<Vec<u8>>, bytes: &[u8]) -> (r: bool)
    ensures
        r == holds(*file, bytes@),
{
    match file {
        Some(found) => text::same_bytes(found.as_slice(), bytes),
        None => false,
    }
}

/// A revision that is already installed may be installed again only with the
/// same three files.
pub fn verify_existing_revision(
    ca: &Option<Vec<u8>>,
    certificate: &Option<Vec<u8>>,
    private_key: &Option<Vec<u8>>,
    credential: &ValidatedCredential,
) -> (r: Result<(), StoreError>)
    ensures
        r == (if holds(*ca, credential.ca@) && holds(*certificate, credential.certificate@)
            && holds(*private_key, credential.private_key@) {
            Ok::<(), StoreError>(())
        } else {
            Err(StoreError::RevisionConflict)
        }),
{
    if file_holds(ca, credential.ca.as_slice()) && file_holds(
        certificate,
        credential.certificate.as_slice(),
    ) && file_holds(private_key, credential.private_key.as_slice()) {
        Ok(())
    } else {
        Err(StoreError::RevisionConflict)
    }
}

/// What a broken-off installation leaves behind is never taken for an
/// installed revision, and an installed revision is never overlooked.
pub proof fn law_only_installed_revisions_are_committed(revision: u64)
    ensures
        is_committed(revision_name_of(revision)),
        !is_committed(staging_name_of(revision)),
{
    reveal_strlit("revision-");
    reveal_strlit(".revision-");
    let name = revision_name_of(revision);
    assert(name.take("revision-"@.len() as int) =~= "revision-"@);
    let staged = staging_name_of(revision);
    assert(staged[0] == '.');
    assert(staged.take("revision-"@.len() as int)[0] == '.');
}

/// Two revisions never share a directory.
pub proof fn law_revisions_have_their_own_directories(a: u64, b: u64)
    requires
        revision_name_of(a) == revision_name_of(b) || staging_name_of(a) == staging_name_of(b),
    ensures
        a == b,
{
    let x = text::decimal(a as nat);
    let y = text::decimal(b as nat);
    if revision_name_of(a) == revision_name_of(b) {
        let p = "revision-"@.len() as int;
        assert(revision_name_of(a).skip(p) =~= x);
        assert(revision_name_of(b).skip(p) =~= y);
    } else {
        let p = ".revision-"@.len() as int;
        let q = ".staging"@.len() as int;
        assert(staging_name_of(a).skip(p) =~= x + ".staging"@);
        assert(staging_name_of(b).skip(p) =~= y + ".staging"@);
        assert((x + ".staging"@).len() == (y + ".staging"@).len());
        assert((x + ".staging"@).take(x.len() as int) =~= x);
        assert((y + ".staging"@).take(y.len() as int) =~= y);
    }
    identity_laws::lemma_decimal_injective(a as nat, b as nat);
}

} // verus!
