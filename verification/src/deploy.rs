//! Deploy dispatch and file-based deployment against the version store.

use vstd::prelude::*;

use crate::errors::PipelineError;
use crate::store::VersionStore;
use crate::store::Version;

verus! {

/// The deploy method resolved from the configuration.
#[derive(Debug, PartialEq, Eq)]
pub enum DeployMethod {
    /// Run an external deployment command; no version directory is
    /// produced and the `current` pointer is not touched.
    Command { command: String },
    /// Copy the artifacts into a fresh version directory under the target
    /// root and repoint `current` to it.
    Files { artifacts: Vec<String>, target_dir: String },
}

/// Resolve the deploy method: a configured command wins, else artifacts
/// plus a target root select file deployment, else nothing is configured.
///
/// The name `deploy` is kept from the pipeline's public surface; the
/// chosen method is returned for the caller to execute, command mode
/// through the process runner, file mode through the version store.
pub fn deploy(
    command: &Option<String>,
    artifacts: &Option<Vec<String>>,
    target_dir: &Option<String>,
) -> (r: Result<DeployMethod, PipelineError>)
    ensures
        command matches Some(c) ==> r == Ok::<DeployMethod, PipelineError>(
            (DeployMethod::Command { command: *c }),
        ),
        command is None && artifacts is Some && target_dir is Some ==> {
            &&& r matches Ok(m)
            &&& m matches DeployMethod::Files { artifacts: a2, target_dir: t2 }
            &&& a2.deep_view() == artifacts->Some_0.deep_view()
            &&& t2@ == target_dir->Some_0@
        },
        command is None && (artifacts is None || target_dir is None) ==> r == Err::<
            DeployMethod,
            PipelineError,
        >(PipelineError::NoDeployMethodConfigured),
{
    match command {
        Option::Some(c) => Ok(DeployMethod::Command { command: c.clone() }),
        Option::None => {
            match (artifacts, target_dir) {
                (Option::Some(a), Option::Some(t)) => {
                    let a2 = a.clone();
                    proof {
                        assert forall|i: int| 0 <= i < a@.len() implies a2@[i] == a@[i] by {
                            assert(cloned::<String>(a@[i], a2@[i]));
                        }
                        assert(a2.deep_view() =~= a.deep_view());
                    }
                    Ok(DeployMethod::Files { artifacts: a2, target_dir: t.clone() })
                },
                _ => Err(PipelineError::NoDeployMethodConfigured),
            }
        },
    }
}

/// The base file name of a path: what follows the last separator.
pub open spec fn base_name_spec(s: Seq<char>) -> Seq<char>
    decreases s.len(),
{
    if s.len() == 0 {
        Seq::empty()
    } else if s.last() == '/' {
        Seq::empty()
    } else {
        base_name_spec(s.drop_last()).push(s.last())
    }
}

/// Past a cut that sits at the start or right after a separator, with no
/// separator beyond it, the base name is the suffix from the cut on.
proof fn lemma_base_name_suffix(s: Seq<char>, k: int)
    requires
        0 <= k <= s.len(),
        k == 0 || s[k - 1] == '/',
        forall|j: int| k <= j < s.len() ==> #[trigger] s[j] != '/',
    ensures
        base_name_spec(s) == s.subrange(k, s.len() as int),
    decreases s.len(),
{
    if k == s.len() {
        assert(s.subrange(k, s.len() as int) =~= Seq::<char>::empty());
        if s.len() > 0 {
            assert(s.last() == '/');
        }
    } else {
        assert(s[s.len() - 1] != '/');
        let p = s.drop_last();
        assert(forall|j: int| k <= j < p.len() ==> #[trigger] p[j] != '/');
        if k > 0 {
            assert(p[k - 1] == s[k - 1]);
        }
        lemma_base_name_suffix(p, k);
        assert(s.subrange(k, s.len() as int) =~= p.subrange(k, p.len() as int).push(s.last()));
    }
}

/// The base file name of an artifact path, the part after the last `/`;
/// empty when the path ends in a separator or is itself empty.
pub fn base_name(path: &str) -> (r: String)
    ensures
        r@ == base_name_spec(path@),
{
    let n = path.unicode_len();
    let mut k = n;
    while k > 0 && path.get_char(k - 1) != '/'
        invariant
            k <= n,
            n == path@.len(),
            forall|j: int| k <= j < n ==> #[trigger] path@[j] != '/',
        decreases k,
    {
        k -= 1;
    }
    proof {
        lemma_base_name_suffix(path@, k as int);
    }
    String::from_str(path.substring_char(k, n))
}

/// A base name that can serve as a copy destination inside the version
/// directory: nonempty and not a relative path component.  A path whose
/// last component is `.` or `..` names no file of its own — copying under
/// it would escape the version directory — and is rejected, as
/// Path::file_name refuses such paths.
pub open spec fn usable_base_name(b: Seq<char>) -> bool {
    &&& b.len() > 0
    &&& b != seq!['.']
    &&& b != seq!['.', '.']
}

/// The staging error for the first failing artifact, in input order:
/// every artifact before position `i` is present with a usable base name,
/// and the one at `i` is absent, or present under a path with no usable
/// base name to copy under.
pub open spec fn file_deploy_error_at(
    artifacts: Seq<String>,
    present: Seq<bool>,
    i: int,
    e: PipelineError,
) -> bool {
    &&& 0 <= i < artifacts.len()
    &&& forall|j: int|
        0 <= j < i ==> #[trigger] present[j] && usable_base_name(base_name_spec(artifacts[j]@))
    &&& if !present[i] {
        e == PipelineError::ArtifactMissing(artifacts[i])
    } else {
        !usable_base_name(base_name_spec(artifacts[i]@)) && e
            == PipelineError::InvalidArtifactPath(artifacts[i])
    }
}

/// Whether the computed base name can serve as a copy destination.
fn usable_name(name: &String) -> (r: bool)
    ensures
        r == usable_base_name(name@),
{
    let s = name.as_str();
    let n = s.unicode_len();
    if n == 0 {
        return false;
    }
    if n == 1 && s.get_char(0) == '.' {
        proof {
            assert(name@ =~= seq!['.']);
        }
        return false;
    }
    if n == 2 && s.get_char(0) == '.' && s.get_char(1) == '.' {
        proof {
            assert(name@ =~= seq!['.', '.']);
        }
        return false;
    }
    proof {
        if name@ == seq!['.'] {
            assert(name@.len() == 1 && name@[0] == '.');
        }
        if name@ == seq!['.', '.'] {
            assert(name@.len() == 2 && name@[0] == '.' && name@[1] == '.');
        }
    }
    true
}

/// Stage a file deployment: ensure the version directory for the label
/// exists in the store and compute the copy plan, the base file name each
/// artifact is copied under, in input order.
///
/// The version directory is created before the artifacts are checked, as
/// the copies land inside it; a failure therefore leaves the fresh
/// directory behind, partially populated at most, and the `current`
/// pointer untouched.  The first artifact in input order that is absent,
/// or whose path has no usable base name (empty, `.` or `..`), decides
/// the error.  Only after every copy has succeeded may the caller repoint
/// `current` to the label.
pub fn stage_file_deploy(
    store: &mut VersionStore,
    artifacts: &Vec<String>,
    present: &Vec<bool>,
    label: &String,
    now: u64,
) -> (r: Result<Vec<String>, PipelineError>)
    requires
        old(store).wf(),
        present@.len() == artifacts@.len(),
    ensures
        final(store).wf(),
        final(store).root_exists,
        final(store).current == old(store).current,
        final(store).spec_has(label@),
        old(store).spec_has(label@) ==> *final(store) == *old(store),
        !old(store).spec_has(label@) ==> {
            &&& final(store).versions@.to_multiset() == old(store).versions@.to_multiset().insert(
                (Version { label: *label, created_at: now }),
            )
            &&& final(store).versions@.len() == old(store).versions@.len() + 1
        },
        forall|l: Seq<char>|
            #[trigger] final(store).spec_has(l) <==> old(store).spec_has(l) || l == label@,
        old(store).current_valid() ==> final(store).current_valid(),
        r matches Ok(names) ==> names@.len() == artifacts@.len() && (forall|i: int|
            0 <= i < artifacts@.len() ==> #[trigger] names@[i]@ == base_name_spec(artifacts@[i]@)
                && usable_base_name(names@[i]@) && present@[i]),
        r matches Err(e) ==> exists|i: int|
            #[trigger] file_deploy_error_at(artifacts@, present@, i, e),
{
    store.create_version(label, now);
    let mut names: Vec<String> = Vec::new();
    let mut i: usize = 0;
    while i < artifacts.len()
        invariant
            i <= artifacts@.len(),
            present@.len() == artifacts@.len(),
            names@.len() == i,
            forall|j: int|
                0 <= j < i ==> #[trigger] names@[j]@ == base_name_spec(artifacts@[j]@)
                    && usable_base_name(names@[j]@) && present@[j],
            store.wf(),
            store.root_exists,
            store.current == old(store).current,
            store.spec_has(label@),
            old(store).spec_has(label@) ==> *store == *old(store),
            !old(store).spec_has(label@) ==> {
                &&& store.versions@.to_multiset() == old(store).versions@.to_multiset().insert(
                    (Version { label: *label, created_at: now }),
                )
                &&& store.versions@.len() == old(store).versions@.len() + 1
            },
            forall|l: Seq<char>|
                #[trigger] store.spec_has(l) <==> old(store).spec_has(l) || l == label@,
            old(store).current_valid() ==> store.current_valid(),
        decreases artifacts@.len() - i,
    {
        if !present[i] {
            let e = PipelineError::ArtifactMissing(artifacts[i].clone());
            proof {
                assert forall|j: int| 0 <= j < i implies #[trigger] present@[j]
                    && usable_base_name(base_name_spec(artifacts@[j]@)) by {
                    assert(names@[j]@ == base_name_spec(artifacts@[j]@));
                    assert(usable_base_name(names@[j]@));
                }
                assert(file_deploy_error_at(artifacts@, present@, i as int, e));
            }
            return Err(e);
        }
        let name = base_name(artifacts[i].as_str());
        if !usable_name(&name) {
            let e = PipelineError::InvalidArtifactPath(artifacts[i].clone());
            proof {
                assert forall|j: int| 0 <= j < i implies #[trigger] present@[j]
                    && usable_base_name(base_name_spec(artifacts@[j]@)) by {
                    assert(names@[j]@ == base_name_spec(artifacts@[j]@));
                    assert(usable_base_name(names@[j]@));
                }
                assert(file_deploy_error_at(artifacts@, present@, i as int, e));
            }
            return Err(e);
        }
        names.push(name);
        i += 1;
    }
    Ok(names)
}

} // verus!
