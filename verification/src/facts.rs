//! Questions about local paths, answered from what the local machine reported.
use vstd::prelude::*;
use vstd::string::*;

use crate::model::{AppError, PathProbe, SshCommand};
use crate::text::{owned, str_eq};

verus! {

/// The first probe listed for `path`.
pub open spec fn probe_for(probes: Seq<PathProbe>, path: Seq<char>) -> Option<PathProbe>
    decreases probes.len(),
{
    if probes.len() == 0 {
        None
    } else if probes[0].path@ == path {
        Some(probes[0])
    } else {
        probe_for(probes.skip(1), path)
    }
}

/// `path` names a regular file.
pub open spec fn is_file(probes: Seq<PathProbe>, path: Seq<char>) -> bool {
    match probe_for(probes, path) {
        Some(p) => p.is_file,
        None => false,
    }
}

/// `path` names a directory.
pub open spec fn is_dir(probes: Seq<PathProbe>, path: Seq<char>) -> bool {
    match probe_for(probes, path) {
        Some(p) => p.is_dir,
        None => false,
    }
}

/// `path` names anything.
pub open spec fn path_present(probes: Seq<PathProbe>, path: Seq<char>) -> bool {
    match probe_for(probes, path) {
        Some(p) => p.exists,
        None => false,
    }
}

fn find_probe(probes: &Vec<PathProbe>, path: &str) -> (res: Option<usize>)
    ensures
        res matches Some(i) ==> i < probes@.len() && probe_for(probes@, path@) == Some(
            probes@[i as int],
        ),
        res is None ==> probe_for(probes@, path@) is None,
{
    let mut i: usize = 0;
    assert(probes@.skip(0) =~= probes@);
    while i < probes.len()
        invariant
            0 <= i <= probes@.len(),
            probe_for(probes@, path@) == probe_for(probes@.skip(i as int), path@),
        decreases probes@.len() - i,
    {
        assert(probes@.skip(i as int)[0] == probes@[i as int]);
        if str_eq(probes[i].path.as_str(), path) {
            return Some(i);
        }
        assert(probes@.skip(i as int).skip(1) =~= probes@.skip(i + 1));
        i += 1;
    }
    None
}

/// `Path::is_file`, as reported.
pub fn path_is_file(probes: &Vec<PathProbe>, path: &str) -> (res: bool)
    ensures
        res == is_file(probes@, path@),
{
    match find_probe(probes, path) {
        Some(i) => probes[i].is_file,
        None => false,
    }
}

/// `Path::is_dir`, as reported.
pub fn path_is_dir(probes: &Vec<PathProbe>, path: &str) -> (res: bool)
    ensures
        res == is_dir(probes@, path@),
{
    match find_probe(probes, path) {
        Some(i) => probes[i].is_dir,
        None => false,
    }
}

/// `Path::exists`, as reported.
pub fn path_exists(probes: &Vec<PathProbe>, path: &str) -> (res: bool)
    ensures
        res == path_present(probes@, path@),
{
    match find_probe(probes, path) {
        Some(i) => probes[i].exists,
        None => false,
    }
}

/// The refusal for a missing regular file.
pub open spec fn missing_file_message(name: Seq<char>, path: Seq<char>) -> Seq<char> {
    name + " does not exist or is not a regular file: "@ + path
}

/// The refusal for a missing path.
pub open spec fn missing_path_message(name: Seq<char>, path: Seq<char>) -> Seq<char> {
    name + " does not exist: "@ + path
}

/// Refuses unless `path` names a regular file.
pub fn require_file(name: &str, path: &str, probes: &Vec<PathProbe>) -> (res: Result<(), AppError>)
    ensures
        res is Ok <==> is_file(probes@, path@),
        res matches Err(e) ==> e.text() == missing_file_message(name@, path@),
{
    if path_is_file(probes, path) {
        Ok(())
    } else {
        let mut m = owned(name);
        m.append(" does not exist or is not a regular file: ");
        m.append(path);
        Err(AppError::Message(m))
    }
}

/// Refuses unless `path` names anything.
pub fn require_existing_path(name: &str, path: &str, probes: &Vec<PathProbe>) -> (res: Result<
    (),
    AppError,
>)
    ensures
        res is Ok <==> path_present(probes@, path@),
        res matches Err(e) ==> e.text() == missing_path_message(name@, path@),
{
    if path_exists(probes, path) {
        Ok(())
    } else {
        let mut m = owned(name);
        m.append(" does not exist: ");
        m.append(path);
        Err(AppError::Message(m))
    }
}

/// The host key with `.pub` appended, where a public key is looked for.
pub open spec fn pub_suffixed(path: Seq<char>) -> Seq<char> {
    path + ".pub"@
}

/// Appends `.pub` to a path.
pub fn append_pub_suffix(path: &str) -> (res: String)
    ensures
        res@ == pub_suffixed(path@),
{
    let mut res = owned(path);
    res.append(".pub");
    res
}

/// The local paths that a deployment plan asks about, in the order it asks.
pub open spec fn paths_asked(c: SshCommand) -> Seq<Seq<char>> {
    seq![c.disk_spec@, c.kexec_kernel@, c.kexec_initrd@] + (match c.flake_source {
        Some(p) => seq![p@],
        None => Seq::empty(),
    }) + c.installer_known_hosts_files.deep_view() + (match c.system {
        Some(p) => seq![p@],
        None => Seq::empty(),
    }) + (match c.host_key {
        Some(p) => seq![p@, pub_suffixed(p@)],
        None => Seq::empty(),
    }) + (match c.host_key_public {
        Some(p) => seq![p@],
        None => Seq::empty(),
    })
}

fn push_opt(v: &mut Vec<String>, p: &Option<String>)
    ensures
        final(v).deep_view() == old(v).deep_view() + (match *p {
            Some(s) => seq![s@],
            None => Seq::empty(),
        }),
{
    let ghost before = v.deep_view();
    if let Some(s) = p {
        v.push(owned(s.as_str()));
    }
    assert(v.deep_view() =~= before + (match *p {
        Some(s) => seq![s@],
        None => Seq::<Seq<char>>::empty(),
    }));
}

/// The local paths to probe before planning `command`.
pub fn probe_paths(command: &SshCommand) -> (res: Vec<String>)
    ensures
        res.deep_view() == paths_asked(*command),
{
    let mut v: Vec<String> = Vec::new();
    v.push(owned(command.disk_spec.as_str()));
    v.push(owned(command.kexec_kernel.as_str()));
    v.push(owned(command.kexec_initrd.as_str()));
    push_opt(&mut v, &command.flake_source);
    let mut i: usize = 0;
    let ghost start = v.deep_view();
    let ghost files = command.installer_known_hosts_files.deep_view();
    while i < command.installer_known_hosts_files.len()
        invariant
            files == command.installer_known_hosts_files.deep_view(),
            0 <= i <= files.len(),
            v.deep_view() =~= start + files.take(i as int),
        decreases files.len() - i,
    {
        let ghost prev = v.deep_view();
        v.push(owned(command.installer_known_hosts_files[i].as_str()));
        assert(v.deep_view() =~= prev.push(files[i as int]));
        assert(files.take(i + 1) =~= files.take(i as int).push(files[i as int]));
        i += 1;
    }
    assert(files.take(files.len() as int) =~= files);
    push_opt(&mut v, &command.system);
    let ghost before = v.deep_view();
    if let Some(k) = &command.host_key {
        v.push(owned(k.as_str()));
        v.push(append_pub_suffix(k.as_str()));
    }
    assert(v.deep_view() =~= before + (match command.host_key {
        Some(p) => seq![p@, pub_suffixed(p@)],
        None => Seq::<Seq<char>>::empty(),
    }));
    push_opt(&mut v, &command.host_key_public);
    assert(v.deep_view() =~= paths_asked(*command));
    v
}

} // verus!
