use vstd::prelude::*;
use vstd::string::StringExecFns;
use crate::error::SanitizeError;

verus! {

/// A candidate location of the engine executable, and whether a file exists
/// there.
#[derive(Debug, Clone, PartialEq)]
pub struct Probe {
    pub path: String,
    pub exists: bool,
}

/// The path of the first probe that exists, if any.
pub open spec fn first_existing(probes: Seq<Probe>) -> Option<Seq<char>>
    decreases probes.len(),
{
    if probes.len() == 0 {
        None
    } else if probes[0].exists {
        Some(probes[0].path@)
    } else {
        first_existing(probes.drop_first())
    }
}

/// The engine path chosen: the packaged executable when it exists, otherwise
/// the first development candidate that exists.
pub open spec fn located(packaged: Option<Probe>, dev: Seq<Probe>) -> Option<Seq<char>> {
    match packaged {
        Some(p) if p.exists => Some(p.path@),
        _ => first_existing(dev),
    }
}

/// File name of the engine executable on a platform with (`windows`) or
/// without an executable suffix.
pub fn executable_name(windows: bool) -> (r: String)
    ensures
        windows ==> r@ == "prompt-sanitizer.exe"@,
        !windows ==> r@ == "prompt-sanitizer"@,
{
    if windows {
        String::from_str("prompt-sanitizer.exe")
    } else {
        String::from_str("prompt-sanitizer")
    }
}

/// The development locations, relative to the working directory, in the
/// order they are tried.
pub fn development_candidates() -> (r: Vec<String>)
    ensures
        r@.len() == 6,
        r@[0]@ == "bin/prompt-sanitizer.exe"@,
        r@[1]@ == "bin/prompt-sanitizer"@,
        r@[2]@ == "src-tauri/bin/prompt-sanitizer.exe"@,
        r@[3]@ == "src-tauri/bin/prompt-sanitizer"@,
        r@[4]@ == "../../engine/go/cmd/main.exe"@,
        r@[5]@ == "../../engine/go/cmd/prompt-sanitizer.exe"@,
{
    let mut r: Vec<String> = Vec::new();
    r.push(String::from_str("bin/prompt-sanitizer.exe"));
    r.push(String::from_str("bin/prompt-sanitizer"));
    r.push(String::from_str("src-tauri/bin/prompt-sanitizer.exe"));
    r.push(String::from_str("src-tauri/bin/prompt-sanitizer"));
    r.push(String::from_str("../../engine/go/cmd/main.exe"));
    r.push(String::from_str("../../engine/go/cmd/prompt-sanitizer.exe"));
    r
}

/// Chooses the engine executable. `packaged` is the probe of the executable in
/// the host's resource directory, absent when the host has none; `dev` are the
/// probes of the development candidates, in order.
pub fn locate_engine(packaged: &Option<Probe>, dev: &Vec<Probe>) -> (r: Result<String, SanitizeError>)
    ensures
        r is Ok <==> located(*packaged, dev@) is Some,
        r matches Ok(p) ==> located(*packaged, dev@) == Some(p@),
        r is Err ==> (r matches Err(SanitizeError::NotFound { packaged_dir }) && packaged_dir
            == packaged.is_some()),
{
    if let Some(p) = packaged {
        if p.exists {
            return Ok(p.path.clone());
        }
    }
    let mut i: usize = 0;
    assert(dev@.skip(0) =~= dev@);
    while i < dev.len()
        invariant
            i <= dev@.len(),
            located(*packaged, dev@) == first_existing(dev@),
            first_existing(dev@) == first_existing(dev@.skip(i as int)),
        decreases dev@.len() - i,
    {
        assert(dev@.skip(i as int).drop_first() =~= dev@.skip(i + 1));
        if dev[i].exists {
            return Ok(dev[i].path.clone());
        }
        i = i + 1;
    }
    assert(dev@.skip(i as int).len() == 0);
    Err(SanitizeError::NotFound { packaged_dir: packaged.is_some() })
}

/// A path that the locator returns belongs to a probe that exists.
pub proof fn lemma_first_existing_exists(probes: Seq<Probe>)
    ensures
        first_existing(probes) matches Some(p) ==> exists|i: int|
            0 <= i < probes.len() && probes[i].exists && (#[trigger] probes[i]).path@ == p,
    decreases probes.len(),
{
    if probes.len() > 0 && !probes[0].exists {
        lemma_first_existing_exists(probes.drop_first());
        if let Some(p) = first_existing(probes.drop_first()) {
            let i = choose|i: int|
                0 <= i < probes.drop_first().len() && probes.drop_first()[i].exists && (
                #[trigger] probes.drop_first()[i]).path@ == p;
            assert(probes[i + 1] == probes.drop_first()[i]);
        }
    }
}

/// When the packaged executable exists it is chosen, whatever the development
/// candidates are.
pub proof fn law_packaged_takes_precedence(p: Probe, dev: Seq<Probe>)
    requires
        p.exists,
    ensures
        located(Some(p), dev) == Some(p.path@),
{
}

/// With no resource directory and no existing development candidate nothing is
/// chosen; whatever is chosen is the path of a probe that exists.
pub proof fn law_never_nonexistent(packaged: Option<Probe>, dev: Seq<Probe>)
    ensures
        packaged is None && (forall|i: int| 0 <= i < dev.len() ==> !(#[trigger] dev[i]).exists)
            ==> located(packaged, dev) is None,
        located(packaged, dev) matches Some(path) ==> (packaged matches Some(p) && p.exists
            && p.path@ == path) || exists|i: int|
            0 <= i < dev.len() && dev[i].exists && (#[trigger] dev[i]).path@ == path,
{
    lemma_first_existing_exists(dev);
}

} // verus!
