//! The staged-artifact naming scheme.
//!
//! Two sibling files live next to the supervisor's own binary: the *staged*
//! artifact, which a developer overwrites to trigger a reload, and the
//! *working copy*, a private file the staged artifact is copied to right
//! before each load. Only the working copy is ever opened as a dynamic
//! library, so the staged file stays free for replacement at any time.
//!
//! Paths are handled as byte strings, the form the operating system takes
//! them in; the directory part is whatever precedes the last separator.

use vstd::prelude::*;

verus! {

/// The path separator byte, `/`.
pub const PATH_SEPARATOR: u8 = 47;

/// File name of the staged artifact, `plugin.reload`, as bytes.
pub open spec fn staged_name() -> Seq<u8> {
    seq![112u8, 108u8, 117u8, 103u8, 105u8, 110u8, 46u8, 114u8, 101u8, 108u8, 111u8, 97u8, 100u8]
}

/// File name of the working copy, `_plugin.reload`, as bytes: the staged
/// name behind a distinguishing underscore.
pub open spec fn working_name() -> Seq<u8> {
    seq![95u8] + staged_name()
}

/// Length of the longest prefix of `p` that ends in a separator: the
/// directory part that `replace_file_name` keeps. Zero when `p` holds no
/// separator.
pub open spec fn dir_len(p: Seq<u8>) -> int
    decreases p.len(),
{
    if p.len() == 0 {
        0
    } else if p.last() == PATH_SEPARATOR {
        p.len() as int
    } else {
        dir_len(p.drop_last())
    }
}

/// The sibling of `p` named `name`: the directory part of `p` followed by
/// `name`.
pub open spec fn replace_file_name(p: Seq<u8>, name: Seq<u8>) -> Seq<u8> {
    p.take(dir_len(p)) + name
}

/// Replace the file-name part of `path` with `name`, keeping everything up
/// to and including the last separator. A path without a separator is
/// replaced by `name` alone.
pub fn with_file_name(path: &Vec<u8>, name: &Vec<u8>) -> (r: Vec<u8>)
    ensures
        r@ == replace_file_name(path@, name@),
{
    proof {
        assert(path@.take(path@.len() as int) =~= path@);
    }
    let mut cut: usize = path.len();
    while cut > 0 && path[cut - 1] != PATH_SEPARATOR
        invariant
            cut <= path@.len(),
            dir_len(path@) == dir_len(path@.take(cut as int)),
        decreases cut,
    {
        proof {
            assert(path@.take(cut as int).last() == path@[cut - 1]);
            assert(path@.take(cut as int).drop_last() =~= path@.take(cut - 1));
        }
        cut = cut - 1;
    }
    proof {
        if cut > 0 {
            assert(path@.take(cut as int).last() == path@[cut - 1]);
        }
        assert(dir_len(path@) == cut as int);
    }
    let mut r: Vec<u8> = Vec::new();
    proof {
        assert(r@ =~= path@.take(0int));
    }
    let mut i: usize = 0;
    while i < cut
        invariant
            i <= cut <= path@.len(),
            r@ == path@.take(i as int),
        decreases cut - i,
    {
        let b: u8 = path[i];
        r.push(b);
        proof {
            assert(r@ =~= path@.take(i + 1));
        }
        i = i + 1;
    }
    proof {
        assert(r@ =~= path@.take(cut as int) + name@.take(0int));
    }
    let mut j: usize = 0;
    while j < name.len()
        invariant
            j <= name@.len(),
            cut as int == dir_len(path@),
            r@ == path@.take(dir_len(path@)) + name@.take(j as int),
        decreases name@.len() - j,
    {
        let b: u8 = name[j];
        r.push(b);
        proof {
            assert(r@ =~= path@.take(dir_len(path@)) + name@.take(j + 1));
        }
        j = j + 1;
    }
    proof {
        assert(name@.take(name@.len() as int) =~= name@);
    }
    r
}

/// Append the staged artifact's file name to `v`.
fn push_staged_name(v: &mut Vec<u8>)
    ensures
        final(v)@ == old(v)@ + staged_name(),
{
    v.push(112);
    v.push(108);
    v.push(117);
    v.push(103);
    v.push(105);
    v.push(110);
    v.push(46);
    v.push(114);
    v.push(101);
    v.push(108);
    v.push(111);
    v.push(97);
    v.push(100);
    proof {
        assert(v@ =~= old(v)@ + staged_name());
    }
}

/// The staged artifact's file name, `plugin.reload`.
pub fn staged_file_name() -> (r: Vec<u8>)
    ensures
        r@ == staged_name(),
{
    let mut r: Vec<u8> = Vec::new();
    push_staged_name(&mut r);
    proof {
        assert(r@ =~= staged_name());
    }
    r
}

/// The working copy's file name, `_plugin.reload`.
pub fn working_file_name() -> (r: Vec<u8>)
    ensures
        r@ == working_name(),
{
    let mut r: Vec<u8> = Vec::new();
    r.push(95);
    push_staged_name(&mut r);
    proof {
        assert(r@ =~= working_name());
    }
    r
}

/// The path of the staged artifact, next to the supervisor binary at
/// `own_path`.
pub fn staged_path(own_path: &Vec<u8>) -> (r: Vec<u8>)
    ensures
        r@ == replace_file_name(own_path@, staged_name()),
{
    let name = staged_file_name();
    with_file_name(own_path, &name)
}

/// The path of the working copy, next to the supervisor binary at
/// `own_path`.
pub fn working_path(own_path: &Vec<u8>) -> (r: Vec<u8>)
    ensures
        r@ == replace_file_name(own_path@, working_name()),
{
    let name = working_file_name();
    with_file_name(own_path, &name)
}

/// Staged-file independence: whatever the supervisor's own path is, the
/// working copy and the staged artifact are two different paths. Loading
/// therefore opens a file that is never the one a developer replaces, so
/// replacing the staged artifact cannot contend with the loaded copy.
pub proof fn lemma_staged_file_independent(own_path: Seq<u8>)
    ensures
        replace_file_name(own_path, working_name()) != replace_file_name(
            own_path,
            staged_name(),
        ),
{
    assert(replace_file_name(own_path, working_name()).len() != replace_file_name(
        own_path,
        staged_name(),
    ).len());
}

} // verus!
